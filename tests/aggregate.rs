use torrent_core::aggregate::{recompute_peer_counts, PeerCounts, PeerState, PeerStatus};

fn peer(record_id: i64, status: PeerStatus) -> PeerState {
    PeerState { record_id, status }
}

#[test]
fn counts_seeders_and_leechers_per_record() {
    let peers = vec![
        peer(1, PeerStatus::Seeding),
        peer(1, PeerStatus::Leeching),
        peer(1, PeerStatus::Seeding),
        peer(2, PeerStatus::Leeching),
        peer(2, PeerStatus::Other),
        peer(9, PeerStatus::Seeding),
    ];
    let r = recompute_peer_counts(&vec![1, 2, 3], &peers);
    assert_eq!(
        r,
        vec![
            PeerCounts { record_id: 1, seeders: 2, leechers: 1 },
            PeerCounts { record_id: 2, seeders: 0, leechers: 1 },
            PeerCounts { record_id: 3, seeders: 0, leechers: 0 },
        ]
    );
    assert_eq!(recompute_peer_counts(&vec![1, 2, 3], &peers), r);
}

#[test]
fn no_peers_means_zero() {
    let r = recompute_peer_counts(&vec![5], &Vec::new());
    assert_eq!(r, vec![PeerCounts { record_id: 5, seeders: 0, leechers: 0 }]);
}
