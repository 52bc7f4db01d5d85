use bip_metainfo::{DirectAccessor, Info, Metainfo, MetainfoBuilder, PieceLength};
use torrent_core::distribute::{personalize, Identity, StoredTorrent};
use torrent_core::error::TorrentError;
use torrent_core::normalize::normalize_upload;

fn stored() -> StoredTorrent {
    let data = vec![3u8; 70000];
    let upload = MetainfoBuilder::new()
        .set_piece_length(PieceLength::Custom(32768))
        .build(1, DirectAccessor::new("show.mkv", &data), |_| {})
        .unwrap();
    let d = normalize_upload(&upload).ok().unwrap();
    StoredTorrent { info_dict: d.info_bytes, created_at_secs: 1_700_000_000, release_name: "Show S01".to_string() }
}

fn user(id: i64, upper: i64, lower: i64) -> Identity {
    Identity { id, passkey_upper: upper, passkey_lower: lower }
}

#[test]
fn personalized_file_carries_user_fields() {
    let s = stored();
    let info_dict = s.info_dict.clone();
    let g = personalize(s, 42, &user(7, 0, 0xff), "Tracker", "https://site/", "https://tr/").ok().unwrap();
    assert_eq!(g.title, "Show S01");
    let m = Metainfo::from_bytes(&g.file_contents).unwrap();
    assert_eq!(m.main_tracker(), Some("https://tr/announce/000000000000000000000000000000ff"));
    assert_eq!(m.comment(), Some("https://site/torrent/42"));
    assert_eq!(m.created_by(), Some("Tracker"));
    assert_eq!(m.creation_date(), Some(1_700_000_000));
    assert_eq!(m.info().is_private(), Some(true));
    assert_eq!(m.info().piece_length(), 32768);
    assert_eq!(m.info(), &Info::from_bytes(&info_dict).unwrap());
    let tail = [b"4:info".as_slice(), info_dict.as_slice(), b"e"].concat();
    assert!(g.file_contents.ends_with(&tail));
}

#[test]
fn personalized_files_differ_only_in_token() {
    let a = personalize(stored(), 42, &user(7, 1, 2), "T", "f/", "t/").ok().unwrap();
    let b = personalize(stored(), 42, &user(8, 3, 4), "T", "f/", "t/").ok().unwrap();
    assert_eq!(a.file_contents.len(), b.file_contents.len());
    let differing: Vec<usize> =
        (0..a.file_contents.len()).filter(|&i| a.file_contents[i] != b.file_contents[i]).collect();
    assert_eq!(differing.len(), 2);
    let ma = Metainfo::from_bytes(&a.file_contents).unwrap();
    let mb = Metainfo::from_bytes(&b.file_contents).unwrap();
    assert_eq!(ma.info(), mb.info());
    assert_eq!(ma.comment(), mb.comment());
    assert_eq!(ma.created_by(), mb.created_by());
    assert_eq!(ma.creation_date(), mb.creation_date());
    assert_eq!(ma.main_tracker(), Some("t/announce/00000000000000010000000000000002"));
    assert_eq!(mb.main_tracker(), Some("t/announce/00000000000000030000000000000004"));
}

#[test]
fn same_user_gets_identical_bytes() {
    let a = personalize(stored(), 9, &user(7, 1, 2), "T", "f/", "t/").ok().unwrap();
    let b = personalize(stored(), 9, &user(7, 1, 2), "T", "f/", "t/").ok().unwrap();
    assert_eq!(a.file_contents, b.file_contents);
}

#[test]
fn stored_info_without_flag_is_marked_private() {
    let data = vec![1u8; 100];
    let info_dict = bip_metainfo::InfoBuilder::new()
        .set_piece_length(PieceLength::Custom(16384))
        .build(1, DirectAccessor::new("a.bin", &data), |_| {})
        .unwrap();
    assert_eq!(Info::from_bytes(&info_dict).unwrap().is_private(), None);
    let s = StoredTorrent { info_dict, created_at_secs: 0, release_name: "x".to_string() };
    let g = personalize(s, 1, &user(1, 0, 0), "T", "f/", "t/").ok().unwrap();
    let m = Metainfo::from_bytes(&g.file_contents).unwrap();
    assert_eq!(m.info().is_private(), Some(true));
}

#[test]
fn undecodable_stored_descriptor_is_invalid() {
    let s = StoredTorrent { info_dict: b"garbage".to_vec(), created_at_secs: 0, release_name: "x".to_string() };
    let r = personalize(s, 1, &user(1, 0, 0), "T", "f/", "t/");
    assert!(matches!(r, Err(TorrentError::InvalidMetainfo)));
}

#[test]
fn stored_info_marked_public_is_made_private() {
    let data = vec![1u8; 100];
    let mut info_dict = bip_metainfo::InfoBuilder::new()
        .set_piece_length(PieceLength::Custom(16384))
        .build(1, DirectAccessor::new("a.bin", &data), |_| {})
        .unwrap();
    let at = info_dict.len() - 1;
    info_dict.splice(at..at, b"7:privatei0e".iter().copied());
    assert_eq!(Info::from_bytes(&info_dict).unwrap().is_private(), Some(false));
    let s = StoredTorrent { info_dict, created_at_secs: 0, release_name: "x".to_string() };
    let g = personalize(s, 1, &user(1, 0, 0), "T", "f/", "t/").ok().unwrap();
    let m = Metainfo::from_bytes(&g.file_contents).unwrap();
    assert_eq!(m.info().is_private(), Some(true));
}
