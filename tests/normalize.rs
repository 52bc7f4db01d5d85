use bip_metainfo::{DirectAccessor, Info, InfoHash, Metainfo, MetainfoBuilder, PieceLength};
use torrent_core::error::TorrentError;
use torrent_core::normalize::normalize_upload;

// Adds `private: <flag>` at the end of the info dictionary, the last value
// of the file's dictionary.
fn declare_private(mut file: Vec<u8>, private: Option<bool>) -> Vec<u8> {
    if let Some(flag) = private {
        let entry: &[u8] = if flag { b"7:privatei1e" } else { b"7:privatei0e" };
        let at = file.len() - 2;
        file.splice(at..at, entry.iter().copied());
    }
    file
}

fn single_file_upload(name: &str, len: usize, private: Option<bool>) -> Vec<u8> {
    let data = vec![7u8; len];
    let file = MetainfoBuilder::new()
        .set_main_tracker(Some("http://uploader.example/announce"))
        .set_piece_length(PieceLength::Custom(16384))
        .build(1, DirectAccessor::new(name, &data), |_| {})
        .unwrap();
    let file = declare_private(file, private);
    assert_eq!(Metainfo::from_bytes(&file).unwrap().info().is_private(), private);
    file
}

#[test]
fn single_file_upload_is_forced_private() {
    let upload = single_file_upload("movie.mkv", 1000, Some(false));
    let d = normalize_upload(&upload).ok().unwrap();
    let info = Info::from_bytes(&d.info_bytes).unwrap();
    assert_eq!(info.is_private(), Some(true));
    assert_eq!(d.piece_length, 16384);
    assert_eq!(info.piece_length(), 16384);
    assert_eq!(d.manifest.size, 1000);
    assert_eq!(d.manifest.parent_folder, "");
    assert_eq!(d.manifest.files.len(), 1);
    assert_eq!(d.manifest.files[0].name, "movie.mkv");
    assert_eq!(d.manifest.files[0].size, 1000);
    assert_eq!(d.manifest.extension_counts.len(), 1);
    assert_eq!(d.manifest.extension_counts[0].extension, "mkv");
    assert_eq!(d.manifest.extension_counts[0].count, 1);
}

#[test]
fn single_file_without_extension_has_no_counts() {
    let upload = single_file_upload("README", 1000, Some(false));
    let d = normalize_upload(&upload).ok().unwrap();
    assert_eq!(d.manifest.size, 1000);
    assert!(d.manifest.extension_counts.is_empty());
}

#[test]
fn private_flag_forced_whatever_was_declared() {
    for declared in [Some(true), Some(false), None] {
        let upload = single_file_upload("a.txt", 500, declared);
        let d = normalize_upload(&upload).ok().unwrap();
        let info = Info::from_bytes(&d.info_bytes).unwrap();
        assert_eq!(info.is_private(), Some(true));
    }
}

#[test]
fn identifier_is_digest_of_canonical_bytes() {
    let upload = single_file_upload("a.txt", 500, Some(false));
    let uploaded = Metainfo::from_bytes(&upload).unwrap();
    let d = normalize_upload(&upload).ok().unwrap();
    assert_eq!(d.info_hash.len(), 20);
    assert_eq!(d.info_hash, InfoHash::from_bytes(&d.info_bytes).as_ref().to_vec());
    assert_ne!(d.info_hash, uploaded.info().info_hash().as_ref().to_vec());
}

#[test]
fn identifier_ignores_declared_privacy() {
    let a = single_file_upload("a.txt", 5000, Some(false));
    let b = single_file_upload("a.txt", 5000, None);
    let c = single_file_upload("a.txt", 5000, Some(true));
    let ha = Metainfo::from_bytes(&a).unwrap().info().info_hash();
    let hb = Metainfo::from_bytes(&b).unwrap().info().info_hash();
    let hc = Metainfo::from_bytes(&c).unwrap().info().info_hash();
    assert_ne!(ha, hb);
    assert_ne!(hb, hc);
    let da = normalize_upload(&a).ok().unwrap();
    let db = normalize_upload(&b).ok().unwrap();
    let dc = normalize_upload(&c).ok().unwrap();
    assert_eq!(da.info_hash, db.info_hash);
    assert_eq!(da.info_bytes, db.info_bytes);
    assert_eq!(dc.info_hash, db.info_hash);
    assert_eq!(dc.info_hash, InfoHash::from_bytes(&dc.info_bytes).as_ref().to_vec());
}

#[test]
fn normalizing_canonical_form_is_idempotent() {
    let upload = single_file_upload("clip.mp4", 40000, Some(false));
    let d = normalize_upload(&upload).ok().unwrap();
    let info = Info::from_bytes(&d.info_bytes).unwrap();
    let again_upload = MetainfoBuilder::new()
        .set_piece_length(PieceLength::Custom(info.piece_length() as usize))
        .build(1, &info, |_| {})
        .unwrap();
    let again_upload = declare_private(again_upload, Some(true));
    let again = normalize_upload(&again_upload).ok().unwrap();
    assert_eq!(again.info_hash, d.info_hash);
    assert_eq!(again.info_bytes, d.info_bytes);
}

#[test]
fn garbage_upload_is_invalid() {
    let r = normalize_upload(b"not a torrent");
    assert!(matches!(r, Err(TorrentError::InvalidMetainfo)));
    let r = normalize_upload(b"");
    assert!(matches!(r, Err(TorrentError::InvalidMetainfo)));
}

#[test]
fn out_of_range_piece_length_is_invalid() {
    let upload = single_file_upload("a.txt", 500, None);
    let from = b"12:piece lengthi16384e";
    let at = upload.windows(from.len()).position(|w| w == from).unwrap();
    let mut bad = upload[..at].to_vec();
    bad.extend_from_slice(b"12:piece lengthi-1e");
    bad.extend_from_slice(&upload[at + from.len()..]);
    assert!(Metainfo::from_bytes(&bad).is_ok());
    assert!(matches!(normalize_upload(&bad), Err(TorrentError::InvalidMetainfo)));
}
