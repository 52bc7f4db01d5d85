use torrent_core::manifest::{build_manifest, file_extension, FileEntry};

fn entry(name: &str, size: u64) -> FileEntry {
    FileEntry { name: name.to_string(), size }
}

#[test]
fn extension_is_text_after_last_dot() {
    assert_eq!(file_extension("a.tar.gz"), Some("gz".to_string()));
    assert_eq!(file_extension("movie.mkv"), Some("mkv".to_string()));
    assert_eq!(file_extension("trailing."), Some("".to_string()));
    assert_eq!(file_extension("README"), None);
    assert_eq!(file_extension(""), None);
}

#[test]
fn manifest_counts_and_sums() {
    let files = vec![entry("a.flac", 10), entry("b.flac", 20), entry("cover.jpg", 5), entry("notes", 1)];
    let m = build_manifest(Some("Album".to_string()), files).unwrap();
    assert_eq!(m.parent_folder, "Album");
    assert_eq!(m.size, 36);
    assert_eq!(m.files.len(), 4);
    let mut counts: Vec<(String, u64)> =
        m.extension_counts.iter().map(|c| (c.extension.clone(), c.count)).collect();
    counts.sort();
    assert_eq!(counts, vec![("flac".to_string(), 2), ("jpg".to_string(), 1)]);
}

#[test]
fn manifest_without_folder_or_files() {
    let m = build_manifest(None, Vec::new()).unwrap();
    assert_eq!(m.parent_folder, "");
    assert_eq!(m.size, 0);
    assert!(m.files.is_empty());
    assert!(m.extension_counts.is_empty());
}

#[test]
fn manifest_size_too_large_is_refused() {
    let files = vec![entry("a.bin", i64::MAX as u64), entry("b.bin", 1)];
    assert!(build_manifest(None, files).is_none());
    let files = vec![entry("a.bin", i64::MAX as u64)];
    assert_eq!(build_manifest(None, files).unwrap().size, i64::MAX as u64);
}
