use torrent_core::encode::{announce_url_bytes, append_hex, append_signed, comment_url_bytes, encode_personalized};
use torrent_core::passkey::combine_passkey;

#[test]
fn halves_combine_big_endian() {
    assert_eq!(combine_passkey(0, 1), 1);
    assert_eq!(combine_passkey(1, 0), 1u128 << 64);
    assert_eq!(combine_passkey(-1, -1), u128::MAX);
    assert_eq!(combine_passkey(0, -1), u64::MAX as u128);
}

#[test]
fn hex_is_fixed_width_lowercase() {
    let mut out = Vec::new();
    append_hex(&mut out, 255, 32);
    assert_eq!(out, b"000000000000000000000000000000ff".to_vec());
    let mut out = b"x".to_vec();
    append_hex(&mut out, 0xABCDEF, 6);
    assert_eq!(out, b"xabcdef".to_vec());
}

#[test]
fn announce_url_embeds_token() {
    assert_eq!(
        announce_url_bytes(b"https://tracker.example/", 0x0123456789abcdef, 0x10),
        b"https://tracker.example/announce/0123456789abcdef0000000000000010".to_vec()
    );
    assert_eq!(
        announce_url_bytes(b"http://t/", -1, 0),
        b"http://t/announce/ffffffffffffffff0000000000000000".to_vec()
    );
}

#[test]
fn comment_url_names_record() {
    assert_eq!(comment_url_bytes(b"https://site.example/", 42), b"https://site.example/torrent/42".to_vec());
    assert_eq!(comment_url_bytes(b"f/", 0), b"f/torrent/0".to_vec());
    let mut out = Vec::new();
    append_signed(&mut out, i64::MIN);
    assert_eq!(out, b"-9223372036854775808".to_vec());
}

#[test]
fn personalized_file_layout() {
    let f = encode_personalized(b"a/announce/x", b"c", b"T", -5, b"de");
    assert_eq!(
        f,
        b"d8:announce12:a/announce/x7:comment1:c10:created by1:T13:creation datei-5e4:infodee".to_vec()
    );
}
