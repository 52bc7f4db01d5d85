use torrent_core::tags::{comma_fields, trimmed_comma_fields};

#[test]
fn fields_drop_empty_pieces() {
    assert_eq!(comma_fields("hdr,,dolby_atmos,"), vec!["hdr".to_string(), "dolby_atmos".to_string()]);
    assert!(comma_fields("").is_empty());
    assert!(comma_fields(",,").is_empty());
    assert_eq!(comma_fields(" a , b"), vec![" a ".to_string(), " b".to_string()]);
}

#[test]
fn trimmed_fields_are_trimmed() {
    assert_eq!(
        trimmed_comma_fields("English, French ,,German"),
        vec!["English".to_string(), "French".to_string(), "German".to_string()]
    );
    assert_eq!(trimmed_comma_fields(" , x"), vec!["".to_string(), "x".to_string()]);
}
