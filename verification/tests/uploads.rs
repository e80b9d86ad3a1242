use catdex::digits::u64_to_dec;
use catdex::errors::UserError;
use catdex::handlers::validate_create;
use catdex::multipart::{lookup_text, stored_disk_path, stored_file_name, strip_dot_prefix};

#[test]
fn decimal_rendering_is_exact() {
    assert_eq!(u64_to_dec(0), "0");
    assert_eq!(u64_to_dec(7), "7");
    assert_eq!(u64_to_dec(42), "42");
    assert_eq!(u64_to_dec(1234567890), "1234567890");
    assert_eq!(u64_to_dec(u64::MAX), "18446744073709551615");
}

#[test]
fn stored_names_are_distinct_for_distinct_nonces() {
    // The client-side file name plays no part: every upload gets the
    // server-chosen name for its nonce, so identically named uploads cannot
    // collide on disk or in the stored rows.
    let mut seen: Vec<String> = Vec::new();
    let mut n: u64 = 0;
    while n < 50 {
        let f = stored_file_name(n);
        assert!(!seen.contains(&f));
        seen.push(f);
        n += 1;
    }
    assert_ne!(stored_file_name(1), stored_file_name(10));
    assert_eq!(stored_file_name(0), "cat_0");
}

#[test]
fn disk_path_strips_to_public_path() {
    let disk = stored_disk_path("cat_9");
    assert_eq!(disk, "./image/cat_9");
    assert_eq!(strip_dot_prefix(disk.as_str()), Ok(String::from("/image/cat_9")));
}

#[test]
fn strip_rejects_paths_without_marker() {
    assert_eq!(
        strip_dot_prefix("image/cat_9"),
        Err(UserError::ValidationError)
    );
    assert_eq!(strip_dot_prefix(""), Err(UserError::ValidationError));
    assert_eq!(strip_dot_prefix("."), Ok(String::new()));
}

#[test]
fn lookup_resolves_repeats_to_last_value() {
    let texts = vec![
        (String::from("name"), String::from("First")),
        (String::from("kind"), String::from("tabby")),
        (String::from("name"), String::from("Second")),
    ];
    assert_eq!(lookup_text(&texts, "name"), Some(String::from("Second")));
    assert_eq!(lookup_text(&texts, "kind"), Some(String::from("tabby")));
    assert_eq!(lookup_text(&texts, "absent"), None);
}

#[test]
fn create_missing_name_is_validation_error() {
    let empty: Vec<(String, String)> = Vec::new();
    assert_eq!(
        validate_create(&empty, true),
        Err(UserError::ValidationError)
    );
    let blank = vec![(String::from("name"), String::new())];
    assert_eq!(
        validate_create(&blank, true),
        Err(UserError::ValidationError)
    );
}

#[test]
fn create_missing_image_is_missing_upload() {
    let texts = vec![(String::from("name"), String::from("Tom"))];
    assert_eq!(validate_create(&texts, false), Err(UserError::MissingUpload));
}

#[test]
fn create_valid_fields_pass_validation() {
    let texts = vec![
        (String::from("name"), String::from("First")),
        (String::from("name"), String::from("Tom")),
    ];
    assert_eq!(validate_create(&texts, true), Ok(String::from("Tom")));
}
