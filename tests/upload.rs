use image_store::config::{max_file_size, size_limit_from, static_image_dir, MAX_CACHE_SIZE};
use image_store::upload::{check_upload, field_limit, same_text, upload_limit, UploadRejection};

#[test]
fn configured_size_text_is_parsed() {
    assert_eq!(max_file_size(Some("8MiB")), Some(8 * 1024 * 1024));
    assert_eq!(max_file_size(Some("1 KiB")), Some(1024));
}

#[test]
fn unparsable_or_absent_size_falls_back_to_default() {
    assert_eq!(max_file_size(Some("lots")), Some(8 * 1024 * 1024));
    assert_eq!(max_file_size(None), Some(8 * 1024 * 1024));
}

#[test]
fn size_limit_that_does_not_fit_is_refused() {
    assert_eq!(size_limit_from(Some(u128::MAX)), None);
    assert_eq!(size_limit_from(Some(42)), Some(42));
    assert_eq!(size_limit_from(None), Some(8388608));
}

#[test]
fn image_dir_defaults() {
    assert_eq!(static_image_dir(None), "./static/");
    assert_eq!(static_image_dir(Some("/srv/img".to_string())), "/srv/img");
    assert_eq!(MAX_CACHE_SIZE, 1073741824);
}

#[test]
fn field_limits() {
    assert_eq!(field_limit("imagenym", 100), Some(256));
    assert_eq!(field_limit("imagefile", 100), Some(1124));
    assert_eq!(field_limit("other", 100), None);
    assert_eq!(upload_limit(usize::MAX), usize::MAX);
}

#[test]
fn texts_compare_by_characters() {
    assert!(same_text("abc", "abc"));
    assert!(!same_text("abc", "abd"));
    assert!(!same_text("abc", "ab"));
}

#[test]
fn upload_decisions() {
    assert_eq!(check_upload(2000, "cat.jpg", 100), Err(UploadRejection::PayloadTooLarge));
    assert_eq!(check_upload(10, "a\tb", 100), Err(UploadRejection::InvalidName));
    assert_eq!(check_upload(10, "cat.jpg", 100), Ok("ca6b6a654e1252".to_string()));
    assert_eq!(check_upload(1124, "cat.jpg", 100), Ok("ca6b6a654e1252".to_string()));
}
