use base64::engine::general_purpose::STANDARD as BASE64;
use base64::Engine;
use math_circle_board::dates::valid_iso_date;
use math_circle_board::hashing::password_hash;
use math_circle_board::images::detected_image_mime;
use math_circle_board::text::valid_label;

#[test]
fn labels_and_hashes_are_stable() {
    assert!(valid_label("Gauss", 60));
    assert!(!valid_label("", 60));
    assert_eq!(password_hash("secret", "salt"), password_hash("secret", "salt"));
}

#[test]
fn dates_and_images_are_validated_from_real_values() {
    assert!(valid_iso_date("2028-02-29"));
    assert!(!valid_iso_date("2026-99-99"));
    assert!(!valid_iso_date("2025-02-29"));
    assert_eq!(detected_image_mime(b"not an image"), None);
    let png = BASE64
        .decode("iVBORw0KGgoAAAANSUhEUgAAAAEAAAABCAQAAAC1HAwCAAAAC0lEQVR42mNk+A8AAQUBAScY42YAAAAASUVORK5CYII=")
        .unwrap();
    assert_eq!(detected_image_mime(&png), Some("image/png"));
}
