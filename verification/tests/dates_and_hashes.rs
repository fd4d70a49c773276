use math_circle_board::dates::valid_iso_date;
use math_circle_board::hashing::{password_hash, random_hex, to_hex};
use math_circle_board::requests::owner_invite_hash;

#[test]
fn leap_days_follow_the_gregorian_rules() {
    assert!(valid_iso_date("2024-02-29"));
    assert!(valid_iso_date("2000-02-29"));
    assert!(!valid_iso_date("1900-02-29"));
    assert!(!valid_iso_date("2023-02-29"));
    assert!(valid_iso_date("2023-02-28"));
}

#[test]
fn date_shape_and_ranges() {
    assert!(valid_iso_date("0001-01-01"));
    assert!(!valid_iso_date("0000-01-01"));
    assert!(valid_iso_date("2026-12-31"));
    assert!(!valid_iso_date("2026-04-31"));
    assert!(!valid_iso_date("2026-13-01"));
    assert!(!valid_iso_date("2026-00-10"));
    assert!(!valid_iso_date("2026-01-00"));
    assert!(!valid_iso_date("2026/01/01"));
    assert!(!valid_iso_date("2026-1-01"));
    assert!(!valid_iso_date("2026-01-011"));
    assert!(!valid_iso_date("２026-01-01"));
}

#[test]
fn password_hash_known_value() {
    assert_eq!(
        password_hash("secret", "salt"),
        "d8403519f73f4722d9211423381d45e1ad59821a1182548bb4e50e56becfab00"
    );
    assert_ne!(password_hash("secret", "salt"), password_hash("secret", "pepper"));
}

#[test]
fn owner_invite_hash_uses_its_salt() {
    assert_eq!(
        owner_invite_hash("adult-setup-code-0123456789"),
        "db02ff2b7335580a30c10c5a24c298a23b94cd36e575f7a92b0e135ca331ec56"
    );
}

#[test]
fn hex_is_lower_case_high_nibble_first() {
    assert_eq!(to_hex(&[0x00, 0x0f, 0xa5, 0xff]), "000fa5ff");
    assert_eq!(to_hex(&[]), "");
}

#[test]
fn random_codes_have_the_promised_shape() {
    let code = random_hex(24);
    assert_eq!(code.len(), 48);
    assert!(code.chars().all(|c| c.is_ascii_digit() || ('a'..='f').contains(&c)));
    assert_ne!(random_hex(24), random_hex(24));
    assert_eq!(random_hex(0), "");
}
