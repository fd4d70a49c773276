use math_circle_board::export::attachment_data_base64;
use math_circle_board::failure::Failure;
use math_circle_board::images::{mime_for, ImageKind};
use math_circle_board::json::strategies_json;
use math_circle_board::requests::{
    attachment_name, check_attachment_slot, check_attempt, check_image_size, check_new_learner,
    check_new_problem, check_new_session, check_setup, image_mime_or_refuse,
    learner_insert_failure, owner_invite_hash,
};

#[test]
fn setup_is_checked_in_order() {
    let code = "adult-setup-code-0123456789";
    let hash = owner_invite_hash(code);
    assert_eq!(check_setup("Morgan", "Saturday Circle", true, 0, Some(&hash), code), Ok(()));
    assert_eq!(
        check_setup("Morgan", "Saturday Circle", true, 0, Some(&hash), "not-the-code"),
        Err(Failure::WrongSetupCode)
    );
    assert_eq!(
        check_setup("Morgan", "Saturday Circle", true, 0, None, code),
        Err(Failure::NoSetupCode)
    );
    assert_eq!(
        check_setup("Morgan", "Saturday Circle", true, 1, Some(&hash), code),
        Err(Failure::AlreadyOwned)
    );
    assert_eq!(
        check_setup("Morgan", "Saturday Circle", false, 0, Some(&hash), code),
        Err(Failure::SetupInvalid)
    );
    assert_eq!(
        check_setup("  ", "Saturday Circle", true, 0, Some(&hash), code),
        Err(Failure::SetupInvalid)
    );
    assert_eq!(
        check_setup("Morgan", &"g".repeat(101), true, 0, Some(&hash), code),
        Err(Failure::SetupInvalid)
    );
}

#[test]
fn the_roster_stops_at_twelve() {
    assert_eq!(check_new_learner("Ada", 11), Ok(()));
    assert_eq!(check_new_learner("Ada", 12), Err(Failure::RosterFull));
    assert_eq!(check_new_learner(" ", 0), Err(Failure::AliasInvalid));
    assert_eq!(check_new_learner(&"a".repeat(61), 0), Err(Failure::AliasInvalid));
    assert_eq!(check_new_learner(&"a".repeat(60), 0), Ok(()));
}

#[test]
fn learner_insert_errors_are_classified() {
    assert_eq!(
        learner_insert_failure("UNIQUE constraint failed: learners.alias"),
        Failure::AliasTaken
    );
    assert_eq!(learner_insert_failure("learner_limit"), Failure::RosterFull);
    assert_eq!(learner_insert_failure("disk I/O error"), Failure::Storage);
}

#[test]
fn sessions_need_a_title_a_real_date_and_a_short_focus() {
    assert_eq!(check_new_session("Primes", "2026-03-14", "Boundary"), Ok(()));
    assert_eq!(
        check_new_session("Impossible date", "2026-99-99", "Boundary"),
        Err(Failure::SessionInvalid)
    );
    assert_eq!(check_new_session("", "2026-03-14", ""), Err(Failure::SessionInvalid));
    assert_eq!(check_new_session("T", "2026-03-14", &"f".repeat(300)), Ok(()));
    assert_eq!(
        check_new_session("T", "2026-03-14", &"f".repeat(301)),
        Err(Failure::SessionInvalid)
    );
}

#[test]
fn problems_need_title_and_prompt() {
    assert_eq!(check_new_problem("Handshakes", "How many?"), Ok(()));
    assert_eq!(check_new_problem("Handshakes", " "), Err(Failure::ProblemInvalid));
    assert_eq!(check_new_problem(&"t".repeat(121), "p"), Err(Failure::ProblemInvalid));
    assert_eq!(check_new_problem("t", &"p".repeat(2000)), Ok(()));
}

#[test]
fn attempts_are_bounded() {
    assert_eq!(check_attempt("exploring", "idea", "", 3), Ok(()));
    assert_eq!(check_attempt("not_started", "", "", 0), Ok(()));
    assert_eq!(check_attempt("shared", &"x".repeat(5000), &"n".repeat(3000), 12), Ok(()));
    assert_eq!(check_attempt("done", "", "", 0), Err(Failure::AttemptInvalid));
    assert_eq!(check_attempt("shared", &"x".repeat(5001), "", 0), Err(Failure::AttemptInvalid));
    assert_eq!(check_attempt("shared", "", &"n".repeat(3001), 0), Err(Failure::AttemptInvalid));
    assert_eq!(check_attempt("shared", "", "", 13), Err(Failure::AttemptInvalid));
}

#[test]
fn uploads_are_bounded() {
    assert_eq!(check_attachment_slot(3), Ok(()));
    assert_eq!(check_attachment_slot(4), Err(Failure::AttachmentsFull));
    assert_eq!(check_image_size(5 * 1024 * 1024), Ok(()));
    assert_eq!(check_image_size(5 * 1024 * 1024 + 1), Err(Failure::ImageTooLarge));
    assert_eq!(attachment_name(None), "attempt-image");
    assert_eq!(attachment_name(Some("hostname.png")), "hostname.png");
    let long = "é".repeat(130);
    assert_eq!(attachment_name(Some(&long)), "é".repeat(120));
}

#[test]
fn only_decodable_jpeg_png_webp_are_accepted() {
    assert_eq!(image_mime_or_refuse(b"not a PNG image"), Err(Failure::ImageInvalid));
    assert_eq!(
        image_mime_or_refuse(b"\x89PNG\r\n\x1a\nbroken"),
        Err(Failure::ImageInvalid)
    );
    assert_eq!(image_mime_or_refuse(&[0xff, 0xd8, 0xff, 0x00]), Err(Failure::ImageInvalid));
    assert_eq!(image_mime_or_refuse(b"RIFF\0\0\0\0WEBPjunk"), Err(Failure::ImageInvalid));
    assert_eq!(image_mime_or_refuse(b"GIF89a......"), Err(Failure::ImageInvalid));
    assert_eq!(mime_for(ImageKind::Png, true), Some("image/png"));
    assert_eq!(mime_for(ImageKind::Jpeg, true), Some("image/jpeg"));
    assert_eq!(mime_for(ImageKind::WebP, true), Some("image/webp"));
    assert_eq!(mime_for(ImageKind::WebP, false), None);
    assert_eq!(mime_for(ImageKind::Other, true), None);
}

#[test]
fn strategies_are_stored_as_json() {
    assert_eq!(strategies_json(&vec![]), "[]");
    assert_eq!(
        strategies_json(&vec!["draw a picture".to_string(), "work backwards".to_string()]),
        "[\"draw a picture\",\"work backwards\"]"
    );
    assert_eq!(
        strategies_json(&vec!["say \"why\"\\\n\t\u{1}é/".to_string()]),
        "[\"say \\\"why\\\"\\\\\\n\\t\\u0001é/\"]"
    );
}

#[test]
fn attachments_are_exported_as_padded_base64() {
    assert_eq!(attachment_data_base64(b""), "");
    assert_eq!(attachment_data_base64(b"f"), "Zg==");
    assert_eq!(attachment_data_base64(b"fo"), "Zm8=");
    assert_eq!(attachment_data_base64(b"foo"), "Zm9v");
    assert_eq!(attachment_data_base64(b"foobar"), "Zm9vYmFy");
    assert_eq!(attachment_data_base64(&[0xfb, 0xff, 0xbf]), "+/+/");
}
