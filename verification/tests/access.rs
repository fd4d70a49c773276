use math_circle_board::auth::{
    bearer, board_status, claims_accepted, identity_from_claims, key_id_from, owner_check,
    refresh_needed, token_key_id, Claims, TokenHeader,
};
use math_circle_board::failure::{db_err, unauthorized, Failure};

fn claims() -> Claims {
    Claims {
        aud: "client".to_string(),
        exp: 10,
        iss: "https://issuer".to_string(),
        nbf: Some(1),
        oid: "00000000-0000-4000-8000-000000000001".to_string(),
        tid: "tenant".to_string(),
    }
}

#[test]
fn bearer_tokens_are_read_from_the_header() {
    assert_eq!(bearer(Some(b"Bearer abc.def")), Some("abc.def"));
    assert_eq!(bearer(Some(b"Bearer ")), None);
    assert_eq!(bearer(Some(b"bearer abc")), None);
    assert_eq!(bearer(Some(b"Basic abc")), None);
    assert_eq!(bearer(Some(b"Bearer a\x01b")), None);
    assert_eq!(bearer(Some(b"Bearer a\tb")), Some("a\tb"));
    assert_eq!(bearer(Some("Bearer é".as_bytes())), None);
    assert_eq!(bearer(None), None);
}

#[test]
fn token_headers_must_name_an_rs256_key() {
    assert_eq!(
        token_key_id("eyJhbGciOiAiUlMyNTYiLCAia2lkIjogImtleS0xIiwgInR5cCI6ICJKV1QifQ.eyJzdWIiOiIxIn0.c2ln"),
        Ok("key-1".to_string())
    );
    assert_eq!(
        token_key_id("eyJhbGciOiAiSFMyNTYiLCAidHlwIjogIkpXVCJ9.eyJzdWIiOiIxIn0.c2ln"),
        Err(Failure::Unauthorized)
    );
    assert_eq!(
        token_key_id("eyJhbGciOiAiUlMyNTYiLCAidHlwIjogIkpXVCJ9.eyJzdWIiOiIxIn0.c2ln"),
        Err(Failure::Unauthorized)
    );
    assert_eq!(token_key_id("not a token"), Err(Failure::Unauthorized));
    assert_eq!(
        key_id_from(Some(TokenHeader { rs256: true, kid: Some("k".to_string()) })),
        Ok("k".to_string())
    );
    assert_eq!(
        key_id_from(Some(TokenHeader { rs256: false, kid: Some("k".to_string()) })),
        Err(Failure::Unauthorized)
    );
    assert_eq!(key_id_from(None), Err(Failure::Unauthorized));
}

#[test]
fn keys_are_refreshed_hourly_or_when_unknown() {
    assert!(!refresh_needed(10_000, 10_000 - 3599, true));
    assert!(refresh_needed(10_000, 10_000 - 3600, true));
    assert!(refresh_needed(10_000, 10_000, false));
    assert!(refresh_needed(1_700_000_000, 0, true));
}

#[test]
fn claims_must_match_tenant_client_and_issuer() {
    assert!(claims_accepted(&claims(), "tenant", "client", "https://issuer"));
    assert!(!claims_accepted(&claims(), "other", "client", "https://issuer"));
    assert!(!claims_accepted(&claims(), "tenant", "other", "https://issuer"));
    assert!(!claims_accepted(&claims(), "tenant", "client", "https://other"));
    let mut c = claims();
    c.oid = "  ".to_string();
    assert!(!claims_accepted(&c, "tenant", "client", "https://issuer"));
    let mut c = claims();
    c.exp = 0;
    assert!(!claims_accepted(&c, "tenant", "client", "https://issuer"));
    let mut c = claims();
    c.nbf = None;
    assert!(!claims_accepted(&c, "tenant", "client", "https://issuer"));
    assert_eq!(
        identity_from_claims(claims(), "tenant", "client", "https://issuer"),
        Ok("00000000-0000-4000-8000-000000000001".to_string())
    );
    assert_eq!(
        identity_from_claims(claims(), "tenant", "x", "https://issuer"),
        Err(Failure::Unauthorized)
    );
}

#[test]
fn only_the_owner_passes() {
    assert_eq!(owner_check("a", Some("a")), Ok(()));
    assert_eq!(owner_check("a", Some("b")), Err(Failure::NotOwner));
    assert_eq!(owner_check("a", None), Err(Failure::NotOwner));
    assert_eq!(owner_check("", Some("")), Ok(()));
}

#[test]
fn status_reports_configuration_and_sign_in() {
    let s = board_status(0, None, None);
    assert!(!s.configured && !s.signed_in && !s.authenticated);
    let s = board_status(1, Some("a"), Some("a"));
    assert!(s.configured && s.signed_in && s.authenticated);
    let s = board_status(1, Some("a"), Some("b"));
    assert!(s.configured && s.signed_in && !s.authenticated);
    let s = board_status(0, Some("a"), None);
    assert!(!s.configured && s.signed_in && !s.authenticated);
}

#[test]
fn failures_carry_status_and_message() {
    assert_eq!(unauthorized().status(), 401);
    assert!(unauthorized().challenges_bearer());
    assert_eq!(
        unauthorized().message(),
        "Sign in with the circle owner’s Microsoft account to continue."
    );
    assert_eq!(db_err().status(), 500);
    assert!(!db_err().challenges_bearer());
    assert_eq!(db_err().message(), "The board could not save that change. Try again.");
    let table = [
        (Failure::SignInUnavailable, 503),
        (Failure::NotOwner, 403),
        (Failure::SetupInvalid, 400),
        (Failure::AlreadyOwned, 409),
        (Failure::NoSetupCode, 403),
        (Failure::WrongSetupCode, 403),
        (Failure::AliasInvalid, 400),
        (Failure::RosterFull, 409),
        (Failure::AliasTaken, 409),
        (Failure::NewCodeNotCreated, 500),
        (Failure::NewCodeNotSecured, 500),
        (Failure::SessionInvalid, 400),
        (Failure::ProblemInvalid, 400),
        (Failure::AttemptInvalid, 400),
        (Failure::AttachmentsFull, 400),
        (Failure::ImageUnreadable, 400),
        (Failure::ImageMissing, 400),
        (Failure::ImageTooLarge, 413),
        (Failure::ImageInvalid, 400),
        (Failure::ImageNotStored, 500),
        (Failure::ImageNotFound, 404),
        (Failure::ExportIncomplete, 500),
        (Failure::TooManyRequests, 429),
    ];
    for (f, code) in table {
        assert_eq!(f.status(), code);
        assert!(!f.message().is_empty());
    }
    assert_eq!(Failure::RosterFull.message(), "A private circle can have up to 12 learner aliases.");
    assert_eq!(Failure::ImageTooLarge.message(), "Keep each image under 5 MB.");
    assert_eq!(Failure::TooManyRequests.message(), "Too many requests. Wait before trying again.");
}
