//! Who may use the board: bearer tokens, token headers, the claims of a
//! Microsoft Entra sign-in, signing-key refresh, and ownership of the board.
use vstd::prelude::*;
use vstd::string::StringSliceAdditionalSpecFns;
use crate::failure::Failure;
use crate::text::{is_blank, text_eq, trim};

verus! {

/// Bytes that `HeaderValue::to_str` accepts: visible ASCII and tab.
pub open spec fn is_visible_ascii(b: u8) -> bool {
    (32 <= b < 127) || b == 9u8
}

/// The bytes of `Bearer ` (with its trailing space).
pub open spec fn bearer_prefix() -> Seq<u8> {
    seq![66u8, 101u8, 97u8, 114u8, 101u8, 114u8, 32u8]
}

/// An `Authorization` header value that names a bearer token: visible ASCII,
/// starting with `Bearer `, with something after it.
pub open spec fn names_bearer_token(b: Seq<u8>) -> bool {
    &&& forall|i: int| 0 <= i < b.len() ==> is_visible_ascii(#[trigger] b[i])
    &&& b.len() > 7
    &&& b.subrange(0, 7) == bearer_prefix()
}

/// The bearer token that a header value names, as its bytes.
pub open spec fn bearer_of(header: Option<Seq<u8>>) -> Option<Seq<u8>> {
    match header {
        Some(b) => if names_bearer_token(b) {
            Some(b.subrange(7, b.len() as int))
        } else {
            None
        },
        None => None,
    }
}

/// The UTF-8 bytes of an optional string.
pub open spec fn bytes_view(s: Option<&str>) -> Option<Seq<u8>> {
    match s {
        Some(t) => Some(t.spec_bytes()),
        None => None,
    }
}

/// Reads bytes as text with `std::str::from_utf8`. Trusted: the text is the
/// bytes themselves when they are valid UTF-8, and there is none otherwise,
/// as std documents.
#[verifier::external_body]
fn utf8_text(bytes: &[u8]) -> (text: Option<&str>)
    ensures
        bytes_view(text) == (if vstd::utf8::valid_utf8(bytes@) {
            Some(bytes@)
        } else {
            None
        }),
{
    match std::str::from_utf8(bytes) {
        Ok(t) => Some(t),
        Err(_) => None,
    }
}

/// The bearer token of an `Authorization` header value: the header must be
/// visible ASCII and start with `Bearer `, and the token after it must not be
/// empty.
pub fn bearer(header: Option<&[u8]>) -> (token: Option<&str>)
    ensures
        bytes_view(token) == bearer_of(
            match header {
                Some(b) => Some(b@),
                None => None,
            },
        ),
{
    let b = match header {
        Some(b) => b,
        None => {
            return None;
        },
    };
    let n = b.len();
    let mut i: usize = 0;
    while i < n
        invariant
            n == b@.len(),
            header == Some(b),
            i <= n,
            forall|k: int| 0 <= k < i ==> is_visible_ascii(#[trigger] b@[k]),
        decreases n - i,
    {
        let c = b[i];
        if !((32u8 <= c && c < 127u8) || c == 9u8) {
            assert(!is_visible_ascii(b@[i as int]));
            return None;
        }
        i = i + 1;
    }
    if n <= 7 {
        return None;
    }
    if !(b[0] == 66u8 && b[1] == 101u8 && b[2] == 97u8 && b[3] == 114u8 && b[4] == 101u8 && b[5]
        == 114u8 && b[6] == 32u8) {
        assert(b@.subrange(0, 7)[0] == b@[0] && b@.subrange(0, 7)[1] == b@[1] && b@.subrange(
            0,
            7,
        )[2] == b@[2] && b@.subrange(0, 7)[3] == b@[3] && b@.subrange(0, 7)[4] == b@[4]
            && b@.subrange(0, 7)[5] == b@[5] && b@.subrange(0, 7)[6] == b@[6]);
        return None;
    }
    assert(b@.subrange(0, 7) =~= bearer_prefix());
    let (_, rest) = b.split_at(7);
    proof {
        assert forall|k: int| 0 <= k < rest@.len() implies vstd::utf8::is_leading_byte_width_1(
            #[trigger] rest@[k],
        ) by {
            assert(rest@[k] == b@[k + 7]);
            assert(is_visible_ascii(b@[k + 7]));
        }
        vstd::utf8::partial_valid_utf8_extend_ascii_block(rest@, 0, rest@.len() as int);
        assert(rest@.subrange(0, 0) =~= Seq::<u8>::empty());
        assert(rest@.subrange(0, rest@.len() as int) =~= rest@);
    }
    utf8_text(rest)
}

/// A header written as `Bearer ` followed by a non-empty token of visible
/// ASCII (bytes 32 to 126) and tabs gives exactly that token back; any other
/// byte in the header, a missing or different prefix, or an empty token gives
/// none.
pub proof fn law_bearer_round_trip(token: Seq<u8>)
    requires
        token.len() > 0,
        forall|i: int| 0 <= i < token.len() ==> (32 <= #[trigger] token[i] <= 126 || token[i] == 9),
    ensures
        bearer_of(Some(seq![66u8, 101u8, 97u8, 114u8, 101u8, 114u8, 32u8] + token)) == Some(token),
{
    let h = bearer_prefix() + token;
    assert(bearer_prefix() =~= seq![66u8, 101u8, 97u8, 114u8, 101u8, 114u8, 32u8]);
    assert forall|i: int| 0 <= i < h.len() implies is_visible_ascii(#[trigger] h[i]) by {
        if i >= 7 {
            assert(h[i] == token[i - 7]);
        }
    }
    assert(h.subrange(0, 7) =~= bearer_prefix());
    assert(h.subrange(7, h.len() as int) =~= token);
}

/// A header holding a byte outside visible ASCII and tab names no token, and
/// a token that comes back is the header after its first seven bytes
/// `Bearer `, never empty.
pub proof fn law_bearer_refusals(header: Seq<u8>)
    ensures
        (exists|i: int| 0 <= i < header.len() && !(32 <= #[trigger] header[i] <= 126 || header[i]
            == 9)) ==> bearer_of(Some(header)) is None,
        bearer_of(Some(header)) matches Some(t) ==> t.len() > 0 && header == seq![
            66u8,
            101u8,
            97u8,
            114u8,
            101u8,
            114u8,
            32u8,
        ] + t,
{
    if bearer_of(Some(header)) is Some {
        let t = header.subrange(7, header.len() as int);
        assert(header =~= header.subrange(0, 7) + t);
    }
}

/// What the board reads of a token's header: whether it is signed with
/// RS256, and its key id.
pub struct TokenHeader {
    pub rs256: bool,
    pub kid: Option<String>,
}

/// The view of a decoded header: the RS256 flag and the key id's text.
pub open spec fn header_view(h: Option<TokenHeader>) -> Option<(bool, Option<Seq<char>>)> {
    match h {
        Some(t) => Some(
            (
                t.rs256,
                match t.kid {
                    Some(k) => Some(k@),
                    None => None,
                },
            ),
        ),
        None => None,
    }
}

/// What `jsonwebtoken::decode_header` reads from a token: `None` when the
/// token has no decodable header, otherwise the RS256 flag and the key id.
pub uninterp spec fn decoded_token_header(token: Seq<char>) -> Option<(bool, Option<Seq<char>>)>;

/// Decodes the header segment of a JWT with `jsonwebtoken::decode_header`.
/// Trusted: the result is a function of the token's text alone; its shape is
/// named, not stated.
#[verifier::external_body]
fn decode_token_header(token: &str) -> (header: Option<TokenHeader>)
    ensures
        header_view(header) == decoded_token_header(token@),
{
    match jsonwebtoken::decode_header(token) {
        Ok(h) => Some(
            TokenHeader { rs256: h.alg == jsonwebtoken::Algorithm::RS256, kid: h.kid },
        ),
        Err(_) => None,
    }
}

/// The key id that a decoded header names, when the token is signed with
/// RS256 and names one.
pub open spec fn key_id_of(h: Option<(bool, Option<Seq<char>>)>) -> Option<Seq<char>> {
    match h {
        Some((true, Some(kid))) => Some(kid),
        _ => None,
    }
}

/// The view of a key-id result.
pub open spec fn text_result_view(r: Result<String, Failure>) -> Result<Seq<char>, Failure> {
    match r {
        Ok(k) => Ok(k@),
        Err(f) => Err(f),
    }
}

/// Accepts a decoded header that is signed with RS256 and names a key id;
/// refuses as unauthorized otherwise.
pub fn key_id_from(header: Option<TokenHeader>) -> (r: Result<String, Failure>)
    ensures
        text_result_view(r) == match key_id_of(header_view(header)) {
            Some(k) => Ok(k),
            None => Err(Failure::Unauthorized),
        },
{
    match header {
        Some(h) => {
            if !h.rs256 {
                return Err(Failure::Unauthorized);
            }
            match h.kid {
                Some(k) => Ok(k),
                None => Err(Failure::Unauthorized),
            }
        },
        None => Err(Failure::Unauthorized),
    }
}

/// The key id of a token that is signed with RS256, or the unauthorized
/// refusal.
pub fn token_key_id(token: &str) -> (r: Result<String, Failure>)
    ensures
        text_result_view(r) == match key_id_of(decoded_token_header(token@)) {
            Some(k) => Ok(k),
            None => Err(Failure::Unauthorized),
        },
{
    key_id_from(decode_token_header(token))
}

/// Signing keys are older than an hour when the difference reaches 3600
/// seconds.
pub open spec fn keys_stale(now: int, refreshed_at: int) -> bool {
    now - refreshed_at >= 3600
}

/// The signing keys must be fetched again when they are an hour old or do
/// not hold the key that the token names.
pub fn refresh_needed(now: i64, refreshed_at: i64, key_known: bool) -> (b: bool)
    requires
        i64::MIN <= now - refreshed_at <= i64::MAX,
    ensures
        b == (keys_stale(now as int, refreshed_at as int) || !key_known),
{
    now - refreshed_at >= 3600 || !key_known
}

/// The claims of an Entra ID token that the board checks.
pub struct Claims {
    pub aud: String,
    pub exp: usize,
    pub iss: String,
    pub nbf: Option<usize>,
    pub oid: String,
    pub tid: String,
}

/// A verified token is accepted when it was issued by this tenant's issuer
/// for this client, names an object id, and carries an expiry and a
/// not-before time.
pub open spec fn claims_ok(c: Claims, tenant_id: Seq<char>, client_id: Seq<char>, issuer: Seq<char>) -> bool {
    &&& c.tid@ == tenant_id
    &&& c.aud@ == client_id
    &&& c.iss@ == issuer
    &&& trim(c.oid@).len() > 0
    &&& c.exp != 0
    &&& c.nbf is Some
}

/// Checks the claims of a token whose signature already verified; the
/// object id is the signed-in identity.
pub fn claims_accepted(claims: &Claims, tenant_id: &str, client_id: &str, issuer: &str) -> (ok: bool)
    ensures
        ok == claims_ok(*claims, tenant_id@, client_id@, issuer@),
{
    text_eq(claims.tid.as_str(), tenant_id) && text_eq(claims.aud.as_str(), client_id) && text_eq(
        claims.iss.as_str(),
        issuer,
    ) && !is_blank(claims.oid.as_str()) && claims.exp != 0 && claims.nbf.is_some()
}

/// The identity that a checked token yields: its object id when the claims
/// are accepted, the unauthorized refusal otherwise.
pub fn identity_from_claims(claims: Claims, tenant_id: &str, client_id: &str, issuer: &str) -> (r:
    Result<String, Failure>)
    ensures
        text_result_view(r) == if claims_ok(claims, tenant_id@, client_id@, issuer@) {
            Ok(claims.oid@)
        } else {
            Err(Failure::Unauthorized)
        },
{
    if claims_accepted(&claims, tenant_id, client_id, issuer) {
        Ok(claims.oid)
    } else {
        Err(Failure::Unauthorized)
    }
}

/// The board's private routes serve only its owner: a signed-in identity is
/// let through exactly when an owner is recorded and it is that owner.
pub fn owner_check(oid: &str, owner_oid: Option<&str>) -> (r: Result<(), Failure>)
    ensures
        r is Ok <==> (owner_oid matches Some(o) && o@ == oid@),
        r is Err ==> r == Err::<(), Failure>(Failure::NotOwner),
{
    match owner_oid {
        Some(o) => if text_eq(o, oid) {
            Ok(())
        } else {
            Err(Failure::NotOwner)
        },
        None => Err(Failure::NotOwner),
    }
}

/// What the status route reports.
pub struct BoardStatus {
    pub configured: bool,
    pub signed_in: bool,
    pub authenticated: bool,
}

/// The status of the board: configured when an owner is recorded, signed in
/// when a sign-in checked out, authenticated when that sign-in is the owner.
pub fn board_status(owner_count: i64, oid: Option<&str>, owner_oid: Option<&str>) -> (s: BoardStatus)
    ensures
        s.configured == (owner_count > 0),
        s.signed_in == (oid is Some),
        s.authenticated == (oid matches Some(i) && owner_oid matches Some(o) && o@ == i@),
        s.authenticated ==> s.signed_in,
{
    let authenticated = match (oid, owner_oid) {
        (Some(i), Some(o)) => text_eq(o, i),
        _ => false,
    };
    BoardStatus { configured: owner_count > 0, signed_in: oid.is_some(), authenticated }
}

} // verus!
