//! Attachment bytes in the board's JSON export, as standard padded Base64.
use base64::Engine;
use vstd::prelude::*;

verus! {

/// The standard Base64 alphabet: `A`..`Z`, `a`..`z`, `0`..`9`, `+`, `/`.
pub open spec fn base64_digit(n: int) -> char {
    if n < 26 {
        (65 + n) as char
    } else if n < 52 {
        (71 + n) as char
    } else if n < 62 {
        (n - 4) as char
    } else if n == 62 {
        '+'
    } else {
        '/'
    }
}

/// Standard Base64 with `=` padding: each group of three bytes becomes four
/// digits; a final group of one or two bytes is padded to four characters.
pub open spec fn base64_standard(d: Seq<u8>) -> Seq<char>
    decreases d.len(),
{
    if d.len() == 0 {
        Seq::empty()
    } else if d.len() == 1 {
        seq![base64_digit(d[0] as int / 4), base64_digit((d[0] as int % 4) * 16), '=', '=']
    } else if d.len() == 2 {
        seq![
            base64_digit(d[0] as int / 4),
            base64_digit((d[0] as int % 4) * 16 + d[1] as int / 16),
            base64_digit((d[1] as int % 16) * 4),
            '=',
        ]
    } else {
        seq![
            base64_digit(d[0] as int / 4),
            base64_digit((d[0] as int % 4) * 16 + d[1] as int / 16),
            base64_digit((d[1] as int % 16) * 4 + d[2] as int / 64),
            base64_digit(d[2] as int % 64),
        ] + base64_standard(d.subrange(3, d.len() as int))
    }
}

/// Encodes bytes with the `base64` crate's `STANDARD` engine. Trusted: the
/// text is the padded standard Base64 of exactly these bytes.
#[verifier::external_body]
fn base64_encode(data: &[u8]) -> (text: String)
    requires
        data@.len() <= usize::MAX / 2,
    ensures
        text@ == base64_standard(data@),
{
    base64::engine::general_purpose::STANDARD.encode(data)
}

/// Encoding grows by four characters per started group of three bytes.
pub proof fn lemma_base64_length(d: Seq<u8>)
    ensures
        base64_standard(d).len() == 4 * ((d.len() + 2) / 3),
    decreases d.len(),
{
    if d.len() > 2 {
        lemma_base64_length(d.subrange(3, d.len() as int));
    }
}

/// The `data_base64` field of an exported attachment.
pub fn attachment_data_base64(data: &[u8]) -> (text: String)
    requires
        data@.len() <= usize::MAX / 2,
    ensures
        text@ == base64_standard(data@),
        text@.len() == 4 * ((data@.len() + 2) / 3),
{
    proof {
        lemma_base64_length(data@);
    }
    base64_encode(data)
}

} // verus!
