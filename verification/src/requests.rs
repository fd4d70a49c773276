//! The checks that the board's write routes make on their input before they
//! touch storage: setup, learners, sessions, problems, attempts and uploads.
use vstd::prelude::*;
use crate::dates::{iso_date_ok, valid_iso_date};
use crate::failure::Failure;
use crate::hashing::{password_hash, password_hash_of};
use crate::images::{detected_image_mime, detected_mime_of};
use crate::text::{char_count, contains_text, has_infix, label_ok, text_eq, trim, valid_label};
use vstd::string::StringSliceAdditionalSpecFns;

verus! {

/// The most learners a circle may have.
pub const MAX_LEARNERS: i64 = 12;

/// The most images one attempt may hold.
pub const MAX_ATTACHMENTS: i64 = 4;

/// The largest image accepted, in bytes (5 MiB).
pub const MAX_IMAGE_BYTES: usize = 5242880;

/// The most strategy tags one attempt may carry.
pub const MAX_STRATEGIES: usize = 12;

/// The salt under which owner setup codes are hashed.
pub open spec fn owner_invite_salt_text() -> Seq<char> {
    "mcb-owner-invite"@
}

/// The salt under which owner setup codes are hashed.
pub fn owner_invite_salt() -> (salt: &'static str)
    ensures
        salt@ == owner_invite_salt_text(),
{
    "mcb-owner-invite"
}

/// The stored hash of an owner setup code.
pub fn owner_invite_hash(code: &str) -> (hash: String)
    ensures
        hash@ == password_hash_of(code@, owner_invite_salt_text()),
{
    password_hash(code, owner_invite_salt())
}

/// The view of an optional string.
pub open spec fn opt_view(s: Option<&str>) -> Option<Seq<char>> {
    match s {
        Some(t) => Some(t@),
        None => None,
    }
}

/// What setting up the board answers, once the caller is signed in.
pub open spec fn setup_outcome(
    facilitator: Seq<char>,
    group_name: Seq<char>,
    adult_confirmed: bool,
    owner_count: int,
    invite_hash: Option<Seq<char>>,
    owner_code: Seq<char>,
) -> Result<(), Failure> {
    if !(label_ok(facilitator, 80) && label_ok(group_name, 100) && adult_confirmed) {
        Err(Failure::SetupInvalid)
    } else if owner_count > 0 {
        Err(Failure::AlreadyOwned)
    } else {
        match invite_hash {
            None => Err(Failure::NoSetupCode),
            Some(h) => if password_hash_of(owner_code, owner_invite_salt_text()) == h {
                Ok(())
            } else {
                Err(Failure::WrongSetupCode)
            },
        }
    }
}

/// Checks a setup request: a facilitator name of at most 80 and a group name
/// of at most 100 characters, the adult confirmation, no owner yet, and a
/// setup code whose hash matches the one this deployment issued.
pub fn check_setup(
    facilitator: &str,
    group_name: &str,
    adult_confirmed: bool,
    owner_count: i64,
    invite_hash: Option<&str>,
    owner_code: &str,
) -> (r: Result<(), Failure>)
    ensures
        r == setup_outcome(
            facilitator@,
            group_name@,
            adult_confirmed,
            owner_count as int,
            opt_view(invite_hash),
            owner_code@,
        ),
        r is Ok ==> 1 <= trim(facilitator@).len() <= 80 && 1 <= trim(group_name@).len() <= 100
            && adult_confirmed,
{
    if !valid_label(facilitator, 80) || !valid_label(group_name, 100) || !adult_confirmed {
        return Err(Failure::SetupInvalid);
    }
    if owner_count > 0 {
        return Err(Failure::AlreadyOwned);
    }
    match invite_hash {
        None => Err(Failure::NoSetupCode),
        Some(h) => {
            let given = owner_invite_hash(owner_code);
            if text_eq(given.as_str(), h) {
                Ok(())
            } else {
                Err(Failure::WrongSetupCode)
            }
        },
    }
}

/// What adding a learner answers, given the roster's current size.
pub open spec fn new_learner_outcome(alias: Seq<char>, learner_count: int) -> Result<(), Failure> {
    if !label_ok(alias, 60) {
        Err(Failure::AliasInvalid)
    } else if learner_count >= MAX_LEARNERS {
        Err(Failure::RosterFull)
    } else {
        Ok(())
    }
}

/// Checks a new learner: an alias of at most 60 characters, and room on a
/// roster that holds fewer than 12 learners.
pub fn check_new_learner(alias: &str, learner_count: i64) -> (r: Result<(), Failure>)
    ensures
        r == new_learner_outcome(alias@, learner_count as int),
        r is Ok <==> (1 <= trim(alias@).len() <= 60 && learner_count < 12),
{
    if !valid_label(alias, 60) {
        return Err(Failure::AliasInvalid);
    }
    if learner_count >= MAX_LEARNERS {
        return Err(Failure::RosterFull);
    }
    Ok(())
}

/// The refusal for a learner insert that the database rejected: a unique
/// constraint means the alias is taken, the roster trigger means the roster
/// is full, anything else is a storage failure.
pub fn learner_insert_failure(message: &str) -> (f: Failure)
    ensures
        f == (if has_infix(message@, "UNIQUE"@) {
            Failure::AliasTaken
        } else if has_infix(message@, "learner_limit"@) {
            Failure::RosterFull
        } else {
            Failure::Storage
        }),
{
    if contains_text(message, "UNIQUE") {
        Failure::AliasTaken
    } else if contains_text(message, "learner_limit") {
        Failure::RosterFull
    } else {
        Failure::Storage
    }
}

/// Checks a new session: a title of at most 100 characters, a real date
/// written `YYYY-MM-DD`, and a focus of at most 300 characters.
pub fn check_new_session(title: &str, session_date: &str, focus: &str) -> (r: Result<(), Failure>)
    ensures
        r is Ok <==> (label_ok(title@, 100) && iso_date_ok(session_date.spec_bytes())
            && focus@.len() <= 300),
        r is Err ==> r == Err::<(), Failure>(Failure::SessionInvalid),
{
    if !valid_label(title, 100) || !valid_iso_date(session_date) || char_count(focus) > 300 {
        return Err(Failure::SessionInvalid);
    }
    Ok(())
}

/// Checks a new problem: a title of at most 120 and a prompt of at most 2000
/// characters, neither blank.
pub fn check_new_problem(title: &str, prompt: &str) -> (r: Result<(), Failure>)
    ensures
        r is Ok <==> (label_ok(title@, 120) && label_ok(prompt@, 2000)),
        r is Err ==> r == Err::<(), Failure>(Failure::ProblemInvalid),
{
    if !valid_label(title, 120) || !valid_label(prompt, 2000) {
        return Err(Failure::ProblemInvalid);
    }
    Ok(())
}

/// The statuses that an attempt may have.
pub open spec fn attempt_status_ok(status: Seq<char>) -> bool {
    status == "not_started"@ || status == "exploring"@ || status == "shared"@
}

/// Checks an attempt: a known status, at most 5000 characters of thinking,
/// at most 3000 of private note, and at most 12 strategy tags.
pub fn check_attempt(status: &str, thinking: &str, private_note: &str, strategy_count: usize) -> (r:
    Result<(), Failure>)
    ensures
        r is Ok <==> (attempt_status_ok(status@) && thinking@.len() <= 5000 && private_note@.len()
            <= 3000 && strategy_count <= MAX_STRATEGIES),
        r is Err ==> r == Err::<(), Failure>(Failure::AttemptInvalid),
{
    let known = text_eq(status, "not_started") || text_eq(status, "exploring") || text_eq(
        status,
        "shared",
    );
    if !known || char_count(thinking) > 5000 || char_count(private_note) > 3000 || strategy_count
        > MAX_STRATEGIES {
        return Err(Failure::AttemptInvalid);
    }
    Ok(())
}

/// Checks that an attempt has room for one more image.
pub fn check_attachment_slot(attachment_count: i64) -> (r: Result<(), Failure>)
    ensures
        r == (if attachment_count >= MAX_ATTACHMENTS {
            Err(Failure::AttachmentsFull)
        } else {
            Ok(())
        }),
{
    if attachment_count >= MAX_ATTACHMENTS {
        Err(Failure::AttachmentsFull)
    } else {
        Ok(())
    }
}

/// Checks the size of an uploaded image.
pub fn check_image_size(len: usize) -> (r: Result<(), Failure>)
    ensures
        r == (if len > MAX_IMAGE_BYTES {
            Err(Failure::ImageTooLarge)
        } else {
            Ok(())
        }),
{
    if len > MAX_IMAGE_BYTES {
        Err(Failure::ImageTooLarge)
    } else {
        Ok(())
    }
}

/// The name recorded for an upload: the file name sent, or `attempt-image`,
/// cut to its first 120 characters.
pub open spec fn attachment_name_of(file_name: Option<Seq<char>>) -> Seq<char> {
    let name = match file_name {
        Some(n) => n,
        None => "attempt-image"@,
    };
    if name.len() <= 120 {
        name
    } else {
        name.take(120)
    }
}

/// The name recorded for an upload.
pub fn attachment_name<'a>(file_name: Option<&'a str>) -> (name: &'a str)
    ensures
        name@ == attachment_name_of(opt_view(file_name)),
{
    let base: &'a str = match file_name {
        Some(n) => n,
        None => "attempt-image",
    };
    let n = char_count(base);
    if n <= 120 {
        base
    } else {
        let cut = base.substring_char(0, 120);
        assert(cut@ =~= base@.take(120));
        cut
    }
}

/// The view of a media-type result.
pub open spec fn mime_result_view(r: Result<&str, Failure>) -> Result<Seq<char>, Failure> {
    match r {
        Ok(m) => Ok(m@),
        Err(f) => Err(f),
    }
}

/// The media type of an uploaded image, or the refusal for a file that is not
/// a JPEG, PNG or WebP image that decodes.
pub fn image_mime_or_refuse(bytes: &[u8]) -> (r: Result<&'static str, Failure>)
    ensures
        mime_result_view(r) == match detected_mime_of(bytes@) {
            Some(m) => Ok(m),
            None => Err(Failure::ImageInvalid),
        },
{
    match detected_image_mime(bytes) {
        Some(m) => Ok(m),
        None => Err(Failure::ImageInvalid),
    }
}

/// Adding a learner is let through only while the roster holds fewer than
/// twelve: starting from any roster of at most twelve, adding one learner per
/// accepted check never makes it exceed twelve.
pub proof fn law_roster_limit(alias: Seq<char>, learner_count: int)
    requires
        0 <= learner_count <= MAX_LEARNERS,
    ensures
        new_learner_outcome(alias, learner_count) is Ok ==> learner_count + 1 <= MAX_LEARNERS,
        learner_count == MAX_LEARNERS ==> new_learner_outcome(alias, learner_count) is Err,
{
}

/// Setup succeeds only for a deployment with no owner whose issued code
/// hashes to the stored hash.
pub proof fn law_setup_needs_code(
    facilitator: Seq<char>,
    group_name: Seq<char>,
    adult_confirmed: bool,
    owner_count: int,
    invite_hash: Option<Seq<char>>,
    owner_code: Seq<char>,
)
    ensures
        setup_outcome(facilitator, group_name, adult_confirmed, owner_count, invite_hash, owner_code)
            is Ok <==> {
            &&& 1 <= trim(facilitator).len() <= 80
            &&& 1 <= trim(group_name).len() <= 100
            &&& adult_confirmed
            &&& owner_count <= 0
            &&& invite_hash == Some(password_hash_of(owner_code, "mcb-owner-invite"@))
        },
        !(1 <= trim(facilitator).len() <= 80 && 1 <= trim(group_name).len() <= 100
            && adult_confirmed) ==> setup_outcome(
            facilitator,
            group_name,
            adult_confirmed,
            owner_count,
            invite_hash,
            owner_code,
        ) == Err::<(), Failure>(Failure::SetupInvalid),
{
}

/// A learner is let in exactly when the trimmed alias has between 1 and 60
/// characters and the roster holds fewer than twelve learners.
pub proof fn law_learner_admission(alias: Seq<char>, learner_count: int)
    ensures
        new_learner_outcome(alias, learner_count) is Ok <==> (1 <= trim(alias).len() <= 60
            && learner_count < 12),
        !(1 <= trim(alias).len() <= 60) ==> new_learner_outcome(alias, learner_count) == Err::<
            (),
            Failure,
        >(Failure::AliasInvalid),
{
}

} // verus!
