//! The refusals that the board answers with, each with its HTTP status and the
//! message shown to the facilitator.
use vstd::prelude::*;

verus! {

/// Every way in which the board refuses a request.
#[derive(Clone, Copy, Debug, PartialEq, Eq, Structural)]
pub enum Failure {
    /// No valid sign-in for the owner's account.
    Unauthorized,
    /// The identity provider could not be reached to check a sign-in.
    SignInUnavailable,
    /// Signed in, but not as the owner of this board.
    NotOwner,
    /// A database operation failed.
    Storage,
    /// Setup input lacks a name, a group name or the adult confirmation.
    SetupInvalid,
    /// The board already has an owner.
    AlreadyOwned,
    /// No setup code was issued for this deployment.
    NoSetupCode,
    /// The setup code given does not match.
    WrongSetupCode,
    /// A learner alias is blank or longer than 60 characters.
    AliasInvalid,
    /// The roster already holds 12 learners.
    RosterFull,
    /// The alias is already on the roster.
    AliasTaken,
    /// The board was deleted but no new setup code could be written.
    NewCodeNotCreated,
    /// The board was deleted but the new setup code could not be protected.
    NewCodeNotSecured,
    /// A session lacks a title or a real date, or its focus is too long.
    SessionInvalid,
    /// A problem lacks a title or a prompt.
    ProblemInvalid,
    /// An attempt is too long or has an unknown status.
    AttemptInvalid,
    /// The attempt already holds four images.
    AttachmentsFull,
    /// The uploaded image could not be read.
    ImageUnreadable,
    /// No image was sent.
    ImageMissing,
    /// The image is larger than 5 MiB.
    ImageTooLarge,
    /// The file is not a JPEG, PNG or WebP image that decodes.
    ImageInvalid,
    /// The image could not be written to storage.
    ImageNotStored,
    /// No stored image has that id.
    ImageNotFound,
    /// A stored attachment could not be read for the export.
    ExportIncomplete,
    /// The client sent too many requests.
    TooManyRequests,
}

/// The HTTP status of each refusal.
pub open spec fn status_of(f: Failure) -> u16 {
    match f {
        Failure::Unauthorized => 401,
        Failure::SignInUnavailable => 503,
        Failure::NotOwner => 403,
        Failure::Storage => 500,
        Failure::SetupInvalid => 400,
        Failure::AlreadyOwned => 409,
        Failure::NoSetupCode => 403,
        Failure::WrongSetupCode => 403,
        Failure::AliasInvalid => 400,
        Failure::RosterFull => 409,
        Failure::AliasTaken => 409,
        Failure::NewCodeNotCreated => 500,
        Failure::NewCodeNotSecured => 500,
        Failure::SessionInvalid => 400,
        Failure::ProblemInvalid => 400,
        Failure::AttemptInvalid => 400,
        Failure::AttachmentsFull => 400,
        Failure::ImageUnreadable => 400,
        Failure::ImageMissing => 400,
        Failure::ImageTooLarge => 413,
        Failure::ImageInvalid => 400,
        Failure::ImageNotStored => 500,
        Failure::ImageNotFound => 404,
        Failure::ExportIncomplete => 500,
        Failure::TooManyRequests => 429,
    }
}

/// The message of each refusal.
pub open spec fn message_of(f: Failure) -> Seq<char> {
    match f {
        Failure::Unauthorized => "Sign in with the circle owner’s Microsoft account to continue."@,
        Failure::SignInUnavailable => "Sign-in verification is temporarily unavailable. Try again."@,
        Failure::NotOwner => "This Microsoft account does not own this private circle."@,
        Failure::Storage => "The board could not save that change. Try again."@,
        Failure::SetupInvalid => "Use a facilitator name, group name, and the adult responsibility confirmation."@,
        Failure::AlreadyOwned => "This board is already owned."@,
        Failure::NoSetupCode => "This deployment needs an installer-issued adult setup code before it can be claimed."@,
        Failure::WrongSetupCode => "That adult setup code did not match this deployment. Ask the deployment operator for the code."@,
        Failure::AliasInvalid => "Enter a learner alias of 60 characters or fewer."@,
        Failure::RosterFull => "A private circle can have up to 12 learner aliases."@,
        Failure::AliasTaken => "That learner alias is already in the circle."@,
        Failure::NewCodeNotCreated => "The board was deleted, but a new owner code could not be created. Restart the service before setup."@,
        Failure::NewCodeNotSecured => "The board was deleted, but the new owner code could not be secured. Restart the service before setup."@,
        Failure::SessionInvalid => "Enter a title, a real calendar date, and a focus under 300 characters."@,
        Failure::ProblemInvalid => "Add a problem title and prompt."@,
        Failure::AttemptInvalid => "The attempt is too long or has an unknown status."@,
        Failure::AttachmentsFull => "Each attempt can hold up to four images."@,
        Failure::ImageUnreadable => "The image could not be read."@,
        Failure::ImageMissing => "Choose an image to upload."@,
        Failure::ImageTooLarge => "Keep each image under 5 MB."@,
        Failure::ImageInvalid => "Use a valid JPEG, PNG, or WebP image file."@,
        Failure::ImageNotStored => "The image could not be stored."@,
        Failure::ImageNotFound => "Image not found."@,
        Failure::ExportIncomplete => "An attachment could not be included in the export."@,
        Failure::TooManyRequests => "Too many requests. Wait before trying again."@,
    }
}

impl Failure {
    /// The HTTP status code of this refusal.
    pub fn status(&self) -> (code: u16)
        ensures
            code == status_of(*self),
    {
        match self {
            Failure::Unauthorized => 401,
            Failure::SignInUnavailable => 503,
            Failure::NotOwner => 403,
            Failure::Storage => 500,
            Failure::SetupInvalid => 400,
            Failure::AlreadyOwned => 409,
            Failure::NoSetupCode => 403,
            Failure::WrongSetupCode => 403,
            Failure::AliasInvalid => 400,
            Failure::RosterFull => 409,
            Failure::AliasTaken => 409,
            Failure::NewCodeNotCreated => 500,
            Failure::NewCodeNotSecured => 500,
            Failure::SessionInvalid => 400,
            Failure::ProblemInvalid => 400,
            Failure::AttemptInvalid => 400,
            Failure::AttachmentsFull => 400,
            Failure::ImageUnreadable => 400,
            Failure::ImageMissing => 400,
            Failure::ImageTooLarge => 413,
            Failure::ImageInvalid => 400,
            Failure::ImageNotStored => 500,
            Failure::ImageNotFound => 404,
            Failure::ExportIncomplete => 500,
            Failure::TooManyRequests => 429,
        }
    }

    /// The message shown for this refusal.
    pub fn message(&self) -> (text: &'static str)
        ensures
            text@ == message_of(*self),
    {
        match self {
            Failure::Unauthorized => "Sign in with the circle owner’s Microsoft account to continue.",
            Failure::SignInUnavailable => "Sign-in verification is temporarily unavailable. Try again.",
            Failure::NotOwner => "This Microsoft account does not own this private circle.",
            Failure::Storage => "The board could not save that change. Try again.",
            Failure::SetupInvalid => "Use a facilitator name, group name, and the adult responsibility confirmation.",
            Failure::AlreadyOwned => "This board is already owned.",
            Failure::NoSetupCode => "This deployment needs an installer-issued adult setup code before it can be claimed.",
            Failure::WrongSetupCode => "That adult setup code did not match this deployment. Ask the deployment operator for the code.",
            Failure::AliasInvalid => "Enter a learner alias of 60 characters or fewer.",
            Failure::RosterFull => "A private circle can have up to 12 learner aliases.",
            Failure::AliasTaken => "That learner alias is already in the circle.",
            Failure::NewCodeNotCreated => "The board was deleted, but a new owner code could not be created. Restart the service before setup.",
            Failure::NewCodeNotSecured => "The board was deleted, but the new owner code could not be secured. Restart the service before setup.",
            Failure::SessionInvalid => "Enter a title, a real calendar date, and a focus under 300 characters.",
            Failure::ProblemInvalid => "Add a problem title and prompt.",
            Failure::AttemptInvalid => "The attempt is too long or has an unknown status.",
            Failure::AttachmentsFull => "Each attempt can hold up to four images.",
            Failure::ImageUnreadable => "The image could not be read.",
            Failure::ImageMissing => "Choose an image to upload.",
            Failure::ImageTooLarge => "Keep each image under 5 MB.",
            Failure::ImageInvalid => "Use a valid JPEG, PNG, or WebP image file.",
            Failure::ImageNotStored => "The image could not be stored.",
            Failure::ImageNotFound => "Image not found.",
            Failure::ExportIncomplete => "An attachment could not be included in the export.",
            Failure::TooManyRequests => "Too many requests. Wait before trying again.",
        }
    }

    /// A refusal for lack of sign-in carries a `WWW-Authenticate` challenge.
    pub fn challenges_bearer(&self) -> (b: bool)
        ensures
            b == (status_of(*self) == 401),
    {
        self.status() == 401
    }
}

/// The refusal for a request without the owner's sign-in.
pub fn unauthorized() -> (f: Failure)
    ensures
        f == Failure::Unauthorized,
        status_of(f) == 401,
{
    Failure::Unauthorized
}

/// The refusal for a failed database operation.
pub fn db_err() -> (f: Failure)
    ensures
        f == Failure::Storage,
        status_of(f) == 500,
{
    Failure::Storage
}

} // verus!
