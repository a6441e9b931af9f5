use vstd::prelude::*;

verus! {

/// Why an operation on the tray icon failed.
#[derive(Clone, Debug, PartialEq, Eq)]
pub enum SystrayError {
    /// A native call failed; the text describes it.
    OsError(String),
    /// The platform at hand does not offer the operation.
    NotImplementedError,
    /// A failure that fits no other class.
    UnknownError,
}

/// The text that introduces the description of a native failure.
pub open spec fn os_error_prefix() -> Seq<char> {
    "OsError: "@
}

/// What `SystrayError::message` shows for an error.
pub open spec fn message_of(e: SystrayError) -> Seq<char> {
    match e {
        SystrayError::OsError(detail) => os_error_prefix() + detail@,
        SystrayError::NotImplementedError => "Functionality is not implemented yet"@,
        SystrayError::UnknownError => "Unknown error occurrred"@,
    }
}

/// Joins two texts with the `concat` of std's slices: the result is the
/// characters of `head` followed by those of `tail`. Verus takes this on
/// trust.
#[verifier::external_body]
fn join_text(head: &str, tail: &str) -> (joined: String)
    ensures
        joined@ == head@ + tail@,
{
    [head, tail].concat()
}

impl SystrayError {
    /// The error as a line of text for a person to read.
    pub fn message(&self) -> (text: String)
        ensures
            text@ == message_of(*self),
    {
        match self {
            SystrayError::OsError(detail) => join_text("OsError: ", detail.as_str()),
            SystrayError::NotImplementedError => "Functionality is not implemented yet".to_owned(),
            SystrayError::UnknownError => "Unknown error occurrred".to_owned(),
        }
    }
}

} // verus!
