//! The failures that the library hands back to its caller.

use vstd::prelude::*;
use vstd::string::StringExecFns;

verus! {

/// Why an operation gave no value. Every failure is returned; none ends the
/// process.
#[derive(Debug, Clone, PartialEq, Eq)]
pub enum CurseError {
    /// The storage could not be read; the cause, as the reader put it.
    Io(String),
    /// The text is no JSON, or its document has not the shape asked for; a
    /// diagnostic for a human reader.
    Parse(String),
    /// A fingerprint lookup came back without a single match.
    EmptyResult,
}

impl CurseError {
    /// The one message that a failure puts on the error channel.
    pub open spec fn notice(self) -> Seq<char> {
        match self {
            CurseError::Io(cause) => "Error reading the pack \n\n"@ + cause@,
            CurseError::Parse(diagnostic) => "Error deserializing the pack \n\n"@ + diagnostic@,
            CurseError::EmptyResult => "The fingerprint lookup has no exact match"@,
        }
    }

    /// Writes out the failure's message.
    pub fn message(&self) -> (r: String)
        ensures
            r@ == self.notice(),
    {
        match self {
            CurseError::Io(cause) => String::from_str("Error reading the pack \n\n").concat(
                cause.as_str(),
            ),
            CurseError::Parse(diagnostic) => String::from_str(
                "Error deserializing the pack \n\n",
            ).concat(diagnostic.as_str()),
            CurseError::EmptyResult => String::from_str(
                "The fingerprint lookup has no exact match",
            ),
        }
    }
}

/// The failure of a document that has not the shape asked for, with what was
/// expected as its diagnostic.
pub(crate) fn shape_fault(expected: &str) -> (e: CurseError)
    ensures
        e matches CurseError::Parse(diagnostic) && diagnostic@ == expected@,
{
    CurseError::Parse(String::from_str(expected))
}

/// The failure of an object that lacks a member.
pub(crate) fn missing_member(key: &str) -> (e: CurseError)
    ensures
        e matches CurseError::Parse(diagnostic) && diagnostic@ == missing_notice(key@),
{
    CurseError::Parse(String::from_str("missing field `").concat(key).concat("`"))
}

/// The same failure, its diagnostic led by the key of the member in which it
/// was found.
pub(crate) fn under_key(e: CurseError, key: &str) -> (r: CurseError)
    ensures
        e matches CurseError::Parse(d) ==> r matches CurseError::Parse(k) && k@ == keyed_notice(key@, d@),
        !(e is Parse) ==> r == e,
{
    match e {
        CurseError::Parse(diagnostic) => CurseError::Parse(
            String::from_str(key).concat(": ").concat(diagnostic.as_str()),
        ),
        other => other,
    }
}

/// The diagnostic of an object that lacks the member under a key.
pub open spec fn missing_notice(key: Seq<char>) -> Seq<char> {
    "missing field `"@ + key + "`"@
}

/// A diagnostic led by the key of the member in which the fault was found.
pub open spec fn keyed_notice(key: Seq<char>, diagnostic: Seq<char>) -> Seq<char> {
    key + ": "@ + diagnostic
}

} // verus!
