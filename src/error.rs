//! The errors of a run, and their messages.
use vstd::prelude::*;

verus! {

/// What can go wrong during a run.
#[derive(Debug)]
pub enum RunError {
    /// A flag cluster held a character that is no known flag.
    Usage { flag: char, token: String },
    /// A target path does not exist.
    NotFound,
    /// The metadata of a target could not be read; the detail is the
    /// underlying error's text.
    Metadata { detail: String },
    /// A directory could not be enumerated; the detail is the underlying
    /// error's text.
    ReadDir { detail: String },
}

/// The message text of an error.
pub open spec fn error_text(e: RunError) -> Seq<char> {
    match e {
        RunError::Usage { flag, token } => "Unknown flag used. Don't recognize flag `"@ + seq![flag]
            + "` from `"@ + token@ + "`"@,
        RunError::NotFound => "Item doesn't exist!"@,
        RunError::Metadata { detail } => "Failed to get metadata: "@ + detail@,
        RunError::ReadDir { detail } => "Problem happened while attempting to read directory: "@
            + detail@,
    }
}

/// Relies on `char::to_string`: a string holding exactly the one character.
#[verifier::external_body]
fn char_string(c: char) -> (r: String)
    ensures
        r@ == seq![c],
{
    c.to_string()
}

impl RunError {
    /// The human-readable message of this error.
    pub fn message(&self) -> (r: String)
        ensures
            r@ == error_text(*self),
    {
        match self {
            RunError::Usage { flag, token } => {
                let mut s = String::from_str("Unknown flag used. Don't recognize flag `");
                let f = char_string(*flag);
                s.append(f.as_str());
                s.append("` from `");
                s.append(token.as_str());
                s.append("`");
                s
            },
            RunError::NotFound => String::from_str("Item doesn't exist!"),
            RunError::Metadata { detail } => {
                let mut s = String::from_str("Failed to get metadata: ");
                s.append(detail.as_str());
                s
            },
            RunError::ReadDir { detail } => {
                let mut s = String::from_str(
                    "Problem happened while attempting to read directory: ",
                );
                s.append(detail.as_str());
                s
            },
        }
    }
}

} // verus!
