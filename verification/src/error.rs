//! The application's error type. The front end receives the message text.

use vstd::prelude::*;

verus! {

#[verifier::external_type_specification]
#[verifier::external_body]
pub struct ExIoError(std::io::Error);

/// Errors of the application.
#[derive(Debug)]
pub enum AppError {
    Io(std::io::Error),
    Store(String),
    Sql(String),
    /// Reserved for audio failures; playback currently falls back silently.
    Audio(String),
    NotFound(String),
}

/// The text of a message: the variant's name, a colon and a space, then
/// the variant's own text.
pub open spec fn labelled(label: Seq<char>, text: Seq<char>) -> Seq<char> {
    label + ": "@ + text
}

impl AppError {
    /// The message shown for the error, `"<Variant>: <text>"`.
    pub fn to_message(&self) -> (r: String)
        ensures
            match self {
                AppError::Io(e) => exists|t: String|
                    vstd::string::to_string_from_display_ensures::<std::io::Error>(e, t)
                        && r@ == labelled("Io"@, t@),
                AppError::Store(s) => r@ == labelled("Store"@, s@),
                AppError::Sql(s) => r@ == labelled("Sql"@, s@),
                AppError::Audio(s) => r@ == labelled("Audio"@, s@),
                AppError::NotFound(s) => r@ == labelled("NotFound"@, s@),
            },
    {
        let (label, text) = match self {
            AppError::Io(e) => ("Io", e.to_string()),
            AppError::Store(s) => ("Store", s.clone()),
            AppError::Sql(s) => ("Sql", s.clone()),
            AppError::Audio(s) => ("Audio", s.clone()),
            AppError::NotFound(s) => ("NotFound", s.clone()),
        };
        let mut out = String::from_str(label);
        out.append(": ");
        out.append(text.as_str());
        out
    }
}

impl From<std::io::Error> for AppError {
    fn from(e: std::io::Error) -> (r: Self) {
        AppError::Io(e)
    }
}

impl vstd::std_specs::convert::FromSpecImpl<std::io::Error> for AppError {
    open spec fn obeys_from_spec() -> bool {
        true
    }

    open spec fn from_spec(e: std::io::Error) -> Self {
        AppError::Io(e)
    }
}

} // verus!
