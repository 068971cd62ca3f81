//! The `pyprint` template helper: prints a JSON value the way Python
//! writes it.
//!
//! The helper takes the value to print and the text to show for `null`.

use vstd::prelude::*;
use vstd::string::*;

verus! {

/// The value handed to the helper, as far as the helper tells values apart.
#[derive(Clone, Debug, PartialEq, Eq)]
pub enum Subject {
    Bool(bool),
    Null,
    /// Any other value, by its JSON text.
    Other(String),
}

/// The second parameter as the helper finds it.
#[derive(Clone, Debug, PartialEq, Eq)]
pub enum Fallback {
    /// The parameter is a JSON value other than a string.
    NotText,
    Text(String),
}

/// A wrong use of the helper.
#[derive(Clone, Copy, Debug, PartialEq, Eq, Structural)]
pub enum HelperError {
    MissingFirst,
    MissingSecond,
    SecondNotString,
}

impl HelperError {
    /// The message of the error.
    pub open spec fn text(self) -> Seq<char> {
        match self {
            HelperError::MissingFirst => "pyprint helper missing first argument"@,
            HelperError::MissingSecond => "pyprint helper missing second argument"@,
            HelperError::SecondNotString => "pyprint second argument is not string"@,
        }
    }

    /// The message of the error.
    pub fn message(&self) -> (message: &'static str)
        ensures
            message@ == self.text(),
    {
        match self {
            HelperError::MissingFirst => "pyprint helper missing first argument",
            HelperError::MissingSecond => "pyprint helper missing second argument",
            HelperError::SecondNotString => "pyprint second argument is not string",
        }
    }
}

/// What the helper prints. The parameters are checked in order: the first
/// must be there, the second must be there, the second must be a string.
/// Then `true` and `false` print as `True` and `False`, `null` prints as the
/// second parameter, and every other value as its JSON text.
pub open spec fn printed(subject: Option<Subject>, fallback: Option<Fallback>) -> Result<
    Seq<char>,
    HelperError,
> {
    match (subject, fallback) {
        (None, _) => Err(HelperError::MissingFirst),
        (Some(_), None) => Err(HelperError::MissingSecond),
        (Some(_), Some(Fallback::NotText)) => Err(HelperError::SecondNotString),
        (Some(Subject::Bool(true)), Some(Fallback::Text(_))) => Ok("True"@),
        (Some(Subject::Bool(false)), Some(Fallback::Text(_))) => Ok("False"@),
        (Some(Subject::Null), Some(Fallback::Text(if_null))) => Ok(if_null@),
        (Some(Subject::Other(json)), Some(Fallback::Text(_))) => Ok(json@),
    }
}

/// The content of a printed text or the error in its place.
pub open spec fn shown(result: Result<String, HelperError>) -> Result<Seq<char>, HelperError> {
    match result {
        Ok(text) => Ok(text@),
        Err(e) => Err(e),
    }
}

/// Computes what the helper prints for its two parameters, either of which
/// may be absent.
pub fn pyprint(subject: Option<&Subject>, fallback: Option<&Fallback>) -> (out: Result<
    String,
    HelperError,
>)
    ensures
        shown(out) == printed(
            match subject {
                Some(s) => Some(*s),
                None => None,
            },
            match fallback {
                Some(f) => Some(*f),
                None => None,
            },
        ),
{
    let subject = match subject {
        Some(s) => s,
        None => {
            return Err(HelperError::MissingFirst);
        },
    };
    let if_null = match fallback {
        None => {
            return Err(HelperError::MissingSecond);
        },
        Some(Fallback::NotText) => {
            return Err(HelperError::SecondNotString);
        },
        Some(Fallback::Text(text)) => text,
    };
    match subject {
        Subject::Bool(true) => Ok(String::from_str("True")),
        Subject::Bool(false) => Ok(String::from_str("False")),
        Subject::Null => Ok(String::from_str(if_null.as_str())),
        Subject::Other(json) => Ok(String::from_str(json.as_str())),
    }
}

} // verus!
