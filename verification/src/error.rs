//! Failure modes of dictionary loading.
//!
//! A closed taxonomy: decoding failures and stream failures each wrap their
//! underlying cause, a language mismatch carries both conflicting tags, and
//! a reserved kind covers a failed lookup of an embedded dictionary. No
//! failure is ever swallowed or coerced into another kind.

use vstd::prelude::*;
use vstd::string::StringExecFns;

use kl_hyphenate_commons::Language;

use crate::lang::{language_label, language_label_of};

verus! {

/// A raw decoding failure, as reported by `bincode`.
#[verifier::external_type_specification]
#[verifier::external_body]
pub struct ExBincodeErrorKind(bincode::ErrorKind);

/// A raw stream failure, as reported by `std::io`.
#[verifier::external_type_specification]
#[verifier::external_body]
pub struct ExIoError(std::io::Error);

/// Failure modes of dictionary loading.
#[derive(Debug)]
pub enum Error {
    /// The dictionary could not be deserialized.
    Deserialization(bincode::Error),
    /// The dictionary could not be read.
    IO(std::io::Error),
    /// The loaded dictionary is for the wrong language.
    LanguageMismatch { expected: Language, found: Language },
    /// The embedded dictionary could not be retrieved.
    Resource,
}

impl From<std::io::Error> for Error {
    /// A raw stream failure maps to `Error::IO`, keeping its cause.
    fn from(err: std::io::Error) -> (r: Error) {
        Error::IO(err)
    }
}

impl vstd::std_specs::convert::FromSpecImpl<std::io::Error> for Error {
    open spec fn obeys_from_spec() -> bool {
        true
    }

    open spec fn from_spec(err: std::io::Error) -> Error {
        Error::IO(err)
    }
}

impl From<bincode::Error> for Error {
    /// A raw decoding failure maps to `Error::Deserialization`, keeping its cause.
    fn from(err: bincode::Error) -> (r: Error) {
        Error::Deserialization(err)
    }
}

impl vstd::std_specs::convert::FromSpecImpl<bincode::Error> for Error {
    open spec fn obeys_from_spec() -> bool {
        true
    }

    open spec fn from_spec(err: bincode::Error) -> Error {
        Error::Deserialization(err)
    }
}

/// Tell a failure reported by `bincode` apart by stage. Relies on
/// `bincode::ErrorKind`: its `Io` variant is the only one that carries a
/// failure of the underlying stream, except that an `UnexpectedEof` cause is
/// how a truncated encoding surfaces — a decode failure, not a stream one.
#[verifier::external_body]
pub(crate) fn classify_failure(err: bincode::Error) -> (r: Error)
    ensures
        (r matches Error::Deserialization(_) || r matches Error::IO(_)),
{
    match *err {
        bincode::ErrorKind::Io(cause) => {
            if cause.kind() == std::io::ErrorKind::UnexpectedEof {
                Error::Deserialization(Box::new(bincode::ErrorKind::Io(cause)))
            } else {
                Error::IO(cause)
            }
        }
        other => Error::Deserialization(Box::new(other)),
    }
}

/// The text reported for a language mismatch: it names both the requested
/// and the encountered tag.
pub open spec fn mismatch_message(expected: Language, found: Language) -> Seq<char> {
    "Language mismatch: attempted to load a dictionary for `"@ + language_label(expected)
        + "`, but found\na dictionary for `"@ + language_label(found) + "` instead."@
}

/// The text reported for a failed lookup of an embedded dictionary.
pub open spec fn resource_message() -> Seq<char> {
    "the embedded dictionary could not be retrieved"@
}

/// Relies on `bincode::ErrorKind`'s `Display` impl for the cause's text.
#[verifier::external_body]
fn bincode_error_text(err: &bincode::Error) -> String {
    format!("{}", err)
}

/// Relies on `std::io::Error`'s `Display` impl for the cause's text.
#[verifier::external_body]
fn io_error_text(err: &std::io::Error) -> String {
    format!("{}", err)
}

impl Error {
    /// A human-readable account of the failure. A mismatch names both
    /// conflicting tags; the two cause-wrapping kinds render their cause.
    pub fn message(&self) -> (m: String)
        ensures
            (self matches Error::LanguageMismatch { expected, found } ==> m@ == mismatch_message(
                *expected,
                *found,
            )),
            (self matches Error::Resource ==> m@ == resource_message()),
    {
        match self {
            Error::Deserialization(err) => bincode_error_text(err),
            Error::IO(err) => io_error_text(err),
            Error::LanguageMismatch { expected, found } => {
                let mut m = String::from_str("Language mismatch: attempted to load a dictionary for `");
                m.append(language_label_of(expected).as_str());
                m.append("`, but found\na dictionary for `");
                m.append(language_label_of(found).as_str());
                m.append("` instead.");
                m
            },
            Error::Resource => String::from_str("the embedded dictionary could not be retrieved"),
        }
    }
}

} // verus!
