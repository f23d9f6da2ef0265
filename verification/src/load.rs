//! Deserializing dictionaries from byte streams and verifying their identity.
//!
//! A load is atomic: a dictionary is decoded in full from a sequential byte
//! source, subject to a ceiling on the encoded payload size, or the call
//! fails. A failure of the stream itself is surfaced as the IO kind,
//! distinct from a failure to decode what was read. The verifying entry
//! point additionally checks the language tag embedded in the data against
//! the caller's expectation and refuses the dictionary on a mismatch; the
//! unverified entry point returns whatever dictionary was encoded.

use vstd::prelude::*;

use std::io::Read;

use kl_hyphenate_commons::Language;
use kl_hyphenate_commons::dictionary::{Standard, Extended};

use crate::error::{classify_failure, Error};

verus! {

/// Ceiling on the size of an encoded dictionary payload, in bytes. A stream
/// declaring or requiring more fails to decode instead of being allocated.
pub const PAYLOAD_CEILING: u64 = 5_000_000;

/// Relies on `bincode::config().limit(..).deserialize_from`: decodes one
/// `Standard` dictionary from the reader, consuming it incrementally, and
/// fails — rather than hanging or allocating — if the encoded payload
/// would exceed the limit.
#[verifier::external_body]
fn deserialize_standard<R: Read>(reader: &mut R) -> Result<Standard, bincode::Error> {
    bincode::config().limit(PAYLOAD_CEILING).deserialize_from(reader)
}

/// Relies on `bincode::config().limit(..).deserialize_from`: decodes one
/// `Extended` dictionary from the reader, consuming it incrementally, and
/// fails — rather than hanging or allocating — if the encoded payload
/// would exceed the limit.
#[verifier::external_body]
fn deserialize_extended<R: Read>(reader: &mut R) -> Result<Extended, bincode::Error> {
    bincode::config().limit(PAYLOAD_CEILING).deserialize_from(reader)
}

/// What a verified load may return: a dictionary carrying exactly the
/// requested tag, a decoding failure, a stream failure, or a mismatch
/// naming the requested tag and a different found one — never a dictionary
/// of the wrong language.
pub open spec fn verified_outcome<D: Tagged>(lang: Language, r: Result<D, Error>) -> bool {
    match r {
        Ok(dict) => dict.embedded_language() == lang,
        Err(e) => match e {
            Error::Deserialization(_) => true,
            Error::IO(_) => true,
            Error::LanguageMismatch { expected, found } => expected == lang && found != lang,
            Error::Resource => false,
        },
    }
}

/// What an unverified load may return: any dictionary, whatever its tag,
/// a decoding failure, or a stream failure — nothing else, and in
/// particular never a mismatch.
pub open spec fn unverified_outcome<D>(r: Result<D, Error>) -> bool {
    match r {
        Ok(_) => true,
        Err(e) => (e matches Error::Deserialization(_) || e matches Error::IO(_)),
    }
}

/// A value carrying an embedded language tag: every dictionary shape
/// identifies the language it applies to.
pub trait Tagged: Sized {
    /// The language tag embedded in the value.
    spec fn embedded_language(&self) -> Language;

    /// The embedded language tag, as a value.
    fn language_tag(&self) -> (l: Language)
        ensures
            l == self.embedded_language(),
    ;
}

/// Convenience methods for the retrieval of hyphenation dictionaries.
pub trait Load: Tagged {
    /// Deserialize a dictionary from the provided reader, verifying that it
    /// effectively belongs to the requested language: a returned dictionary
    /// carries exactly the requested tag; a mismatch names the requested tag
    /// and a different found one; the only other outcomes are a decoding
    /// failure and a stream failure, kept apart by kind.
    fn from_reader<R: Read>(lang: Language, reader: &mut R) -> (r: Result<Self, Error>)
        ensures
            r matches Ok(dict) ==> dict.embedded_language() == lang,
            r matches Err(e) ==> (e matches Error::Deserialization(_) || e matches Error::IO(_)
                || (e matches Error::LanguageMismatch { expected, found } && expected == lang
                && found != lang)),
    ;

    /// Deserialize a dictionary from the provided reader, with no check of
    /// its language: whatever dictionary was encoded is returned, and the
    /// only possible errors are a decoding failure and a stream failure.
    fn any_from_reader<R: Read>(reader: &mut R) -> (r: Result<Self, Error>)
        ensures
            r matches Err(e) ==> (e matches Error::Deserialization(_) || e
                matches Error::IO(_)),
    ;
}

/// Check the identity of a freshly decoded dictionary against the requested
/// language: the dictionary is returned exactly when its embedded tag equals
/// `lang`; a differing tag is a hard failure naming both tags, and the
/// dictionary is discarded; a failed decode is surfaced by stage — a stream
/// failure as the IO kind, anything else as the Deserialization kind.
pub fn verify_deserialized<D: Tagged>(lang: Language, outcome: Result<D, bincode::Error>) -> (r:
    Result<D, Error>)
    ensures
        (match outcome {
            Ok(dict) => if dict.embedded_language() == lang {
                r == Ok::<D, Error>(dict)
            } else {
                r == Err::<D, Error>(
                    Error::LanguageMismatch { expected: lang, found: dict.embedded_language() },
                )
            },
            Err(_) => r matches Err(le) && (le matches Error::Deserialization(_) || le
                matches Error::IO(_)),
        }),
        verified_outcome(lang, r),
{
    match outcome {
        Err(e) => Err(classify_failure(e)),
        Ok(dict) => {
            let found = dict.language_tag();
            if found == lang {
                Ok(dict)
            } else {
                Err(Error::LanguageMismatch { expected: lang, found })
            }
        },
    }
}

/// Wrap the outcome of an unverified load: the dictionary is returned as it
/// was decoded, whatever its tag; a failed decode is surfaced by stage — a
/// stream failure as the IO kind, anything else as the Deserialization kind.
pub fn accept_deserialized<D>(outcome: Result<D, bincode::Error>) -> (r: Result<D, Error>)
    ensures
        (match outcome {
            Ok(dict) => r == Ok::<D, Error>(dict),
            Err(_) => r matches Err(le) && (le matches Error::Deserialization(_) || le
                matches Error::IO(_)),
        }),
        unverified_outcome(r),
{
    match outcome {
        Ok(dict) => Ok(dict),
        Err(e) => Err(classify_failure(e)),
    }
}

impl Tagged for Standard {
    open spec fn embedded_language(&self) -> Language {
        self.language
    }

    fn language_tag(&self) -> (l: Language) {
        self.language
    }
}

impl Load for Standard {
    fn from_reader<R: Read>(lang: Language, reader: &mut R) -> (r: Result<Self, Error>) {
        verify_deserialized(lang, deserialize_standard(reader))
    }

    fn any_from_reader<R: Read>(reader: &mut R) -> (r: Result<Self, Error>) {
        accept_deserialized(deserialize_standard(reader))
    }
}

impl Tagged for Extended {
    open spec fn embedded_language(&self) -> Language {
        self.language
    }

    fn language_tag(&self) -> (l: Language) {
        self.language
    }
}

impl Load for Extended {
    fn from_reader<R: Read>(lang: Language, reader: &mut R) -> (r: Result<Self, Error>) {
        verify_deserialized(lang, deserialize_extended(reader))
    }

    fn any_from_reader<R: Read>(reader: &mut R) -> (r: Result<Self, Error>) {
        accept_deserialized(deserialize_extended(reader))
    }
}

/// A verified load never hands back a dictionary of the wrong language:
/// whenever a verified load succeeds, the returned dictionary's embedded
/// tag equals the requested one.
pub proof fn lemma_verified_load_identity<D: Tagged>(lang: Language, r: Result<D, Error>)
    requires
        verified_outcome(lang, r),
    ensures
        r matches Ok(dict) ==> dict.embedded_language() == lang,
{
}

/// An unverified load performs no language comparison: whatever tag the
/// encoded dictionary carries, the load never reports a mismatch — only a
/// decoding or a stream failure.
pub proof fn lemma_unverified_load_no_mismatch<D>(r: Result<D, Error>)
    requires
        unverified_outcome(r),
    ensures
        r matches Err(e) ==> !(e matches Error::LanguageMismatch { .. }),
        r matches Err(e) ==> (e matches Error::Deserialization(_) || e matches Error::IO(_)),
{
}

/// A mismatch reported by a verified load is genuine: it names the requested
/// tag as expected and a tag different from it as found; the only other
/// failures are a decoding failure and a stream failure, never the reserved
/// resource kind.
pub proof fn lemma_verified_load_mismatch<D: Tagged>(lang: Language, r: Result<D, Error>)
    requires
        verified_outcome(lang, r),
    ensures
        r matches Err(e) ==> match e {
            Error::Deserialization(_) => true,
            Error::IO(_) => true,
            Error::LanguageMismatch { expected, found } => expected == lang && found != lang,
            Error::Resource => false,
        },
{
}

} // verus!
