//! The language tags embedded in hyphenation dictionaries.
//!
//! The tag type itself belongs to `kl_hyphenate_commons`: it is a plain
//! enumeration of the supported languages, compared by equality and
//! rendered by its variant name. This module makes it available to
//! specifications.

use vstd::prelude::*;

use kl_hyphenate_commons::Language;

verus! {

/// The set of languages available for hyphenation, as defined by
/// `kl_hyphenate_commons`: a fieldless enumeration, visible here so that
/// specifications can speak of concrete tags.
#[verifier::external_type_specification]
pub struct ExLanguage(Language);

/// Relies on `Language`'s derived `PartialEq`: two tags are equal exactly
/// when they are the same variant.
pub assume_specification[ <Language as PartialEq>::eq ](a: &Language, b: &Language) -> (r: bool)
    ensures
        r == (a == b),
;

/// The name under which a language tag is rendered, e.g. `EnglishUS`.
pub uninterp spec fn language_label(l: Language) -> Seq<char>;

/// Relies on `Language`'s `Display` impl, which writes the variant's name;
/// the text is a function of the tag alone.
#[verifier::external_body]
pub fn language_label_of(l: &Language) -> (r: String)
    ensures
        r@ == language_label(*l),
{
    format!("{}", l)
}

} // verus!
