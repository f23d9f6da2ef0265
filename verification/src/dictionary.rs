//! The two dictionary shapes this crate can load.
//!
//! Both shapes belong to `kl_hyphenate_commons` and are consumed here only
//! as deserialization targets: the single field this crate inspects is the
//! embedded `language` tag. The declarations below make that field visible
//! to specifications, while the pattern and exception sets — whose layout
//! is the hyphenation engine's business, not ours — stay opaque.

use vstd::prelude::*;

use kl_hyphenate_commons::dictionary::{Standard, Extended, Patterns, Exceptions};
use kl_hyphenate_commons::dictionary::extended;

verus! {

/// The pattern trie of a standard dictionary; not inspected here.
#[verifier::external_type_specification]
#[verifier::external_body]
pub struct ExPatterns(Patterns);

/// The exception map of a standard dictionary; not inspected here.
#[verifier::external_type_specification]
#[verifier::external_body]
pub struct ExExceptions(Exceptions);

/// The pattern trie of an extended dictionary; not inspected here.
#[verifier::external_type_specification]
#[verifier::external_body]
pub struct ExExtendedPatterns(extended::Patterns);

/// The exception map of an extended dictionary; not inspected here.
#[verifier::external_type_specification]
#[verifier::external_body]
pub struct ExExtendedExceptions(extended::Exceptions);

/// A dictionary for standard Knuth–Liang hyphenation, declared with its
/// fields so that the embedded `language` tag is visible to specifications.
#[verifier::external_type_specification]
pub struct ExStandard(Standard);

/// A dictionary for extended Knuth–Liang hyphenation, declared with its
/// fields so that the embedded `language` tag is visible to specifications.
#[verifier::external_type_specification]
pub struct ExExtended(Extended);

} // verus!
