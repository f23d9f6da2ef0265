//! Loading and validation of precompiled hyphenation dictionaries.
//!
//! A dictionary arrives as a length-aware binary blob; this crate
//! deserializes it into one of the two dictionary shapes of
//! `kl_hyphenate_commons` (standard or extended Knuth–Liang), enforces a
//! ceiling on the encoded payload size, and checks that the language tag
//! embedded in the data matches the language the caller asked for.
//! A successfully returned dictionary always carries the requested tag;
//! every failure is reported through a closed error taxonomy that keeps
//! stream failures, decoding failures and identity mismatches apart.

pub mod lang;
pub mod dictionary;
pub mod error;
pub mod load;

pub use error::Error;
pub use load::Load;
pub use load::Tagged;
pub use load::PAYLOAD_CEILING;
