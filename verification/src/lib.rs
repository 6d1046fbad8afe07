//! Error taxonomy for parsing byte sequences into cryptographic wire-format
//! objects (keys and signatures).
//!
//! The byte-parsing constructors of a signature library report every decode
//! failure through [`errors::DecodingError`], which wraps exactly one
//! [`errors::InternalError`] describing why the bytes were rejected. Each
//! kind renders as a fixed diagnostic sentence, and the wrapper forwards the
//! text and exposes the kind as its cause.

pub mod decimal;
pub mod errors;
