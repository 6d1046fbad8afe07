//! Errors which may occur when parsing keys and/or signatures from wire
//! formats.
//!
//! Every failed decode is reported as a [`DecodingError`] wrapping one
//! [`InternalError`]. The exact diagnostic text of each kind is pinned down
//! by [`InternalError::message_spec`], and the wrapper forwards it verbatim.

use crate::decimal::{decimal_chars, push_decimal};
use vstd::prelude::*;
use vstd::std_specs::cmp::PartialEqSpec;
use vstd::string::StringExecFns;

verus! {

/// Relies on `<str as PartialEq>::eq`: string slices compare equal exactly
/// when they consist of the same characters.
#[verifier::external_body]
fn str_eq(a: &str, b: &str) -> (r: bool)
    ensures
        r == (a@ == b@),
{
    a == b
}

/// Internal errors. Most application-level developers will likely not need
/// to pay any attention to these.
///
/// The set of failure kinds is closed: a decode of untrusted bytes fails
/// either on a curve point that does not decompress, on a scalar whose
/// high bit is set, or on an input buffer of the wrong length.
#[derive(Clone, Copy, Debug, Eq, Hash)]
pub enum InternalError {
    PointDecompressionError,
    ScalarFormatError,
    /// An error in the length of bytes handed to a constructor.
    ///
    /// To use this, pass a string specifying the `name` of the type which is
    /// returning the error, and the `length` in bytes which its constructor
    /// expects.
    BytesLengthError { name: &'static str, length: usize },
}

impl InternalError {
    /// The exact diagnostic sentence for this error kind.
    pub open spec fn message_spec(self) -> Seq<char> {
        match self {
            InternalError::PointDecompressionError => "Cannot decompress extended twisted edwards point"@,
            InternalError::ScalarFormatError => "Cannot use scalar with high-bit set"@,
            InternalError::BytesLengthError { name, length } => name@ + " must be "@
                + decimal_chars(length as nat) + " bytes in length"@,
        }
    }

    /// Renders this error kind as its diagnostic sentence.
    pub fn message(&self) -> (r: String)
        ensures
            r@ == self.message_spec(),
    {
        match self {
            InternalError::PointDecompressionError => String::from_str(
                "Cannot decompress extended twisted edwards point",
            ),
            InternalError::ScalarFormatError => String::from_str("Cannot use scalar with high-bit set"),
            InternalError::BytesLengthError { name, length } => {
                let mut s = String::from_str(*name);
                s.append(" must be ");
                push_decimal(*length, &mut s);
                s.append(" bytes in length");
                proof {
                    assert(s@ =~= self.message_spec());
                }
                s
            },
        }
    }
}

impl PartialEq for InternalError {
    /// Structural equality: same variant and, for a byte-length error, the
    /// same name text and expected length.
    fn eq(&self, other: &Self) -> (r: bool) {
        match (*self, *other) {
            (InternalError::PointDecompressionError, InternalError::PointDecompressionError) => true,
            (InternalError::ScalarFormatError, InternalError::ScalarFormatError) => true,
            (
                InternalError::BytesLengthError { name: n1, length: l1 },
                InternalError::BytesLengthError { name: n2, length: l2 },
            ) => l1 == l2 && str_eq(n1, n2),
            _ => false,
        }
    }
}

impl vstd::std_specs::cmp::PartialEqSpecImpl for InternalError {
    open spec fn obeys_eq_spec() -> bool {
        true
    }

    open spec fn eq_spec(&self, other: &Self) -> bool {
        match (*self, *other) {
            (InternalError::PointDecompressionError, InternalError::PointDecompressionError) => true,
            (InternalError::ScalarFormatError, InternalError::ScalarFormatError) => true,
            (
                InternalError::BytesLengthError { name: n1, length: l1 },
                InternalError::BytesLengthError { name: n2, length: l2 },
            ) => n1@ == n2@ && l1 == l2,
            _ => false,
        }
    }
}

/// Errors which may occur in the `from_bytes()` constructors of `PublicKey`,
/// `SecretKey`, `ExpandedSecretKey`, `Keypair`, and `Signature`.
///
/// This error may arise due to:
///
/// * A problem decompressing `r`, a curve point, in the `Signature`, or the
///   curve point for a `PublicKey`.
/// * A problem with the format of `s`, a scalar, in the `Signature`. This
///   is only raised if the high-bit of the scalar was set. (Scalars must
///   only be constructed from 255-bit integers.)
/// * Being given bytes with a length different to what was expected.
#[derive(Clone, Copy, Debug, Eq, Hash)]
pub struct DecodingError(pub InternalError);

impl DecodingError {
    /// The internal error kind this error wraps.
    pub open spec fn kind(self) -> InternalError {
        self.0
    }

    /// The exact diagnostic sentence for this error: that of the wrapped
    /// kind, with no prefix or suffix added.
    pub open spec fn message_spec(self) -> Seq<char> {
        self.0.message_spec()
    }

    /// Wraps an internal error kind. Never fails: the validation that
    /// produced the kind already happened.
    pub fn new(kind: InternalError) -> (r: DecodingError)
        ensures
            r.kind() == kind,
    {
        DecodingError(kind)
    }

    /// Renders this error as its diagnostic sentence, delegating verbatim to
    /// the wrapped kind.
    pub fn message(&self) -> (r: String)
        ensures
            r@ == self.message_spec(),
    {
        self.0.message()
    }

    /// The immediate cause of this error: the wrapped internal error kind,
    /// present for every variant.
    pub fn cause(&self) -> (r: Option<&InternalError>)
        ensures
            r matches Some(k) && *k == self.kind(),
    {
        Some(&self.0)
    }
}

impl PartialEq for DecodingError {
    /// Structural equality, delegating to the wrapped kinds.
    fn eq(&self, other: &Self) -> (r: bool) {
        self.0 == other.0
    }
}

impl vstd::std_specs::cmp::PartialEqSpecImpl for DecodingError {
    open spec fn obeys_eq_spec() -> bool {
        true
    }

    open spec fn eq_spec(&self, other: &Self) -> bool {
        PartialEqSpec::eq_spec(&self.0, &other.0)
    }
}

/// Law: formatting a decoding error yields exactly the text of the internal
/// error kind it wraps; the wrapper adds no prefix, suffix, or context.
pub proof fn lemma_message_delegates(e: DecodingError)
    ensures
        e.message_spec() == e.kind().message_spec(),
{
}

/// Law: the value a decoding error exposes as its cause (the wrapped kind)
/// formats to exactly the same text as the decoding error itself.
pub proof fn lemma_cause_formats_alike(e: DecodingError, k: InternalError)
    requires
        k == e.kind(),
    ensures
        k.message_spec() == e.message_spec(),
{
}

/// Law: two decoding errors are equal exactly when their wrapped kinds are
/// structurally equal (same variant and, for byte-length failures, the same
/// name text and expected length).
pub proof fn lemma_eq_structural(a: DecodingError, b: DecodingError)
    ensures
        PartialEqSpec::eq_spec(&a, &b) <==> PartialEqSpec::eq_spec(&a.kind(), &b.kind()),
{
}

/// Law: a copy of a decoding error compares equal to the value it was copied
/// from; there is no mutation that could tell them apart afterwards.
pub proof fn lemma_copy_eq(a: DecodingError, b: DecodingError)
    requires
        a == b,
    ensures
        PartialEqSpec::eq_spec(&a, &b),
{
}

} // verus!
