//! Error taxonomy for wallet-snapshot parsing.
//!
//! Every failure is terminal: the first failing step aborts the whole parse
//! and no partial wallet record is ever produced.

use vstd::prelude::*;

verus! {

/// Failure reported by an external field decoder when it is handed the
/// remaining bytes of the stream and cannot produce a value from them.
#[derive(Debug, PartialEq, Eq)]
pub struct DecodeFailure {
    /// Human-readable description supplied by the decoder.
    pub message: String,
}

/// The low-level reason behind a `ParseError::Read`.
#[derive(Debug, PartialEq, Eq)]
pub enum ReadCause {
    /// Fewer bytes remained in the buffer than the read required.
    UnexpectedEnd,
    /// The bytes were present but their content was malformed.
    InvalidData,
    /// An external field decoder reported a failure of its own.
    Collaborator { message: String },
}

/// Semantic error type describing the ways parsing a wallet snapshot can fail.
#[derive(Debug, PartialEq, Eq)]
pub enum ParseError {
    /// The version number at the start of the stream exceeds what this
    /// engine understands.
    UnsupportedWalletVersion { found: u64, max: u64 },
    /// A boolean-typed byte held a value other than 0 or 1.
    InvalidBoolean { label: &'static str, value: u8 },
    /// A declared length cannot be represented by the platform size type.
    LengthOverflow { label: &'static str, length: u64 },
    /// Length-prefixed bytes were not valid UTF-8.
    InvalidString { label: &'static str },
    /// Seed bytes could not be converted to a mnemonic: their length is not
    /// one the mnemonic algorithm supports.
    MnemonicEntropy { entropy_len: usize },
    /// Insufficient bytes remained, or a delegated decoder reported a
    /// low-level failure.
    Read { label: &'static str, cause: ReadCause },
    /// Reserved for a stricter mode that rejects trailing bytes; the current
    /// decode protocol never raises it.
    RemainingBytes { expected: &'static str, remaining: usize },
}

impl ParseError {
    /// A read failure for `label` caused by running out of bytes.
    pub fn end_of_input(label: &'static str) -> (r: Self)
        ensures
            r == (ParseError::Read { label, cause: ReadCause::UnexpectedEnd }),
    {
        ParseError::Read { label, cause: ReadCause::UnexpectedEnd }
    }

    /// A read failure for `label` carrying a failure reported by an
    /// external field decoder.
    pub fn collaborator(label: &'static str, failure: DecodeFailure) -> (r: Self)
        ensures
            r == (ParseError::Read {
                label,
                cause: ReadCause::Collaborator { message: failure.message },
            }),
    {
        ParseError::Read { label, cause: ReadCause::Collaborator { message: failure.message } }
    }
}

/// The error is a read failure for the field named `label` caused by
/// running out of bytes.
pub open spec fn is_end_of_input(e: ParseError, label: Seq<char>) -> bool {
    e matches ParseError::Read { label: l, cause: ReadCause::UnexpectedEnd } && l@ == label
}

/// The error is a read failure for the field named `label`, whatever its
/// low-level cause.
pub open spec fn is_read_error(e: ParseError, label: Seq<char>) -> bool {
    e matches ParseError::Read { label: l, cause: _ } && l@ == label
}

/// The error is a read failure for the field named `label` that arose in a
/// delegated decode: either the external decoder's own failure, or a
/// malformed report (content or consumption count) during the delegation.
pub open spec fn is_delegated_error(e: ParseError, label: Seq<char>) -> bool {
    e matches ParseError::Read { label: l, cause: c } && l@ == label && (c matches
    ReadCause::Collaborator { .. } || c is InvalidData)
}

/// Result alias for parsing operations in this crate.
pub type ParseResult<T> = core::result::Result<T, ParseError>;

} // verus!
