//! Versioned binary decoding of Zingo wallet snapshots.
//!
//! A length-checked byte reader over a borrowed buffer, plus a decode engine
//! that replays the historical, version-gated field layout of the wallet
//! format and assembles a single wallet record.

mod binary;
mod decoders;
mod error;
mod zingo_parser;

pub use binary::{
    lemma_string_round_trip, lemma_u64_le_bytes_roundtrip, u32_le, u64_le, u64_le_bytes,
    utf8_decode, BinaryReader,
};
pub use decoders::ZingoDecoders;
pub use error::{
    is_delegated_error, is_end_of_input, is_read_error, DecodeFailure, ParseError, ParseResult,
    ReadCause,
};
pub use zingo_parser::{
    anchor_valid, le_bytes_value, normalize_block_order, orchard_anchor_at, orchard_pairs_ok,
    pallas_base_modulus, read_orchard_pairs, read_sapling_flag, read_seed_mnemonic,
    valid_entropy_len, ZingoParser, ZingoWallet,
};
