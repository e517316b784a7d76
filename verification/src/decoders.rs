//! Decode contracts for the external collaborators.
//!
//! The wallet format embeds several records whose internal layout this crate
//! does not own: the wallet capability, the transaction map, block records,
//! wallet options, price info and the sync-tree message. The engine consumes
//! them only through this trait: each decode operation is handed the bytes
//! remaining at the cursor and reports the value it produced together with
//! how many bytes it consumed, or a low-level failure that the engine
//! translates into its own error taxonomy with a fixed label.

use vstd::prelude::*;

use crate::error::DecodeFailure;

verus! {

/// The family of externally owned field decoders one parse run uses.
///
/// A decoder may consume fewer bytes than it is handed; the engine advances
/// its cursor by exactly the reported count. Decoders are stateful (`&mut
/// self`) so an implementation can carry configuration of its own.
pub trait ZingoDecoders {
    /// Chain configuration handed to the wallet-capability decoder.
    type Context;

    /// Key material and viewing/spending permissions for the wallet.
    type Capability;

    /// One block record of the block list.
    type Block;

    /// The wallet's collection of known transactions.
    type TxMap;

    /// Wallet option flags.
    type Options;

    /// Price-history record.
    type Price;

    /// Structured sync-tree snapshot message.
    type Tree;

    /// The context a parse run uses when the caller supplies none.
    fn default_context(&mut self) -> Self::Context;

    /// Decodes the wallet capability, parameterized by the chain context.
    fn decode_capability(&mut self, context: &Self::Context, bytes: &[u8]) -> Result<
        (Self::Capability, usize),
        DecodeFailure,
    >;

    /// Decodes one block record.
    fn decode_block(&mut self, bytes: &[u8]) -> Result<(Self::Block, usize), DecodeFailure>;

    /// Decodes the transaction map in its legacy layout (format revisions
    /// up to 14), parameterized by the wallet capability.
    fn decode_transactions_legacy(&mut self, capability: &Self::Capability, bytes: &[u8]) -> Result<
        (Self::TxMap, usize),
        DecodeFailure,
    >;

    /// Decodes the transaction map in its current layout (format revisions
    /// above 14), parameterized by the wallet capability.
    fn decode_transactions(&mut self, capability: &Self::Capability, bytes: &[u8]) -> Result<
        (Self::TxMap, usize),
        DecodeFailure,
    >;

    /// The built-in wallet options used when the stream predates them.
    fn default_options(&mut self) -> Self::Options;

    /// Decodes wallet options (format revisions above 23).
    fn decode_options(&mut self, bytes: &[u8]) -> Result<(Self::Options, usize), DecodeFailure>;

    /// The built-in price info used when the stream predates it.
    fn default_price(&mut self) -> Self::Price;

    /// Decodes price info (format revisions above 13).
    fn decode_price(&mut self, bytes: &[u8]) -> Result<(Self::Price, usize), DecodeFailure>;

    /// Decodes an already-extracted byte run as the structured sync-tree
    /// message. Unlike the other operations it is handed exactly the bytes
    /// of the message, so it reports no consumed count.
    fn decode_tree_state(&mut self, bytes: &[u8]) -> Result<Self::Tree, DecodeFailure>;
}

} // verus!
