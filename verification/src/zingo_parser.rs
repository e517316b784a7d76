//! Versioned decode engine for wallet snapshots.
//!
//! Executes a strictly ordered sequence of field-decode steps, each gated by
//! comparisons against the version number read at the very start of the
//! stream, and assembles the resulting wallet record. Every historical
//! format revision is expressed purely as a predicate over that one version
//! integer; the step order is fixed and must never be reordered.

use vstd::prelude::*;

use crate::binary::{u32_le, u64_le, BinaryReader};
use crate::decoders::ZingoDecoders;
use crate::error::{is_delegated_error, is_end_of_input, is_read_error, ParseError, ParseResult, ReadCause};

verus! {

#[verifier::external_type_specification]
#[verifier::external_body]
#[verifier::reject_recursive_types(L)]
pub struct ExMnemonic<L>(bip0039::Mnemonic<L>);

#[verifier::external_type_specification]
#[verifier::external_body]
pub struct ExEnglish(bip0039::English);

#[verifier::external_type_specification]
#[verifier::external_body]
pub struct ExAnchor(orchard::Anchor);

/// The entropy lengths (in bytes) from which a mnemonic phrase can be
/// reconstructed.
pub open spec fn valid_entropy_len(n: int) -> bool {
    n == 16 || n == 20 || n == 24 || n == 28 || n == 32
}

/// Relies on bip0039's `Mnemonic::from_entropy`: it succeeds exactly when
/// the entropy is one of the BIP-0039 sizes (16, 20, 24, 28 or 32 bytes).
#[verifier::external_body]
fn mnemonic_from_entropy(entropy: &[u8]) -> (r: Result<bip0039::Mnemonic, ()>)
    ensures
        r is Ok <==> valid_entropy_len(entropy@.len() as int),
{
    bip0039::Mnemonic::from_entropy(entropy).map_err(|_| ())
}

/// The little-endian integer value of a whole byte sequence.
pub open spec fn le_bytes_value(s: Seq<u8>) -> int
    decreases s.len(),
{
    if s.len() == 0 {
        0
    } else {
        s[0] + 0x100 * le_bytes_value(s.skip(1))
    }
}

/// The Pallas base-field modulus, the field orchard anchors live in
/// (pasta_curves' `Fp`).
pub open spec fn pallas_base_modulus() -> int {
    0x40000000000000000000000000000000224698fc094cf91b992d30ed00000001int
}

/// Whether 32 bytes are the canonical encoding of an orchard anchor value:
/// read little-endian, they are below the Pallas base-field modulus.
pub open spec fn anchor_valid(bytes: Seq<u8>) -> bool {
    le_bytes_value(bytes) < pallas_base_modulus()
}

/// Relies on orchard's `Anchor::from_bytes`, which defers to pasta_curves'
/// `Fp::from_repr`: it yields a value exactly when the 32 bytes, read
/// little-endian, are below the field modulus.
#[verifier::external_body]
fn anchor_from_bytes(bytes: &[u8]) -> (r: Option<orchard::Anchor>)
    requires
        bytes@.len() == 32,
    ensures
        r is Some <==> anchor_valid(bytes@),
{
    let mut buf = [0u8; 32];
    buf.copy_from_slice(bytes);
    Option::from(orchard::Anchor::from_bytes(buf))
}

/// The version-agnostic wallet record one successful parse produces.
/// Immutable after construction; the externally decoded fields are carried
/// through without this crate reading into them.
pub struct ZingoWallet<D: ZingoDecoders> {
    /// Format version read at the start of the stream.
    pub external_version: u64,
    /// Chain identifier string.
    pub chain_name: String,
    /// Block height at or after which the wallet's history is relevant.
    pub birthday: u64,
    /// Mnemonic reconstructed from the stream's seed bytes, with the
    /// account index; absent when the seed bytes were empty.
    pub mnemonic: Option<(bip0039::Mnemonic, u32)>,
    /// Wallet option flags, decoded or defaulted by version.
    pub wallet_options: D::Options,
    /// Key material and permissions record.
    pub wallet_capability: D::Capability,
    /// Verified sync-tree snapshot, when the stream carried one.
    pub verified_tree: Option<D::Tree>,
    /// Price info, decoded or defaulted by version.
    pub price: D::Price,
    /// Block list, newest-first after normalization.
    pub blocks: Vec<D::Block>,
    /// The wallet's known transactions.
    pub transactions: D::TxMap,
    /// Count of trailing bytes left unconsumed after the last field;
    /// diagnostic only, never an error.
    pub remaining: usize,
}

impl<D: ZingoDecoders> ZingoWallet<D> {
    pub fn new(
        external_version: u64,
        chain_name: String,
        birthday: u64,
        mnemonic: Option<(bip0039::Mnemonic, u32)>,
        wallet_options: D::Options,
        wallet_capability: D::Capability,
        verified_tree: Option<D::Tree>,
        price: D::Price,
        blocks: Vec<D::Block>,
        transactions: D::TxMap,
        remaining: usize,
    ) -> (r: Self)
        ensures
            r.external_version == external_version,
            r.chain_name == chain_name,
            r.birthday == birthday,
            r.mnemonic == mnemonic,
            r.verified_tree == verified_tree,
            r.blocks == blocks,
            r.remaining == remaining,
            r.wallet_options == wallet_options,
            r.wallet_capability == wallet_capability,
            r.price == price,
            r.transactions == transactions,
    {
        ZingoWallet {
            external_version,
            chain_name,
            birthday,
            mnemonic,
            wallet_options,
            wallet_capability,
            verified_tree,
            price,
            blocks,
            transactions,
            remaining,
        }
    }
}

/// Older streams stored the block list oldest-first; revisions above 14
/// store it newest-first. This step normalizes to newest-first: for a
/// version at most 14 the list is reversed, otherwise it is kept as stored.
pub fn normalize_block_order<B>(external_version: u64, blocks: Vec<B>) -> (r: Vec<B>)
    ensures
        external_version <= 14 ==> r@ == blocks@.reverse(),
        external_version > 14 ==> r@ == blocks@,
{
    if external_version <= 14 {
        let ghost orig = blocks@;
        let mut rest = blocks;
        let mut out: Vec<B> = Vec::new();
        while rest.len() > 0
            invariant
                rest@.len() + out@.len() == orig.len(),
                forall|i: int| 0 <= i < rest@.len() ==> rest@[i] == orig[i],
                forall|i: int| 0 <= i < out@.len() ==> out@[i] == orig[orig.len() - 1 - i],
            decreases rest@.len(),
        {
            let item = rest.pop().unwrap();
            out.push(item);
        }
        proof {
            assert(out@ =~= orig.reverse());
        }
        out
    } else {
        blocks
    }
}

fn delegate_capability<'a, D: ZingoDecoders>(
    reader: &mut BinaryReader<'a>,
    decoders: &mut D,
    context: &D::Context,
) -> (r: ParseResult<D::Capability>)
    requires
        old(reader).wf(),
    ensures
        final(reader).wf(),
        final(reader).data_seq() == old(reader).data_seq(),
        old(reader).pos() <= final(reader).pos(),
        r matches Err(e) ==> is_delegated_error(e, "WalletCapability"@) && final(reader).pos()
            == old(reader).pos(),
{
    let tail = reader.remaining_slice();
    match decoders.decode_capability(context, tail) {
        Ok((value, consumed)) => {
            if consumed <= reader.remaining() {
                reader.consume(consumed);
                Ok(value)
            } else {
                Err(ParseError::Read { label: "WalletCapability", cause: ReadCause::InvalidData })
            }
        },
        Err(failure) => Err(ParseError::collaborator("WalletCapability", failure)),
    }
}

fn delegate_transactions<'a, D: ZingoDecoders>(
    reader: &mut BinaryReader<'a>,
    decoders: &mut D,
    capability: &D::Capability,
    external_version: u64,
) -> (r: ParseResult<D::TxMap>)
    requires
        old(reader).wf(),
    ensures
        final(reader).wf(),
        final(reader).data_seq() == old(reader).data_seq(),
        old(reader).pos() <= final(reader).pos(),
        r matches Err(e) ==> (external_version <= 14 ==> is_delegated_error(e, "TxMap old"@))
            && (external_version > 14 ==> is_delegated_error(e, "TxMap"@)) && final(reader).pos()
            == old(reader).pos(),
{
    let tail = reader.remaining_slice();
    if external_version <= 14 {
        match decoders.decode_transactions_legacy(capability, tail) {
            Ok((value, consumed)) => {
                if consumed <= reader.remaining() {
                    reader.consume(consumed);
                    Ok(value)
                } else {
                    Err(ParseError::Read { label: "TxMap old", cause: ReadCause::InvalidData })
                }
            },
            Err(failure) => Err(ParseError::collaborator("TxMap old", failure)),
        }
    } else {
        match decoders.decode_transactions(capability, tail) {
            Ok((value, consumed)) => {
                if consumed <= reader.remaining() {
                    reader.consume(consumed);
                    Ok(value)
                } else {
                    Err(ParseError::Read { label: "TxMap", cause: ReadCause::InvalidData })
                }
            },
            Err(failure) => Err(ParseError::collaborator("TxMap", failure)),
        }
    }
}

/// Wallet options: the built-in default for format revisions up to 23, with
/// no bytes consumed, and the externally decoded record above that.
fn read_wallet_options<'a, D: ZingoDecoders>(
    reader: &mut BinaryReader<'a>,
    decoders: &mut D,
    external_version: u64,
) -> (r: ParseResult<D::Options>)
    requires
        old(reader).wf(),
    ensures
        final(reader).wf(),
        final(reader).data_seq() == old(reader).data_seq(),
        old(reader).pos() <= final(reader).pos(),
        external_version <= 23 ==> r is Ok && final(reader).pos() == old(reader).pos(),
        r matches Err(e) ==> external_version > 23 && is_delegated_error(e, "WalletOptions"@)
            && final(reader).pos() == old(reader).pos(),
{
    if external_version <= 23 {
        return Ok(decoders.default_options());
    }
    let tail = reader.remaining_slice();
    match decoders.decode_options(tail) {
        Ok((value, consumed)) => {
            if consumed <= reader.remaining() {
                reader.consume(consumed);
                Ok(value)
            } else {
                Err(ParseError::Read { label: "WalletOptions", cause: ReadCause::InvalidData })
            }
        },
        Err(failure) => Err(ParseError::collaborator("WalletOptions", failure)),
    }
}

/// Price info: the built-in default for format revisions up to 13, with no
/// bytes consumed, and the externally decoded record above that.
fn read_price_info<'a, D: ZingoDecoders>(
    reader: &mut BinaryReader<'a>,
    decoders: &mut D,
    external_version: u64,
) -> (r: ParseResult<D::Price>)
    requires
        old(reader).wf(),
    ensures
        final(reader).wf(),
        final(reader).data_seq() == old(reader).data_seq(),
        old(reader).pos() <= final(reader).pos(),
        external_version <= 13 ==> r is Ok && final(reader).pos() == old(reader).pos(),
        r matches Err(e) ==> external_version > 13 && is_delegated_error(e, "WalletZecPriceInfo"@)
            && final(reader).pos() == old(reader).pos(),
{
    if external_version <= 13 {
        return Ok(decoders.default_price());
    }
    let tail = reader.remaining_slice();
    match decoders.decode_price(tail) {
        Ok((value, consumed)) => {
            if consumed <= reader.remaining() {
                reader.consume(consumed);
                Ok(value)
            } else {
                Err(ParseError::Read { label: "WalletZecPriceInfo", cause: ReadCause::InvalidData })
            }
        },
        Err(failure) => Err(ParseError::collaborator("WalletZecPriceInfo", failure)),
    }
}

/// Reads the block list: a 64-bit count, then that many externally decoded
/// block records, in storage order.
fn read_block_list<'a, D: ZingoDecoders>(reader: &mut BinaryReader<'a>, decoders: &mut D) -> (r:
    ParseResult<Vec<D::Block>>)
    requires
        old(reader).wf(),
    ensures
        final(reader).wf(),
        final(reader).data_seq() == old(reader).data_seq(),
        old(reader).pos() <= final(reader).pos(),
        old(reader).spec_remaining() < 8 ==> (r matches Err(e) && is_end_of_input(e, "BlockData"@))
            && final(reader).pos() == old(reader).pos(),
        r matches Err(e) ==> is_read_error(e, "BlockData"@),
        r matches Ok(v) ==> old(reader).spec_remaining() >= 8 && v@.len() == u64_le(
            old(reader).data_seq(),
            old(reader).pos(),
        ),
{
    let count = match reader.read_u64("BlockData") {
        Ok(v) => v,
        Err(e) => {
            return Err(e);
        },
    };
    let mut out: Vec<D::Block> = Vec::new();
    let mut i: u64 = 0;
    while i < count
        invariant
            reader.wf(),
            reader.data_seq() == old(reader).data_seq(),
            old(reader).pos() <= reader.pos(),
            old(reader).spec_remaining() >= 8,
            i <= count,
            out@.len() == i,
        decreases count - i,
    {
        let tail = reader.remaining_slice();
        match decoders.decode_block(tail) {
            Ok((block, consumed)) => {
                if consumed <= reader.remaining() {
                    reader.consume(consumed);
                    out.push(block);
                    i = i + 1;
                } else {
                    return Err(
                        ParseError::Read { label: "BlockData", cause: ReadCause::InvalidData },
                    );
                }
            },
            Err(failure) => {
                return Err(ParseError::collaborator("BlockData", failure));
            },
        }
    }
    Ok(out)
}

/// Reads the sapling-tree-verified flag, whose value the protocol discards
/// after validation. Exactly one byte is consumed, and validated as a
/// boolean, for format revisions 13 to 22. Up to revision 12 the flag is
/// implicitly true; above 22 the field no longer exists; in both cases no
/// bytes are consumed.
pub fn read_sapling_flag<'a>(reader: &mut BinaryReader<'a>, external_version: u64) -> (r:
    ParseResult<()>)
    requires
        old(reader).wf(),
    ensures
        final(reader).wf(),
        final(reader).data_seq() == old(reader).data_seq(),
        !(12 < external_version && external_version <= 22) ==> r is Ok && final(reader).pos()
            == old(reader).pos(),
        12 < external_version && external_version <= 22 ==> {
            let data = old(reader).data_seq();
            let p = old(reader).pos();
            &&& old(reader).spec_remaining() < 1 ==> (r matches Err(e) && is_end_of_input(
                e,
                "sapling_tree_verified"@,
            )) && final(reader).pos() == p
            &&& old(reader).spec_remaining() >= 1 ==> final(reader).pos() == p + 1 && {
                &&& data[p] <= 1 ==> r is Ok
                &&& data[p] > 1 ==> (r matches Err(e) && e == (ParseError::InvalidBoolean {
                    label: "sapling_tree_verified",
                    value: data[p],
                }))
            }
        },
{
    if 12 < external_version && external_version <= 22 {
        match reader.read_bool("sapling_tree_verified") {
            Ok(_) => Ok(()),
            Err(e) => Err(e),
        }
    } else {
        Ok(())
    }
}

/// Reads the optional verified sync-tree snapshot for format revisions
/// above 21: a marker byte (0 = absent, 1 = present, anything else is
/// malformed), then a length-prefixed byte run handed to the external
/// tree-state decoder. For revisions up to 21 the snapshot is absent and no
/// bytes are consumed.
fn read_verified_tree<'a, D: ZingoDecoders>(
    reader: &mut BinaryReader<'a>,
    decoders: &mut D,
    external_version: u64,
) -> (r: ParseResult<Option<D::Tree>>)
    requires
        old(reader).wf(),
    ensures
        final(reader).wf(),
        final(reader).data_seq() == old(reader).data_seq(),
        old(reader).pos() <= final(reader).pos(),
        external_version <= 21 ==> (r matches Ok(t) && t is None) && final(reader).pos() == old(reader).pos(),
        external_version > 21 ==> {
            let data = old(reader).data_seq();
            let p = old(reader).pos();
            let rem = old(reader).spec_remaining();
            &&& rem < 1 ==> (r matches Err(e) && is_end_of_input(e, "TreeState"@)) && final(reader).pos() == p
            &&& rem >= 1 && data[p] == 0 ==> (r matches Ok(t) && t is None) && final(reader).pos()
                == p + 1
            &&& rem >= 1 && data[p] > 1 ==> (r matches Err(e) && e == (ParseError::Read {
                label: "TreeState",
                cause: ReadCause::InvalidData,
            })) && final(reader).pos() == p + 1
            &&& rem >= 1 && data[p] == 1 ==> {
                let n = u64_le(data, p + 1);
                &&& rem < 9 ==> (r matches Err(e) && is_end_of_input(e, "TreeState"@)) && final(reader).pos() == p + 1
                &&& rem >= 9 && n > usize::MAX ==> (r matches Err(e) && e
                    == (ParseError::LengthOverflow { label: "TreeState", length: n as u64 }))
                    && final(reader).pos() == p + 9
                &&& rem >= 9 && n <= usize::MAX && rem < 9 + n ==> (r matches Err(e)
                    && is_end_of_input(e, "TreeState"@)) && final(reader).pos() == p + 9
                &&& rem >= 9 && n <= usize::MAX && rem >= 9 + n ==> final(reader).pos() == p + 9
                    + n && (r matches Ok(t) ==> t is Some) && (r matches Err(e) ==> is_read_error(
                    e,
                    "TreeState"@,
                ))
            }
        },
{
    if external_version <= 21 {
        return Ok(None);
    }
    let marker = match reader.read_u8("TreeState") {
        Ok(v) => v,
        Err(e) => {
            return Err(e);
        },
    };
    if marker == 0 {
        return Ok(None);
    }
    if marker != 1 {
        return Err(ParseError::Read { label: "TreeState", cause: ReadCause::InvalidData });
    }
    let length = match reader.read_u64("TreeState") {
        Ok(v) => v,
        Err(e) => {
            return Err(e);
        },
    };
    if length > usize::MAX as u64 {
        return Err(ParseError::LengthOverflow { label: "TreeState", length });
    }
    let bytes = match reader.read_exact_vec("TreeState", length as usize) {
        Ok(v) => v,
        Err(e) => {
            return Err(e);
        },
    };
    match decoders.decode_tree_state(bytes.as_slice()) {
        Ok(tree) => Ok(Some(tree)),
        Err(failure) => Err(ParseError::collaborator("TreeState", failure)),
    }
}

/// The 32 anchor bytes of the pair at index `i` of an orchard pair list
/// whose count field starts at `p`.
pub open spec fn orchard_anchor_at(data: Seq<u8>, p: int, i: int) -> Seq<u8> {
    data.subrange(p + 8 + 36 * i, p + 8 + 36 * i + 32)
}

/// The pair list starting at `p` is complete (count field plus 36 bytes per
/// pair) and every anchor in it is canonically encoded.
pub open spec fn orchard_pairs_ok(data: Seq<u8>, p: int) -> bool {
    let n = u64_le(data, p);
    &&& p + 8 <= data.len()
    &&& p + 8 + 36 * n <= data.len()
    &&& forall|i: int| 0 <= i < n ==> anchor_valid(#[trigger] orchard_anchor_at(data, p, i))
}

/// Reads the orchard anchor/height pair list. The field existed for exactly
/// one format revision: only a stream with version 25 carries it; for every
/// other version the list is empty and no bytes are consumed. Each pair is a
/// 32-byte anchor, which must be a canonical encoding, followed by a
/// little-endian 32-bit block height.
pub fn read_orchard_pairs<'a>(reader: &mut BinaryReader<'a>, external_version: u64) -> (r:
    ParseResult<Vec<(Vec<u8>, u32)>>)
    requires
        old(reader).wf(),
    ensures
        final(reader).wf(),
        final(reader).data_seq() == old(reader).data_seq(),
        old(reader).pos() <= final(reader).pos(),
        external_version != 25 ==> (r matches Ok(v) && v@.len() == 0) && final(reader).pos()
            == old(reader).pos(),
        external_version == 25 ==> {
            let data = old(reader).data_seq();
            let p = old(reader).pos();
            let n = u64_le(data, p);
            &&& old(reader).spec_remaining() < 8 ==> (r matches Err(e) && is_end_of_input(
                e,
                "orchard_anchor_height_pairs"@,
            )) && final(reader).pos() == p
            &&& orchard_pairs_ok(data, p) ==> final(reader).pos() == p + 8 + 36 * n && (
            r matches Ok(v) && v@.len() == n && (forall|i: int|
                0 <= i < n ==> (#[trigger] v@[i]).0@ == orchard_anchor_at(data, p, i) && v@[i].1
                    == u32_le(data, p + 8 + 36 * i + 32)))
            &&& old(reader).spec_remaining() >= 8 && !orchard_pairs_ok(data, p) ==> (
            r matches Err(e) && is_read_error(e, "orchard_anchor_height_pairs"@))
        },
{
    if external_version != 25 {
        let out: Vec<(Vec<u8>, u32)> = Vec::new();
        return Ok(out);
    }
    let ghost data = reader.data_seq();
    let ghost p = reader.pos();
    let count = match reader.read_u64("orchard_anchor_height_pairs") {
        Ok(v) => v,
        Err(e) => {
            return Err(e);
        },
    };
    let mut out: Vec<(Vec<u8>, u32)> = Vec::new();
    let mut i: u64 = 0;
    while i < count
        invariant
            external_version == 25,
            reader.wf(),
            data == old(reader).data_seq(),
            p == old(reader).pos(),
            old(reader).spec_remaining() >= 8,
            reader.data_seq() == data,
            count == u64_le(data, p),
            reader.pos() == p + 8 + 36 * i,
            i <= count,
            out@.len() == i,
            forall|k: int|
                0 <= k < i ==> (#[trigger] out@[k]).0@ == orchard_anchor_at(data, p, k)
                    && out@[k].1 == u32_le(data, p + 8 + 36 * k + 32),
            forall|k: int| 0 <= k < i ==> anchor_valid(#[trigger] orchard_anchor_at(data, p, k)),
        decreases count - i,
    {
        let anchor_bytes = match reader.read_exact_vec("orchard_anchor_height_pairs", 32) {
            Ok(v) => v,
            Err(e) => {
                proof {
                    assert(!orchard_pairs_ok(data, p));
                }
                return Err(e);
            },
        };
        if anchor_from_bytes(anchor_bytes.as_slice()).is_none() {
            proof {
                assert(anchor_bytes@ == orchard_anchor_at(data, p, i as int));
                assert(!orchard_pairs_ok(data, p));
            }
            return Err(
                ParseError::Read {
                    label: "orchard_anchor_height_pairs",
                    cause: ReadCause::InvalidData,
                },
            );
        }
        let height = match reader.read_u32("orchard_anchor_height_pairs") {
            Ok(v) => v,
            Err(e) => {
                proof {
                    assert(!orchard_pairs_ok(data, p));
                }
                return Err(e);
            },
        };
        out.push((anchor_bytes, height));
        i = i + 1;
    }
    Ok(out)
}

/// Reads the count-prefixed seed bytes and, when they are non-empty,
/// reconstructs the mnemonic from them as entropy. For format revisions of
/// at least 28 a non-empty seed is followed by a 32-bit account index;
/// older revisions default the index to 0. Empty seed bytes yield no
/// mnemonic, and the account index field is then never read.
pub fn read_seed_mnemonic<'a>(reader: &mut BinaryReader<'a>, external_version: u64) -> (r:
    ParseResult<Option<(bip0039::Mnemonic, u32)>>)
    requires
        old(reader).wf(),
    ensures
        final(reader).wf(),
        final(reader).data_seq() == old(reader).data_seq(),
        old(reader).pos() <= final(reader).pos(),
        ({
            let data = old(reader).data_seq();
            let p = old(reader).pos();
            let rem = old(reader).spec_remaining();
            let n = u64_le(data, p);
            &&& rem < 8 ==> (r matches Err(e) && is_end_of_input(e, "seed_bytes"@)) && final(reader).pos() == p
            &&& rem >= 8 && n > usize::MAX ==> (r matches Err(e) && e
                == (ParseError::LengthOverflow { label: "seed_bytes", length: n as u64 })) && final(reader).pos() == p + 8
            &&& rem >= 8 && n <= usize::MAX && rem < 8 + n ==> (r matches Err(e)
                && is_end_of_input(e, "seed_bytes"@)) && final(reader).pos() == p + 8
            &&& rem >= 8 && n <= usize::MAX && rem >= 8 + n ==> {
                &&& n == 0 ==> (r matches Ok(m) && m is None) && final(reader).pos() == p + 8
                &&& n > 0 && external_version >= 28 ==> {
                    &&& rem < 8 + n + 4 ==> (r matches Err(e) && is_end_of_input(
                        e,
                        "account_index"@,
                    )) && final(reader).pos() == p + 8 + n
                    &&& rem >= 8 + n + 4 ==> final(reader).pos() == p + 8 + n + 4 && {
                        &&& valid_entropy_len(n) ==> (r matches Ok(m) && m matches Some(pair)
                            && pair.1 == u32_le(data, p + 8 + n))
                        &&& !valid_entropy_len(n) ==> (r matches Err(e) && e
                            == (ParseError::MnemonicEntropy { entropy_len: n as usize }))
                    }
                }
                &&& n > 0 && external_version < 28 ==> final(reader).pos() == p + 8 + n && {
                    &&& valid_entropy_len(n) ==> (r matches Ok(m) && m matches Some(pair)
                        && pair.1 == 0)
                    &&& !valid_entropy_len(n) ==> (r matches Err(e) && e
                        == (ParseError::MnemonicEntropy { entropy_len: n as usize }))
                }
            }
        }),
{
    let count = match reader.read_u64("seed_bytes") {
        Ok(v) => v,
        Err(e) => {
            return Err(e);
        },
    };
    if count > usize::MAX as u64 {
        return Err(ParseError::LengthOverflow { label: "seed_bytes", length: count });
    }
    let seed_bytes = match reader.read_exact_vec("seed_bytes", count as usize) {
        Ok(v) => v,
        Err(e) => {
            return Err(e);
        },
    };
    if seed_bytes.len() == 0 {
        return Ok(None);
    }
    let account_index = if external_version >= 28 {
        match reader.read_u32("account_index") {
            Ok(v) => v,
            Err(e) => {
                return Err(e);
            },
        }
    } else {
        0
    };
    match mnemonic_from_entropy(seed_bytes.as_slice()) {
        Ok(mnemonic) => Ok(Some((mnemonic, account_index))),
        Err(_) => Err(ParseError::MnemonicEntropy { entropy_len: seed_bytes.len() }),
    }
}

/// Decoder for one wallet snapshot: a byte reader over the dump plus the
/// knowledge of which fields each format revision carries.
#[derive(Debug)]
pub struct ZingoParser<'a> {
    reader: BinaryReader<'a>,
}

impl<'a> ZingoParser<'a> {
    /// The whole underlying buffer.
    pub closed spec fn data_seq(self) -> Seq<u8> {
        self.reader.data_seq()
    }

    /// The current cursor position.
    pub closed spec fn pos(self) -> int {
        self.reader.pos()
    }

    pub open spec fn wf(self) -> bool {
        0 <= self.pos() <= self.data_seq().len()
    }

    /// Number of bytes between the cursor and the end of the buffer.
    pub open spec fn spec_remaining(self) -> int {
        self.data_seq().len() - self.pos()
    }

    /// The highest format revision this engine understands.
    pub fn serialized_version() -> (r: u64)
        ensures
            r == 31,
    {
        31u64
    }

    pub fn new(dump: &'a [u8]) -> (r: Self)
        ensures
            r.wf(),
            r.data_seq() == dump@,
            r.pos() == 0,
    {
        ZingoParser { reader: BinaryReader::new(dump) }
    }

    /// Parses one complete wallet record using the decoders' own default
    /// chain context.
    pub fn parse<D: ZingoDecoders>(&mut self, decoders: &mut D) -> (r: ParseResult<ZingoWallet<D>>)
        requires
            old(self).wf(),
        ensures
            final(self).wf(),
            final(self).data_seq() == old(self).data_seq(),
            old(self).pos() <= final(self).pos(),
            old(self).spec_remaining() < 8 ==> (r matches Err(e) && is_end_of_input(
                e,
                "external_version"@,
            )) && final(self).pos() == old(self).pos(),
            old(self).spec_remaining() >= 8 && u64_le(old(self).data_seq(), old(self).pos()) > 31
                ==> (r matches Err(e) && e == (ParseError::UnsupportedWalletVersion {
                found: u64_le(old(self).data_seq(), old(self).pos()) as u64,
                max: 31,
            })) && final(self).pos() == old(self).pos() + 8,
            r matches Ok(w) ==> {
                &&& old(self).spec_remaining() >= 8
                &&& w.external_version == u64_le(old(self).data_seq(), old(self).pos())
                &&& w.external_version <= 31
                &&& w.remaining == final(self).spec_remaining()
            },
            r matches Err(e) ==> (e matches ParseError::UnsupportedWalletVersion { found, max }
                ==> old(self).spec_remaining() >= 8 && found == u64_le(
                old(self).data_seq(),
                old(self).pos(),
            ) && found > 31 && max == 31),
            r matches Err(e) ==> (is_read_error(e, "external_version"@) ==> old(
                self,
            ).spec_remaining() < 8 && is_end_of_input(e, "external_version"@)),
            r matches Err(e) ==> !(e matches ParseError::RemainingBytes { .. }),
    {
        let param = decoders.default_context();
        self.parse_with_param(decoders, param)
    }

    /// Parses one complete wallet record, handing `param` to the
    /// wallet-capability decoder as its chain context.
    ///
    /// The decode protocol is a fixed ladder: version, capability, block
    /// list (reversed for revisions up to 14), transactions (legacy or
    /// current layout by version), chain name, wallet options (defaulted up
    /// to revision 23), birthday, the discarded sapling flag (revisions 13
    /// to 22), the optional verified tree (revisions above 21), price info
    /// (defaulted up to revision 13), the orchard pair list (revision 25
    /// only), and the seed bytes with their mnemonic and account index.
    /// Trailing bytes are permitted and only counted.
    pub fn parse_with_param<D: ZingoDecoders>(
        &mut self,
        decoders: &mut D,
        param: D::Context,
    ) -> (r: ParseResult<ZingoWallet<D>>)
        requires
            old(self).wf(),
        ensures
            final(self).wf(),
            final(self).data_seq() == old(self).data_seq(),
            old(self).pos() <= final(self).pos(),
            old(self).spec_remaining() < 8 ==> (r matches Err(e) && is_end_of_input(
                e,
                "external_version"@,
            )) && final(self).pos() == old(self).pos(),
            old(self).spec_remaining() >= 8 && u64_le(old(self).data_seq(), old(self).pos()) > 31
                ==> (r matches Err(e) && e == (ParseError::UnsupportedWalletVersion {
                found: u64_le(old(self).data_seq(), old(self).pos()) as u64,
                max: 31,
            })) && final(self).pos() == old(self).pos() + 8,
            r matches Ok(w) ==> {
                &&& old(self).spec_remaining() >= 8
                &&& w.external_version == u64_le(old(self).data_seq(), old(self).pos())
                &&& w.external_version <= 31
                &&& w.remaining == final(self).spec_remaining()
            },
            r matches Err(e) ==> (e matches ParseError::UnsupportedWalletVersion { found, max }
                ==> old(self).spec_remaining() >= 8 && found == u64_le(
                old(self).data_seq(),
                old(self).pos(),
            ) && found > 31 && max == 31),
            r matches Err(e) ==> (is_read_error(e, "external_version"@) ==> old(
                self,
            ).spec_remaining() < 8 && is_end_of_input(e, "external_version"@)),
            r matches Err(e) ==> !(e matches ParseError::RemainingBytes { .. }),
    {
        proof {
            // No later step's error can carry the version label: the label
            // lengths — and a first character where the lengths agree —
            // tell the literals apart.
            reveal_strlit("external_version");
            reveal_strlit("BlockData");
            reveal_strlit("chain_name");
            reveal_strlit("birthday");
            reveal_strlit("sapling_tree_verified");
            reveal_strlit("TreeState");
            reveal_strlit("orchard_anchor_height_pairs");
            reveal_strlit("seed_bytes");
            reveal_strlit("account_index");
            reveal_strlit("WalletCapability");
            reveal_strlit("TxMap old");
            reveal_strlit("TxMap");
            reveal_strlit("WalletOptions");
            reveal_strlit("WalletZecPriceInfo");
            assert("external_version"@.len() == 16);
            assert("WalletCapability"@.len() == 16);
            assert("TxMap old"@.len() == 9);
            assert("TxMap"@.len() == 5);
            assert("WalletOptions"@.len() == 13);
            assert("WalletZecPriceInfo"@.len() == 18);
            assert("WalletCapability"@[0] == 'W');
            assert("external_version"@[0] == 'e');
            assert("BlockData"@.len() == 9);
            assert("chain_name"@.len() == 10);
            assert("birthday"@.len() == 8);
            assert("sapling_tree_verified"@.len() == 21);
            assert("TreeState"@.len() == 9);
            assert("orchard_anchor_height_pairs"@.len() == 27);
            assert("seed_bytes"@.len() == 10);
            assert("account_index"@.len() == 13);
        }
        let external_version = match self.reader.read_u64("external_version") {
            Ok(v) => v,
            Err(e) => {
                return Err(e);
            },
        };
        if external_version > Self::serialized_version() {
            return Err(
                ParseError::UnsupportedWalletVersion {
                    found: external_version,
                    max: Self::serialized_version(),
                },
            );
        }
        let wallet_capability = match delegate_capability(&mut self.reader, decoders, &param) {
            Ok(v) => v,
            Err(e) => {
                return Err(e);
            },
        };
        let raw_blocks = match read_block_list(&mut self.reader, decoders) {
            Ok(v) => v,
            Err(e) => {
                return Err(e);
            },
        };
        let blocks = normalize_block_order(external_version, raw_blocks);
        let transactions = match delegate_transactions(
            &mut self.reader,
            decoders,
            &wallet_capability,
            external_version,
        ) {
            Ok(v) => v,
            Err(e) => {
                return Err(e);
            },
        };
        let chain_name = match self.reader.read_string_with_u64_length("chain_name") {
            Ok(v) => v,
            Err(e) => {
                return Err(e);
            },
        };
        let wallet_options = match read_wallet_options(
            &mut self.reader,
            decoders,
            external_version,
        ) {
            Ok(v) => v,
            Err(e) => {
                return Err(e);
            },
        };
        let birthday = match self.reader.read_u64("birthday") {
            Ok(v) => v,
            Err(e) => {
                return Err(e);
            },
        };
        match read_sapling_flag(&mut self.reader, external_version) {
            Ok(_) => (),
            Err(e) => {
                return Err(e);
            },
        };
        let verified_tree = match read_verified_tree(&mut self.reader, decoders, external_version) {
            Ok(v) => v,
            Err(e) => {
                return Err(e);
            },
        };
        let price = match read_price_info(&mut self.reader, decoders, external_version) {
            Ok(v) => v,
            Err(e) => {
                return Err(e);
            },
        };
        let _orchard_anchor_height_pairs = match read_orchard_pairs(
            &mut self.reader,
            external_version,
        ) {
            Ok(v) => v,
            Err(e) => {
                return Err(e);
            },
        };
        let mnemonic = match read_seed_mnemonic(&mut self.reader, external_version) {
            Ok(v) => v,
            Err(e) => {
                return Err(e);
            },
        };
        let remaining = self.reader.remaining();
        Ok(
            ZingoWallet::new(
                external_version,
                chain_name,
                birthday,
                mnemonic,
                wallet_options,
                wallet_capability,
                verified_tree,
                price,
                blocks,
                transactions,
                remaining,
            ),
        )
    }
}

} // verus!
