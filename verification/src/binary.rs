//! Length-checked byte reader over a borrowed buffer.
//!
//! A cursor over a caller-owned, read-only byte sequence, providing labeled,
//! length-checked primitive reads (little-endian integers, booleans,
//! length-prefixed strings, exact-length byte runs) and a delegation hook
//! through which an external decode function can consume bytes from the same
//! cursor while inheriting this layer's error labeling.

use vstd::prelude::*;

use crate::error::{DecodeFailure, ParseError, ParseResult, ReadCause};

verus! {

/// Little-endian value of the four bytes of `s` starting at `i`.
pub open spec fn u32_le(s: Seq<u8>, i: int) -> int {
    s[i] + s[i + 1] * 0x100 + s[i + 2] * 0x1_0000 + s[i + 3] * 0x100_0000
}

/// Little-endian value of the eight bytes of `s` starting at `i`.
pub open spec fn u64_le(s: Seq<u8>, i: int) -> int {
    s[i] + s[i + 1] * 0x100 + s[i + 2] * 0x1_0000 + s[i + 3] * 0x100_0000
        + s[i + 4] * 0x1_0000_0000 + s[i + 5] * 0x100_0000_0000
        + s[i + 6] * 0x1_0000_0000_0000 + s[i + 7] * 0x100_0000_0000_0000
}

/// The eight-byte little-endian encoding of `n`.
pub open spec fn u64_le_bytes(n: u64) -> Seq<u8> {
    seq![
        (n as int % 0x100) as u8,
        (n as int / 0x100 % 0x100) as u8,
        (n as int / 0x1_0000 % 0x100) as u8,
        (n as int / 0x100_0000 % 0x100) as u8,
        (n as int / 0x1_0000_0000 % 0x100) as u8,
        (n as int / 0x100_0000_0000 % 0x100) as u8,
        (n as int / 0x1_0000_0000_0000 % 0x100) as u8,
        (n as int / 0x100_0000_0000_0000 % 0x100) as u8,
    ]
}

/// Encoding and decoding of a 64-bit little-endian integer are inverses.
pub proof fn lemma_u64_le_bytes_roundtrip(n: u64)
    ensures
        u64_le_bytes(n).len() == 8,
        u64_le(u64_le_bytes(n), 0) == n,
{
    let v = n as int;
    let q1 = v / 0x100;
    let q2 = v / 0x1_0000;
    let q3 = v / 0x100_0000;
    let q4 = v / 0x1_0000_0000;
    let q5 = v / 0x100_0000_0000;
    let q6 = v / 0x1_0000_0000_0000;
    let q7 = v / 0x100_0000_0000_0000;
    vstd::arithmetic::div_mod::lemma_div_denominator(v, 0x100, 0x100);
    vstd::arithmetic::div_mod::lemma_div_denominator(v, 0x1_0000, 0x100);
    vstd::arithmetic::div_mod::lemma_div_denominator(v, 0x100_0000, 0x100);
    vstd::arithmetic::div_mod::lemma_div_denominator(v, 0x1_0000_0000, 0x100);
    vstd::arithmetic::div_mod::lemma_div_denominator(v, 0x100_0000_0000, 0x100);
    vstd::arithmetic::div_mod::lemma_div_denominator(v, 0x1_0000_0000_0000, 0x100);
    assert(q2 == q1 / 0x100 && q3 == q2 / 0x100 && q4 == q3 / 0x100 && q5 == q4 / 0x100 && q6
        == q5 / 0x100 && q7 == q6 / 0x100);
    vstd::arithmetic::div_mod::lemma_fundamental_div_mod(v, 0x100);
    vstd::arithmetic::div_mod::lemma_fundamental_div_mod(q1, 0x100);
    vstd::arithmetic::div_mod::lemma_fundamental_div_mod(q2, 0x100);
    vstd::arithmetic::div_mod::lemma_fundamental_div_mod(q3, 0x100);
    vstd::arithmetic::div_mod::lemma_fundamental_div_mod(q4, 0x100);
    vstd::arithmetic::div_mod::lemma_fundamental_div_mod(q5, 0x100);
    vstd::arithmetic::div_mod::lemma_fundamental_div_mod(q6, 0x100);
    assert(q7 < 0x100) by {
        vstd::arithmetic::div_mod::lemma_multiply_divide_lt(v, 0x100_0000_0000_0000, 0x100);
    };
    assert(q7 >= 0) by {
        vstd::arithmetic::div_mod::lemma_div_pos_is_pos(v, 0x100_0000_0000_0000);
    };
    assert(q7 % 0x100 == q7) by {
        vstd::arithmetic::div_mod::lemma_small_mod(q7 as nat, 0x100);
    };
}

/// Law: a string survives a length-prefixed round trip. For any byte
/// sequence that is the UTF-8 encoding of a string `s`, a buffer holding the
/// byte count as a 64-bit little-endian prefix followed by those bytes — and
/// then anything at all — satisfies, at position 0, exactly the success
/// conditions under which `read_string_with_u64_length` returns a string,
/// and the string it returns is `s`.
pub proof fn lemma_string_round_trip(bytes: Seq<u8>, s: Seq<char>, tail: Seq<u8>)
    requires
        utf8_decode(bytes) == Some(s),
        bytes.len() <= u64::MAX,
    ensures
        ({
            let data = u64_le_bytes(bytes.len() as u64) + bytes + tail;
            &&& data.len() == 8 + bytes.len() + tail.len()
            &&& u64_le(data, 0) == bytes.len()
            &&& data.subrange(8, 8 + bytes.len() as int) == bytes
            &&& utf8_decode(data.subrange(8, 8 + bytes.len() as int)) == Some(s)
        }),
{
    let n = bytes.len() as u64;
    lemma_u64_le_bytes_roundtrip(n);
    let data = u64_le_bytes(n) + bytes + tail;
    assert forall|i: int| 0 <= i < 8 implies data[i] == u64_le_bytes(n)[i] by {}
    assert(u64_le(data, 0) == u64_le(u64_le_bytes(n), 0));
    assert(data.subrange(8, 8 + bytes.len() as int) =~= bytes);
}

/// What decoding a byte sequence as UTF-8 yields: the character sequence of
/// the unique string the bytes encode, or nothing when the bytes are not
/// valid UTF-8.
pub uninterp spec fn utf8_decode(bytes: Seq<u8>) -> Option<Seq<char>>;

/// Relies on `String::from_utf8`: it succeeds exactly on valid UTF-8 input
/// and then returns the string those bytes encode; the empty run is valid
/// and decodes to the empty string.
#[verifier::external_body]
fn string_from_utf8(bytes: Vec<u8>) -> (r: Result<String, ()>)
    ensures
        r is Ok <==> utf8_decode(bytes@) is Some,
        r is Ok ==> Some(r.unwrap()@) == utf8_decode(bytes@),
        bytes@.len() == 0 ==> r is Ok && r.unwrap()@.len() == 0,
{
    String::from_utf8(bytes).map_err(|_| ())
}

/// Thin cursor over a borrowed byte buffer that provides length-checked
/// reads and contextual error reporting. The buffer is never mutated; the
/// position only ever moves forward, by exactly the number of bytes a
/// successful read consumes.
#[derive(Debug)]
pub struct BinaryReader<'a> {
    data: &'a [u8],
    position: usize,
}

impl<'a> BinaryReader<'a> {
    /// The whole underlying buffer.
    pub closed spec fn data_seq(self) -> Seq<u8> {
        self.data@
    }

    /// The current cursor position.
    pub closed spec fn pos(self) -> int {
        self.position as int
    }

    /// The cursor never leaves the buffer: 0 <= position <= length.
    pub open spec fn wf(self) -> bool {
        0 <= self.pos() <= self.data_seq().len()
    }

    /// Number of bytes between the cursor and the end of the buffer.
    pub open spec fn spec_remaining(self) -> int {
        self.data_seq().len() - self.pos()
    }

    pub fn new(data: &'a [u8]) -> (r: Self)
        ensures
            r.wf(),
            r.data_seq() == data@,
            r.pos() == 0,
    {
        BinaryReader { data, position: 0 }
    }

    /// Length of the buffer minus the current position; a pure query.
    pub fn remaining(&self) -> (r: usize)
        requires
            self.wf(),
        ensures
            r == self.spec_remaining(),
    {
        self.data.len() - self.position
    }

    /// Reads a single byte.
    pub fn read_u8(&mut self, label: &'static str) -> (r: ParseResult<u8>)
        requires
            old(self).wf(),
        ensures
            final(self).wf(),
            final(self).data_seq() == old(self).data_seq(),
            old(self).spec_remaining() >= 1 ==> r == Ok::<u8, ParseError>(
                old(self).data_seq()[old(self).pos()],
            ) && final(self).pos() == old(self).pos() + 1,
            old(self).spec_remaining() < 1 ==> r == Err::<u8, ParseError>(
                ParseError::Read { label, cause: ReadCause::UnexpectedEnd },
            ) && final(self).pos() == old(self).pos(),
    {
        if self.data.len() - self.position < 1 {
            Err(ParseError::end_of_input(label))
        } else {
            let b = *vstd::slice::slice_index_get(self.data, self.position);
            self.position = self.position + 1;
            Ok(b)
        }
    }

    /// Reads a four-byte little-endian integer.
    pub fn read_u32(&mut self, label: &'static str) -> (r: ParseResult<u32>)
        requires
            old(self).wf(),
        ensures
            final(self).wf(),
            final(self).data_seq() == old(self).data_seq(),
            old(self).spec_remaining() >= 4 ==> (r matches Ok(v)
                && v == u32_le(old(self).data_seq(), old(self).pos()))
                && final(self).pos() == old(self).pos() + 4,
            old(self).spec_remaining() < 4 ==> r == Err::<u32, ParseError>(
                ParseError::Read { label, cause: ReadCause::UnexpectedEnd },
            ) && final(self).pos() == old(self).pos(),
    {
        if self.data.len() - self.position < 4 {
            Err(ParseError::end_of_input(label))
        } else {
            let p = self.position;
            let b0 = *vstd::slice::slice_index_get(self.data, p) as u32;
            let b1 = *vstd::slice::slice_index_get(self.data, p + 1) as u32;
            let b2 = *vstd::slice::slice_index_get(self.data, p + 2) as u32;
            let b3 = *vstd::slice::slice_index_get(self.data, p + 3) as u32;
            self.position = p + 4;
            Ok(b0 + b1 * 0x100 + b2 * 0x1_0000 + b3 * 0x100_0000)
        }
    }

    /// Reads an eight-byte little-endian integer.
    pub fn read_u64(&mut self, label: &'static str) -> (r: ParseResult<u64>)
        requires
            old(self).wf(),
        ensures
            final(self).wf(),
            final(self).data_seq() == old(self).data_seq(),
            old(self).spec_remaining() >= 8 ==> (r matches Ok(v)
                && v == u64_le(old(self).data_seq(), old(self).pos()))
                && final(self).pos() == old(self).pos() + 8,
            old(self).spec_remaining() < 8 ==> r == Err::<u64, ParseError>(
                ParseError::Read { label, cause: ReadCause::UnexpectedEnd },
            ) && final(self).pos() == old(self).pos(),
    {
        if self.data.len() - self.position < 8 {
            Err(ParseError::end_of_input(label))
        } else {
            let p = self.position;
            let b0 = *vstd::slice::slice_index_get(self.data, p) as u64;
            let b1 = *vstd::slice::slice_index_get(self.data, p + 1) as u64;
            let b2 = *vstd::slice::slice_index_get(self.data, p + 2) as u64;
            let b3 = *vstd::slice::slice_index_get(self.data, p + 3) as u64;
            let b4 = *vstd::slice::slice_index_get(self.data, p + 4) as u64;
            let b5 = *vstd::slice::slice_index_get(self.data, p + 5) as u64;
            let b6 = *vstd::slice::slice_index_get(self.data, p + 6) as u64;
            let b7 = *vstd::slice::slice_index_get(self.data, p + 7) as u64;
            self.position = p + 8;
            Ok(b0 + b1 * 0x100 + b2 * 0x1_0000 + b3 * 0x100_0000 + b4 * 0x1_0000_0000
                + b5 * 0x100_0000_0000 + b6 * 0x1_0000_0000_0000 + b7 * 0x100_0000_0000_0000)
        }
    }

    /// Reads one byte that must be exactly 0 or 1; any other value is an
    /// `InvalidBoolean` error (the byte itself was read successfully, but
    /// its meaning is invalid).
    pub fn read_bool(&mut self, label: &'static str) -> (r: ParseResult<bool>)
        requires
            old(self).wf(),
        ensures
            final(self).wf(),
            final(self).data_seq() == old(self).data_seq(),
            old(self).spec_remaining() < 1 ==> r == Err::<bool, ParseError>(
                ParseError::Read { label, cause: ReadCause::UnexpectedEnd },
            ) && final(self).pos() == old(self).pos(),
            old(self).spec_remaining() >= 1 ==> final(self).pos() == old(self).pos() + 1 && {
                let b = old(self).data_seq()[old(self).pos()];
                &&& b == 0 ==> r == Ok::<bool, ParseError>(false)
                &&& b == 1 ==> r == Ok::<bool, ParseError>(true)
                &&& b > 1 ==> r == Err::<bool, ParseError>(
                    ParseError::InvalidBoolean { label, value: b },
                )
            },
    {
        match self.read_u8(label) {
            Err(e) => Err(e),
            Ok(0u8) => Ok(false),
            Ok(1u8) => Ok(true),
            Ok(value) => Err(ParseError::InvalidBoolean { label, value }),
        }
    }

    /// Reads exactly `length` bytes into an owned vector.
    pub fn read_exact_vec(&mut self, label: &'static str, length: usize) -> (r: ParseResult<
        Vec<u8>,
    >)
        requires
            old(self).wf(),
        ensures
            final(self).wf(),
            final(self).data_seq() == old(self).data_seq(),
            old(self).spec_remaining() >= length ==> (r matches Ok(v) && v@ == old(
                self,
            ).data_seq().subrange(old(self).pos(), old(self).pos() + length)) && final(self).pos()
                == old(self).pos() + length,
            old(self).spec_remaining() < length ==> r == Err::<Vec<u8>, ParseError>(
                ParseError::Read { label, cause: ReadCause::UnexpectedEnd },
            ) && final(self).pos() == old(self).pos(),
    {
        let buffer_len = self.data.len();
        if buffer_len - self.position < length {
            Err(ParseError::end_of_input(label))
        } else {
            let p = self.position;
            let mut out: Vec<u8> = Vec::new();
            let mut i: usize = 0;
            while i < length
                invariant
                    self.wf(),
                    p == self.pos(),
                    p + length <= self.data_seq().len(),
                    self.data_seq().len() <= usize::MAX,
                    i <= length,
                    out@ == self.data_seq().subrange(p as int, p + i),
                decreases length - i,
            {
                let b = *vstd::slice::slice_index_get(self.data, p + i);
                out.push(b);
                i = i + 1;
                proof {
                    assert(out@ =~= self.data_seq().subrange(p as int, p + i));
                }
            }
            self.position = p + length;
            Ok(out)
        }
    }

    /// Reads a 64-bit length, converts it to the platform size, reads that
    /// many bytes and decodes them as UTF-8.
    pub fn read_string_with_u64_length(&mut self, label: &'static str) -> (r: ParseResult<String>)
        requires
            old(self).wf(),
        ensures
            final(self).wf(),
            final(self).data_seq() == old(self).data_seq(),
            old(self).spec_remaining() < 8 ==> r == Err::<String, ParseError>(
                ParseError::Read { label, cause: ReadCause::UnexpectedEnd },
            ) && final(self).pos() == old(self).pos(),
            old(self).spec_remaining() >= 8 ==> {
                let n = u64_le(old(self).data_seq(), old(self).pos());
                &&& n > usize::MAX ==> r == Err::<String, ParseError>(
                    ParseError::LengthOverflow { label, length: n as u64 },
                ) && final(self).pos() == old(self).pos() + 8
                &&& n <= usize::MAX && old(self).spec_remaining() < 8 + n ==> r == Err::<
                    String,
                    ParseError,
                >(ParseError::Read { label, cause: ReadCause::UnexpectedEnd }) && final(self).pos()
                    == old(self).pos() + 8
                &&& n <= usize::MAX && old(self).spec_remaining() >= 8 + n ==> {
                    let bytes = old(self).data_seq().subrange(
                        old(self).pos() + 8,
                        old(self).pos() + 8 + n,
                    );
                    &&& final(self).pos() == old(self).pos() + 8 + n
                    &&& utf8_decode(bytes) is None ==> r == Err::<String, ParseError>(
                        ParseError::InvalidString { label },
                    )
                    &&& utf8_decode(bytes) is Some ==> (r matches Ok(s) && Some(s@) == utf8_decode(
                        bytes,
                    ))
                    &&& n == 0 ==> (r matches Ok(s) && s@.len() == 0)
                }
            },
    {
        let length = match self.read_u64(label) {
            Ok(v) => v,
            Err(e) => {
                return Err(e);
            },
        };
        if length > usize::MAX as u64 {
            return Err(ParseError::LengthOverflow { label, length });
        }
        let bytes = match self.read_exact_vec(label, length as usize) {
            Ok(v) => v,
            Err(e) => {
                return Err(e);
            },
        };
        match string_from_utf8(bytes) {
            Ok(s) => Ok(s),
            Err(_) => Err(ParseError::InvalidString { label }),
        }
    }

    /// The bytes between the cursor and the end of the buffer, for handing
    /// to an external decode function.
    pub fn remaining_slice(&self) -> (r: &[u8])
        requires
            self.wf(),
        ensures
            r@ == self.data_seq().subrange(self.pos(), self.data_seq().len() as int),
    {
        vstd::slice::slice_subrange(self.data, self.position, self.data.len())
    }

    /// Moves the cursor forward over `amount` bytes that an external decode
    /// function has consumed.
    pub fn consume(&mut self, amount: usize)
        requires
            old(self).wf(),
            amount <= old(self).spec_remaining(),
        ensures
            final(self).wf(),
            final(self).data_seq() == old(self).data_seq(),
            final(self).pos() == old(self).pos() + amount,
    {
        let buffer_len = self.data.len();
        assert(self.position + amount <= buffer_len);
        self.position = self.position + amount;
    }

    /// The bytes a delegated decode function is handed: everything between
    /// the cursor and the end of the buffer.
    pub open spec fn handed_tail(self) -> Seq<u8> {
        self.data_seq().subrange(self.pos(), self.data_seq().len() as int)
    }

    /// Invokes an externally supplied decode function against the bytes
    /// remaining at the cursor. The function reports the value it decoded
    /// and how many bytes it consumed; the cursor advances by exactly that
    /// amount. Any failure it raises is translated into a labeled read
    /// failure, as is a report of more bytes consumed than remained.
    pub fn read_with<T, F: FnOnce(&[u8]) -> Result<(T, usize), DecodeFailure>>(
        &mut self,
        label: &'static str,
        op: F,
    ) -> (r: ParseResult<T>)
        requires
            old(self).wf(),
            forall|s: &[u8]| #[trigger] op.requires((s,)),
        ensures
            final(self).wf(),
            final(self).data_seq() == old(self).data_seq(),
            old(self).pos() <= final(self).pos(),
            r is Ok ==> (exists|s: &[u8], t: T, n: usize|
                (s@ == old(self).handed_tail() && n <= old(self).spec_remaining() && (#[trigger]
                call_ensures(op, (s,), Ok((t, n)))) && r == Ok::<T, ParseError>(t)
                    && final(self).pos() == old(self).pos() + n)),
            r matches Err(e) ==> final(self).pos() == old(self).pos() && (exists|s: &[u8]|
                (s@ == old(self).handed_tail() && ((exists|failure: DecodeFailure|
                    (#[trigger] call_ensures(op, (s,), Err(failure))) && e == (ParseError::Read {
                        label,
                        cause: ReadCause::Collaborator { message: failure.message },
                    })) || (exists|t: T, n: usize|
                    (#[trigger] call_ensures(op, (s,), Ok((t, n)))) && n > old(
                        self,
                    ).spec_remaining() && e == (ParseError::Read {
                        label,
                        cause: ReadCause::InvalidData,
                    }))))),
    {
        let ghost pre = *self;
        let tail = self.remaining_slice();
        match op(tail) {
            Ok((value, consumed)) => {
                if consumed <= self.data.len() - self.position {
                    proof {
                        assert(call_ensures(op, (tail,), Ok::<(T, usize), DecodeFailure>((value, consumed))));
                        assert(tail@ == pre.handed_tail());
                    }
                    self.consume(consumed);
                    Ok(value)
                } else {
                    proof {
                        assert(call_ensures(op, (tail,), Ok::<(T, usize), DecodeFailure>((value, consumed))));
                        assert(tail@ == pre.handed_tail());
                    }
                    Err(ParseError::Read { label, cause: ReadCause::InvalidData })
                }
            },
            Err(failure) => {
                proof {
                    assert(call_ensures(op, (tail,), Err::<(T, usize), DecodeFailure>(failure)));
                    assert(tail@ == pre.handed_tail());
                }
                Err(ParseError::collaborator(label, failure))
            },
        }
    }
}

} // verus!

