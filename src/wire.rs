//! The wire format as mathematics: each primitive read is a function from a
//! cursor state to a value and the next state, or to the error that stops the
//! decode. The executable decoder is proved to follow these functions exactly.
use crate::error::Error;
use vstd::prelude::*;
use vstd::utf8::{decode_utf8, valid_utf8};

verus! {

/// Where a decode stands: the whole buffer, the read position, and the byte
/// order fixed by the header (`None` until the header has been read,
/// `Some(true)` when raw numbers are stored big-endian).
pub struct Cursor {
    pub input: Seq<u8>,
    pub pos: int,
    pub swap: Option<bool>,
}

impl Cursor {
    /// The same cursor moved `n` bytes forward.
    pub open spec fn advance(self, n: int) -> Cursor {
        Cursor { pos: self.pos + n, ..self }
    }

    /// Whether at least `n` bytes remain.
    pub open spec fn has(self, n: int) -> bool {
        self.pos + n <= self.input.len()
    }
}

/// The outcome of one decode step: a value and the state after it, or an error.
pub type Step<T> = Result<(T, Cursor), Error>;

/// An executable result `r`, with the decoder left at `after`, is what the
/// step `s` describes: the same value (through its deep view) and state, or
/// the same error.
pub open spec fn decoded<T: DeepView>(r: Result<T, Error>, after: Cursor, s: Step<T::V>) -> bool {
    match s {
        Ok((v, c)) => r is Ok && r->Ok_0.deep_view() == v && after == c,
        Err(e) => r == Err::<T, Error>(e),
    }
}

/// The fixed ASCII signature that opens every container,
/// `CMU_FLITE_CG_VOXDATA-v2.0`.
pub open spec fn signature() -> Seq<u8> {
    seq![
        67, 77, 85, 95, 70, 76, 73, 84, 69, 95, 67, 71, 95,
        86, 79, 88, 68, 65, 84, 65, 45, 118, 50, 46, 48,
    ]
}

/// Four bytes from `p` on, least significant first.
pub open spec fn le_word(b: Seq<u8>, p: int) -> u32 {
    (b[p] + 256 * b[p + 1] + 65536 * b[p + 2] + 16777216 * b[p + 3]) as u32
}

/// Four bytes from `p` on, most significant first.
pub open spec fn be_word(b: Seq<u8>, p: int) -> u32 {
    (b[p + 3] + 256 * b[p + 2] + 65536 * b[p + 1] + 16777216 * b[p]) as u32
}

/// A 4-byte little-endian count.
pub open spec fn count_spec(c: Cursor) -> Step<u32> {
    if c.has(4) {
        Ok((le_word(c.input, c.pos), c.advance(4)))
    } else {
        Err(Error::Eof)
    }
}

/// The header check. Once the byte order is known it does nothing; before
/// that it needs the signature and a null separator at the position, then
/// reads the byte-order marker: 1 means native order, anything else swapped.
pub open spec fn validate_spec(c: Cursor) -> Step<()> {
    if c.swap is Some {
        Ok(((), c))
    } else if !(c.has(26) && c.input.subrange(c.pos, c.pos + 25) == signature()
        && c.input[c.pos + 25] == 0) {
        Err(Error::InvalidHeader)
    } else if !c.has(30) {
        Err(Error::Eof)
    } else {
        Ok(((), Cursor { swap: Some(le_word(c.input, c.pos + 26) != 1), ..c.advance(30) }))
    }
}

/// One raw 4-byte slot read in the byte order of the header (native until
/// the header has been read).
pub open spec fn word_spec(c: Cursor) -> Step<u32> {
    if !c.has(4) {
        Err(Error::Eof)
    } else if c.swap == Some(true) {
        Ok((be_word(c.input, c.pos), c.advance(4)))
    } else {
        Ok((le_word(c.input, c.pos), c.advance(4)))
    }
}

/// The low eight bits of a raw slot.
pub open spec fn u8_spec(c: Cursor) -> Step<u8> {
    match word_spec(c) {
        Ok((w, c1)) => Ok(((w % 256) as u8, c1)),
        Err(e) => Err(e),
    }
}

/// The low sixteen bits of a raw slot.
pub open spec fn u16_spec(c: Cursor) -> Step<u16> {
    match word_spec(c) {
        Ok((w, c1)) => Ok(((w % 65536) as u16, c1)),
        Err(e) => Err(e),
    }
}

/// A word read as a two's-complement signed number.
pub open spec fn signed(w: u32) -> i32 {
    if w < 0x8000_0000 {
        w as i32
    } else {
        (w - 0x1_0000_0000) as i32
    }
}

/// A raw slot read as a signed 32-bit number.
pub open spec fn i32_spec(c: Cursor) -> Step<i32> {
    match word_spec(c) {
        Ok((w, c1)) => Ok((signed(w), c1)),
        Err(e) => Err(e),
    }
}

/// The payload of a length-prefixed text field, without its terminator: a
/// count `L` that includes one trailing null byte, then `L` bytes.
pub open spec fn text_bytes_spec(c: Cursor) -> Step<Seq<u8>> {
    match count_spec(c) {
        Err(e) => Err(e),
        Ok((n, c1)) => if !c1.has(n as int) {
            Err(Error::Eof)
        } else if n == 0 || c1.input[c1.pos + n - 1] != 0 {
            Err(Error::WrongLength(n as usize))
        } else {
            Ok((c1.input.subrange(c1.pos, c1.pos + n - 1), c1.advance(n as int)))
        },
    }
}

/// A text field: the header check, then a length-prefixed UTF-8 payload.
pub open spec fn str_spec(c: Cursor) -> Step<Seq<char>> {
    match validate_spec(c) {
        Err(e) => Err(e),
        Ok((_, c1)) => match text_bytes_spec(c1) {
            Err(e) => Err(e),
            Ok((b, c2)) => if valid_utf8(b) {
                Ok((decode_utf8(b), c2))
            } else {
                Err(Error::NotUtf8)
            },
        },
    }
}

/// A boolean field once the header is known: a declared size of exactly 1,
/// one data byte (true when nonzero) and its terminator.
pub open spec fn bool_unchecked_spec(c: Cursor) -> Step<bool> {
    match count_spec(c) {
        Err(e) => Err(e),
        Ok((n, c1)) => if n != 1 {
            Err(Error::ExpectedSize(1, n as usize))
        } else if !c1.has(2) {
            Err(Error::Eof)
        } else {
            Ok((c1.input[c1.pos] != 0, c1.advance(2)))
        },
    }
}

/// A boolean field: the header check, then the field.
pub open spec fn bool_spec(c: Cursor) -> Step<bool> {
    match validate_spec(c) {
        Err(e) => Err(e),
        Ok((_, c1)) => bool_unchecked_spec(c1),
    }
}

/// An ASCII decimal digit, `0` (48) to `9` (57).
pub open spec fn is_digit(b: u8) -> bool {
    48 <= b <= 57
}

/// How many decimal digits follow one another from `p` on.
pub open spec fn digit_run(s: Seq<u8>, p: int) -> nat
    decreases s.len() - p,
{
    if 0 <= p < s.len() && is_digit(s[p]) {
        1 + digit_run(s, p + 1)
    } else {
        0
    }
}

/// The number that a string of decimal digits writes.
pub open spec fn decimal(ds: Seq<u8>) -> nat
    decreases ds.len(),
{
    if ds.len() == 0 {
        0
    } else {
        decimal(ds.drop_last()) * 10 + (ds.last() - 48) as nat
    }
}

/// An unsigned number written in decimal as a text field. When the digits
/// end in the null terminator the declared size must be their number plus
/// one. Otherwise the declared payload must be there and end in a null byte;
/// a payload that is empty, holds anything but digits, or writes a value
/// above `max` is malformed.
pub open spec fn text_uint_spec(c: Cursor, max: u128) -> Step<u128> {
    match validate_spec(c) {
        Err(e) => Err(e),
        Ok((_, c1)) => match count_spec(c1) {
            Err(e) => Err(e),
            Ok((n, c2)) => {
                let d = digit_run(c2.input, c2.pos) as int;
                let ds = c2.input.subrange(c2.pos, c2.pos + d);
                if c2.has(d + 1) && c2.input[c2.pos + d] == 0 && d + 1 != n {
                    Err(Error::ExpectedSize((d + 1) as usize, n as usize))
                } else if !c2.has(n as int) {
                    Err(Error::Eof)
                } else if n == 0 || c2.input[c2.pos + n - 1] != 0 {
                    Err(Error::WrongLength(n as usize))
                } else if d + 1 != n || d == 0 || decimal(ds) > max {
                    Err(Error::ParseInt)
                } else {
                    Ok((decimal(ds) as u128, c2.advance(n as int)))
                }
            },
        },
    }
}

/// A text field whose payload must equal `name`: how a record announces
/// each of its fields.
pub open spec fn field_spec(c: Cursor, name: &'static str) -> Step<()> {
    match str_spec(c) {
        Err(e) => Err(e),
        Ok((s, c1)) => if s == name@ {
            Ok(((), c1))
        } else {
            Err(Error::FieldNotFound(name))
        },
    }
}

/// What every read keeps, whatever its outcome: the decoder stays on the
/// same buffer, its position never moves back, and a byte order once fixed
/// stays fixed.
pub open spec fn kept(before: Cursor, after: Cursor) -> bool {
    &&& after.input == before.input
    &&& before.pos <= after.pos
    &&& (before.swap is Some ==> after.swap == before.swap)
}

/// A step that succeeded kept the decoder's state, moved forward and did
/// not run past the end of the buffer.
pub open spec fn moved_forward<T>(c: Cursor, s: Step<T>) -> bool {
    s matches Ok((_, c2)) ==> kept(c, c2) && c.pos < c2.pos <= c2.input.len()
}

/// Like [`moved_forward`], where the step may also stand still.
pub open spec fn moved<T>(c: Cursor, s: Step<T>) -> bool {
    s matches Ok((_, c2)) ==> kept(c, c2) && (c.pos < c2.pos ==> c2.pos <= c2.input.len())
}

pub proof fn lemma_digit_run(s: Seq<u8>, p: int)
    requires
        0 <= p <= s.len(),
    ensures
        p + digit_run(s, p) <= s.len(),
        forall|i: int| p <= i < p + digit_run(s, p) ==> is_digit(#[trigger] s[i]),
        p + digit_run(s, p) < s.len() ==> !is_digit(s[p + digit_run(s, p)]),
    decreases s.len() - p,
{
    if p < s.len() && is_digit(s[p]) {
        lemma_digit_run(s, p + 1);
    }
}

pub proof fn lemma_decimal_prefix(ds: Seq<u8>, i: int)
    requires
        0 <= i <= ds.len(),
    ensures
        decimal(ds.subrange(0, i)) <= decimal(ds),
    decreases ds.len() - i,
{
    if i < ds.len() {
        lemma_decimal_prefix(ds, i + 1);
        let pre = ds.subrange(0, i + 1);
        assert(pre.drop_last() =~= ds.subrange(0, i));
        assert(decimal(pre) == decimal(ds.subrange(0, i)) * 10 + (pre.last() - 48) as nat);
    } else {
        assert(ds.subrange(0, i) =~= ds);
    }
}

} // verus!
