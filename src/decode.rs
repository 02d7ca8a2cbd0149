//! Shapes that can be decoded, and how compound shapes are laid out: a
//! dynamic sequence carries its own count, a tuple or a fixed-length array
//! does not, and a map runs to the end of the buffer.
use crate::de::Deserializer;
use crate::error::Error;
use crate::wire::{
    bool_spec, count_spec, decoded, i32_spec, kept, moved, moved_forward, str_spec,
    text_uint_spec, u16_spec, u8_spec, validate_spec, word_spec, Cursor, Step,
};
use vstd::prelude::*;

verus! {

/// A shape that the decoder can read. Its deep view is the value's
/// mathematical model, and [`Decode::spec_decode`] says which model a buffer
/// position decodes to.
pub trait Decode: Sized + DeepView {
    /// What decoding one value of this shape at `c` gives.
    spec fn spec_decode(c: Cursor) -> Step<<Self as DeepView>::V>;

    /// A successful decode consumes at least one byte of the buffer and keeps
    /// a byte order that was already fixed.
    proof fn lemma_decode_moves(c: Cursor)
        ensures
            moved_forward(c, Self::spec_decode(c)),
    ;

    /// Decodes one value of this shape.
    fn decode(d: &mut Deserializer<'_>) -> (r: Result<Self, Error>)
        ensures
            decoded(r, final(d)@, Self::spec_decode(old(d)@)),
            kept(old(d)@, final(d)@),
    ;
}

/// `n` values of one shape, one after the other, with no count before them.
pub open spec fn items_spec<T: Decode>(c: Cursor, n: nat) -> Step<Seq<T::V>>
    decreases n,
{
    if n == 0 {
        Ok((seq![], c))
    } else {
        match items_spec::<T>(c, (n - 1) as nat) {
            Err(e) => Err(e),
            Ok((vs, c1)) => match T::spec_decode(c1) {
                Err(e) => Err(e),
                Ok((v, c2)) => Ok((vs.push(v), c2)),
            },
        }
    }
}

/// A dynamic sequence: the header check, a 4-byte count, then that many
/// values.
pub open spec fn seq_spec<T: Decode>(c: Cursor) -> Step<Seq<T::V>> {
    match validate_spec(c) {
        Err(e) => Err(e),
        Ok((_, c1)) => match count_spec(c1) {
            Err(e) => Err(e),
            Ok((n, c2)) => items_spec::<T>(c2, n as nat),
        },
    }
}

/// A map: keys and values in turn until the buffer is used up.
pub open spec fn entries_spec<K: Decode, V: Decode>(c: Cursor) -> Step<Seq<(K::V, V::V)>>
    decreases c.input.len() - c.pos,
{
    if c.pos >= c.input.len() {
        Ok((seq![], c))
    } else {
        match K::spec_decode(c) {
            Err(e) => Err(e),
            Ok((k, c1)) => match V::spec_decode(c1) {
                Err(e) => Err(e),
                Ok((v, c2)) => {
                    proof {
                        K::lemma_decode_moves(c);
                        V::lemma_decode_moves(c1);
                    }
                    match entries_spec::<K, V>(c2) {
                        Err(e) => Err(e),
                        Ok((rest, c3)) => Ok((seq![(k, v)] + rest, c3)),
                    }
                },
            },
        }
    }
}

/// A top-level value: the header check, then the value.
pub open spec fn top_spec<T: Decode>(input: Seq<u8>) -> Step<T::V> {
    match validate_spec(Cursor { input, pos: 0, swap: None }) {
        Err(e) => Err(e),
        Ok((_, c1)) => T::spec_decode(c1),
    }
}

/// Once an element fails, a longer run of elements fails with the same error.
pub proof fn lemma_items_error<T: Decode>(c: Cursor, i: nat, n: nat)
    requires
        i <= n,
        items_spec::<T>(c, i) is Err,
    ensures
        items_spec::<T>(c, n) == items_spec::<T>(c, i),
    decreases n,
{
    if n > i {
        lemma_items_error::<T>(c, i, (n - 1) as nat);
    }
}

/// A run of elements stays on the buffer and does not move back.
pub proof fn lemma_items_moves<T: Decode>(c: Cursor, n: nat)
    ensures
        moved(c, items_spec::<T>(c, n)),
    decreases n,
{
    if n > 0 {
        lemma_items_moves::<T>(c, (n - 1) as nat);
        if let Ok((_, c1)) = items_spec::<T>(c, (n - 1) as nat) {
            T::lemma_decode_moves(c1);
        }
    }
}

/// A run of `n` elements that succeeds holds exactly `n` of them.
pub proof fn lemma_items_len<T: Decode>(c: Cursor, n: nat)
    ensures
        items_spec::<T>(c, n) matches Ok((vs, _)) ==> vs.len() == n,
    decreases n,
{
    if n > 0 {
        lemma_items_len::<T>(c, (n - 1) as nat);
    }
}

impl Decode for bool {
    open spec fn spec_decode(c: Cursor) -> Step<bool> {
        bool_spec(c)
    }

    proof fn lemma_decode_moves(c: Cursor) {
    }

    fn decode(d: &mut Deserializer<'_>) -> (r: Result<bool, Error>) {
        d.parse_bool()
    }
}

impl Decode for String {
    open spec fn spec_decode(c: Cursor) -> Step<Seq<char>> {
        str_spec(c)
    }

    proof fn lemma_decode_moves(c: Cursor) {
    }

    fn decode(d: &mut Deserializer<'_>) -> (r: Result<String, Error>) {
        d.parse_str()
    }
}

impl Decode for u8 {
    open spec fn spec_decode(c: Cursor) -> Step<u8> {
        u8_spec(c)
    }

    proof fn lemma_decode_moves(c: Cursor) {
    }

    fn decode(d: &mut Deserializer<'_>) -> (r: Result<u8, Error>) {
        d.parse_u8()
    }
}

impl Decode for u16 {
    open spec fn spec_decode(c: Cursor) -> Step<u16> {
        u16_spec(c)
    }

    proof fn lemma_decode_moves(c: Cursor) {
    }

    fn decode(d: &mut Deserializer<'_>) -> (r: Result<u16, Error>) {
        d.parse_u16()
    }
}

impl Decode for u32 {
    open spec fn spec_decode(c: Cursor) -> Step<u32> {
        word_spec(c)
    }

    proof fn lemma_decode_moves(c: Cursor) {
    }

    fn decode(d: &mut Deserializer<'_>) -> (r: Result<u32, Error>) {
        d.parse_u32()
    }
}

impl Decode for i32 {
    open spec fn spec_decode(c: Cursor) -> Step<i32> {
        i32_spec(c)
    }

    proof fn lemma_decode_moves(c: Cursor) {
    }

    fn decode(d: &mut Deserializer<'_>) -> (r: Result<i32, Error>) {
        d.parse_i32()
    }
}

/// A 128-bit number is stored as decimal text.
impl Decode for u128 {
    open spec fn spec_decode(c: Cursor) -> Step<u128> {
        text_uint_spec(c, u128::MAX)
    }

    proof fn lemma_decode_moves(c: Cursor) {
    }

    fn decode(d: &mut Deserializer<'_>) -> (r: Result<u128, Error>) {
        d.parse_u128_text()
    }
}

/// A vector is a dynamic sequence.
impl<T: Decode> Decode for Vec<T> {
    open spec fn spec_decode(c: Cursor) -> Step<Seq<T::V>> {
        seq_spec::<T>(c)
    }

    proof fn lemma_decode_moves(c: Cursor) {
        if let Ok((_, c1)) = validate_spec(c) {
            if let Ok((n, c2)) = count_spec(c1) {
                lemma_items_moves::<T>(c2, n as nat);
            }
        }
    }

    fn decode(d: &mut Deserializer<'_>) -> (r: Result<Vec<T>, Error>) {
        d.parse_seq()
    }
}

/// A pair: its two elements in order, with no count.
impl<A: Decode, B: Decode> Decode for (A, B) {
    open spec fn spec_decode(c: Cursor) -> Step<(A::V, B::V)> {
        match A::spec_decode(c) {
            Err(e) => Err(e),
            Ok((a, c1)) => match B::spec_decode(c1) {
                Err(e) => Err(e),
                Ok((b, c2)) => Ok(((a, b), c2)),
            },
        }
    }

    proof fn lemma_decode_moves(c: Cursor) {
        A::lemma_decode_moves(c);
        if let Ok((_, c1)) = A::spec_decode(c) {
            B::lemma_decode_moves(c1);
        }
    }

    fn decode(d: &mut Deserializer<'_>) -> (r: Result<(A, B), Error>) {
        let a = match A::decode(d) {
            Ok(v) => v,
            Err(e) => return Err(e),
        };
        let b = match B::decode(d) {
            Ok(v) => v,
            Err(e) => return Err(e),
        };
        Ok((a, b))
    }
}

/// A triple: its three elements in order, with no count.
impl<A: Decode, B: Decode, C: Decode> Decode for (A, B, C) {
    open spec fn spec_decode(c: Cursor) -> Step<(A::V, B::V, C::V)> {
        match A::spec_decode(c) {
            Err(e) => Err(e),
            Ok((a, c1)) => match B::spec_decode(c1) {
                Err(e) => Err(e),
                Ok((b, c2)) => match C::spec_decode(c2) {
                    Err(e) => Err(e),
                    Ok((x, c3)) => Ok(((a, b, x), c3)),
                },
            },
        }
    }

    proof fn lemma_decode_moves(c: Cursor) {
        A::lemma_decode_moves(c);
        if let Ok((_, c1)) = A::spec_decode(c) {
            B::lemma_decode_moves(c1);
            if let Ok((_, c2)) = B::spec_decode(c1) {
                C::lemma_decode_moves(c2);
            }
        }
    }

    fn decode(d: &mut Deserializer<'_>) -> (r: Result<(A, B, C), Error>) {
        let a = match A::decode(d) {
            Ok(v) => v,
            Err(e) => return Err(e),
        };
        let b = match B::decode(d) {
            Ok(v) => v,
            Err(e) => return Err(e),
        };
        let x = match C::decode(d) {
            Ok(v) => v,
            Err(e) => return Err(e),
        };
        Ok((a, b, x))
    }
}

} // verus!
