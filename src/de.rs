//! The decoder: a cursor over a borrowed buffer with one read operation per
//! kind of field, each proved to follow its description in [`crate::wire`].
use crate::decode::{entries_spec, items_spec, lemma_items_error, seq_spec, top_spec, Decode};
use crate::error::Error;
use crate::wire::{
    bool_spec, bool_unchecked_spec, count_spec, decimal, decoded, digit_run, field_spec, i32_spec,
    is_digit, kept, lemma_decimal_prefix, lemma_digit_run, signature, str_spec, text_bytes_spec,
    text_uint_spec, u16_spec, u8_spec, validate_spec, word_spec, Cursor,
};
use vstd::prelude::*;
use vstd::slice::{slice_subrange, slice_to_vec};
use vstd::string::StringSliceAdditionalSpecFns;
use vstd::utf8::{decode_utf8, encode_utf8_decode_utf8, valid_utf8};

verus! {

/// Relies on `String::from_utf8`: it succeeds exactly when the bytes are
/// valid UTF-8, and the string then holds the characters they encode.
#[verifier::external_body]
fn string_from_utf8(bytes: Vec<u8>) -> (r: Option<String>)
    ensures
        match r {
            Some(s) => valid_utf8(bytes@) && s@ == decode_utf8(bytes@),
            None => !valid_utf8(bytes@),
        },
{
    String::from_utf8(bytes).ok()
}

/// Whether the signature stands in `input` from `start` on.
fn signature_at(input: &[u8], start: usize) -> (r: bool)
    requires
        start + 25 <= input@.len(),
    ensures
        r == (input@.subrange(start as int, start + 25) == signature()),
{
    let sig: [u8; 25] = [
        // CMU_FLITE_CG_VOXDATA-v2.0
        67, 77, 85, 95, 70, 76, 73, 84, 69, 95, 67, 71, 95,
        86, 79, 88, 68, 65, 84, 65, 45, 118, 50, 46, 48,
    ];
    let mut i: usize = 0;
    while i < 25
        invariant
            i <= 25,
            start + 25 <= input.len(),
            sig@ == signature(),
            forall|j: int| 0 <= j < i ==> input@[start + j] == signature()[j],
        decreases 25 - i,
    {
        if input[start + i] != sig[i] {
            assert(input@.subrange(start as int, start + 25)[i as int] != signature()[i as int]);
            return false;
        }
        i = i + 1;
    }
    assert(input@.subrange(start as int, start + 25) =~= signature());
    true
}

/// Whether two strings hold the same characters.
pub fn str_eq(a: &str, b: &str) -> (r: bool)
    ensures
        r == (a@ == b@),
{
    let x = a.as_bytes();
    let y = b.as_bytes();
    proof {
        encode_utf8_decode_utf8(a@);
        encode_utf8_decode_utf8(b@);
    }
    if x.len() != y.len() {
        return false;
    }
    let mut i: usize = 0;
    while i < x.len()
        invariant
            x.len() == y.len(),
            x@ == a.spec_bytes(),
            y@ == b.spec_bytes(),
            i <= x.len(),
            forall|j: int| 0 <= j < i ==> x@[j] == y@[j],
        decreases x.len() - i,
    {
        if x[i] != y[i] {
            assert(x@ != y@);
            return false;
        }
        i = i + 1;
    }
    assert(x@ =~= y@);
    true
}

/// The value of a string of decimal digits, or `None` where it exceeds `max`.
fn decimal_value(ds: &Vec<u8>, max: u128) -> (r: Option<u128>)
    requires
        max >= 9,
        forall|i: int| 0 <= i < ds@.len() ==> is_digit(#[trigger] ds@[i]),
    ensures
        match r {
            Some(v) => v == decimal(ds@) && v <= max,
            None => decimal(ds@) > max,
        },
{
    let mut v: u128 = 0;
    let mut i: usize = 0;
    while i < ds.len()
        invariant
            i <= ds@.len(),
            v == decimal(ds@.subrange(0, i as int)),
            v <= max,
            max >= 9,
            forall|k: int| 0 <= k < ds@.len() ==> is_digit(#[trigger] ds@[k]),
        decreases ds.len() - i,
    {
        let digit = (ds[i] - 48) as u128;
        proof {
            let pre = ds@.subrange(0, i + 1);
            assert(pre.drop_last() =~= ds@.subrange(0, i as int));
            assert(decimal(pre) == decimal(ds@.subrange(0, i as int)) * 10 + digit);
        }
        if v > (max - digit) / 10 {
            proof {
                assert(v * 10 + digit > max) by (nonlinear_arith)
                    requires
                        v > (max - digit) / 10,
                        digit <= max,
                ;
                lemma_decimal_prefix(ds@, i + 1);
            }
            return None;
        }
        assert(v * 10 + digit <= max) by (nonlinear_arith)
            requires
                v <= (max - digit) / 10,
                digit <= max,
        ;
        v = v * 10 + digit;
        i = i + 1;
    }
    assert(ds@.subrange(0, i as int) =~= ds@);
    Some(v)
}

/// Decodes a CST container. It holds the buffer, the read position, which
/// only moves forward, and the byte order that the header fixes once.
pub struct Deserializer<'de> {
    input: &'de [u8],
    pos: usize,
    byteswapped: Option<bool>,
}

impl<'de> View for Deserializer<'de> {
    type V = Cursor;

    closed spec fn view(&self) -> Cursor {
        Cursor { input: self.input@, pos: self.pos as int, swap: self.byteswapped }
    }
}

impl<'de> Deserializer<'de> {
    /// A decoder at the start of the bytes of `input`.
    pub fn from_str(input: &'de str) -> (r: Self)
        ensures
            r@ == (Cursor { input: input.spec_bytes(), pos: 0, swap: None }),
    {
        Self::from_bytes(input.as_bytes())
    }

    /// A decoder at the start of `input`, before the header has been read.
    pub fn from_bytes(input: &'de [u8]) -> (r: Self)
        ensures
            r@ == (Cursor { input: input@, pos: 0, swap: None }),
    {
        Deserializer { input, pos: 0, byteswapped: None }
    }

    /// Whether the whole buffer has been read.
    pub fn is_empty(&self) -> (r: bool)
        ensures
            r == (self@.pos >= self@.input.len()),
    {
        self.pos >= self.input.len()
    }

    /// Checks the signature and reads the byte-order marker on the first call;
    /// every later call does nothing.
    pub fn validate_header(&mut self) -> (r: Result<(), Error>)
        ensures
            decoded(r, final(self)@, validate_spec(old(self)@)),
            kept(old(self)@, final(self)@),
            r is Err ==> final(self)@ == old(self)@,
    {
        if self.byteswapped.is_some() {
            return Ok(());
        }
        let len = self.input.len();
        if len < 26 || self.pos > len - 26 || !signature_at(self.input, self.pos) {
            return Err(Error::InvalidHeader);
        }
        let start = self.pos;
        if self.input[start + 25] != 0 {
            return Err(Error::InvalidHeader);
        }
        if len < 30 || self.pos > len - 30 {
            return Err(Error::Eof);
        }
        self.pos = start + 26;
        let marker = match self.get_size_of_next() {
            Ok(n) => n,
            Err(e) => return Err(e),
        };
        self.byteswapped = Some(marker != 1);
        Ok(())
    }

    /// Reads a 4-byte little-endian count.
    pub fn get_size_of_next(&mut self) -> (r: Result<usize, Error>)
        ensures
            match count_spec(old(self)@) {
                Ok((n, c)) => r == Ok::<usize, Error>(n as usize) && final(self)@ == c,
                Err(e) => r == Err::<usize, Error>(e) && final(self)@ == old(self)@,
            },
            kept(old(self)@, final(self)@),
    {
        let len = self.input.len();
        if len < 4 || self.pos > len - 4 {
            return Err(Error::Eof);
        }
        let p = self.pos;
        let n = self.input[p] as u32 + 256 * (self.input[p + 1] as u32) + 65536 * (
        self.input[p + 2] as u32) + 16777216 * (self.input[p + 3] as u32);
        self.pos = p + 4;
        Ok(n as usize)
    }

    /// Reads one raw 4-byte slot in the byte order that the header fixed.
    pub fn read_bytes(&mut self) -> (r: Result<u32, Error>)
        ensures
            decoded(r, final(self)@, word_spec(old(self)@)),
            kept(old(self)@, final(self)@),
            r is Err ==> final(self)@ == old(self)@,
    {
        let len = self.input.len();
        if len < 4 || self.pos > len - 4 {
            return Err(Error::Eof);
        }
        let p = self.pos;
        let b0 = self.input[p] as u32;
        let b1 = self.input[p + 1] as u32;
        let b2 = self.input[p + 2] as u32;
        let b3 = self.input[p + 3] as u32;
        let w = match self.byteswapped {
            Some(true) => b3 + 256 * b2 + 65536 * b1 + 16777216 * b0,
            _ => b0 + 256 * b1 + 65536 * b2 + 16777216 * b3,
        };
        self.pos = p + 4;
        Ok(w)
    }

    /// A raw `u8`: a whole slot, of which the low eight bits are kept.
    pub fn parse_u8(&mut self) -> (r: Result<u8, Error>)
        ensures
            decoded(r, final(self)@, u8_spec(old(self)@)),
            kept(old(self)@, final(self)@),
    {
        match self.read_bytes() {
            Ok(w) => Ok((w % 256) as u8),
            Err(e) => Err(e),
        }
    }

    /// A raw `u16`: a whole slot, of which the low sixteen bits are kept.
    pub fn parse_u16(&mut self) -> (r: Result<u16, Error>)
        ensures
            decoded(r, final(self)@, u16_spec(old(self)@)),
            kept(old(self)@, final(self)@),
    {
        match self.read_bytes() {
            Ok(w) => Ok((w % 65536) as u16),
            Err(e) => Err(e),
        }
    }

    /// A raw `u32`.
    pub fn parse_u32(&mut self) -> (r: Result<u32, Error>)
        ensures
            decoded(r, final(self)@, word_spec(old(self)@)),
            kept(old(self)@, final(self)@),
    {
        self.read_bytes()
    }

    /// A raw `i32`, in two's complement.
    pub fn parse_i32(&mut self) -> (r: Result<i32, Error>)
        ensures
            decoded(r, final(self)@, i32_spec(old(self)@)),
            kept(old(self)@, final(self)@),
    {
        match self.read_bytes() {
            Ok(w) => if w < 0x8000_0000 {
                Ok(w as i32)
            } else {
                Ok(((w - 0x8000_0000) as i32) + i32::MIN)
            },
            Err(e) => Err(e),
        }
    }

    /// A raw `f32`, given as its IEEE 754 bit pattern.
    pub fn parse_f32_bits(&mut self) -> (r: Result<u32, Error>)
        ensures
            decoded(r, final(self)@, word_spec(old(self)@)),
            kept(old(self)@, final(self)@),
    {
        self.read_bytes()
    }

    /// Reads the payload of a length-prefixed text field, without its
    /// terminator, and does not look at the header.
    pub fn read_text(&mut self) -> (r: Result<Vec<u8>, Error>)
        ensures
            match text_bytes_spec(old(self)@) {
                Ok((b, c)) => r matches Ok(v) && v@ == b && final(self)@ == c,
                Err(e) => r == Err::<Vec<u8>, Error>(e),
            },
            kept(old(self)@, final(self)@),
    {
        let n = match self.get_size_of_next() {
            Ok(n) => n,
            Err(e) => return Err(e),
        };
        let len = self.input.len();
        if n > len - self.pos {
            return Err(Error::Eof);
        }
        if n == 0 || self.input[self.pos + n - 1] != 0 {
            return Err(Error::WrongLength(n));
        }
        let start = self.pos;
        let payload = slice_to_vec(slice_subrange(self.input, start, start + n - 1));
        self.pos = start + n;
        Ok(payload)
    }

    /// A boolean field, where the header has already been read.
    pub fn parse_bool_unchecked_header(&mut self) -> (r: Result<bool, Error>)
        ensures
            decoded(r, final(self)@, bool_unchecked_spec(old(self)@)),
            kept(old(self)@, final(self)@),
    {
        let size = match self.get_size_of_next() {
            Ok(n) => n,
            Err(e) => return Err(e),
        };
        if size != 1 {
            return Err(Error::ExpectedSize(1, size));
        }
        let len = self.input.len();
        if len - self.pos < 2 {
            return Err(Error::Eof);
        }
        let b = self.input[self.pos] != 0;
        self.pos = self.pos + 2;
        Ok(b)
    }

    /// A boolean field: true when its single data byte is nonzero.
    pub fn parse_bool(&mut self) -> (r: Result<bool, Error>)
        ensures
            decoded(r, final(self)@, bool_spec(old(self)@)),
            kept(old(self)@, final(self)@),
    {
        match self.validate_header() {
            Ok(()) => {},
            Err(e) => return Err(e),
        }
        self.parse_bool_unchecked_header()
    }

    /// A text field, copied out of the buffer.
    pub fn parse_str(&mut self) -> (r: Result<String, Error>)
        ensures
            decoded(r, final(self)@, str_spec(old(self)@)),
            kept(old(self)@, final(self)@),
    {
        match self.validate_header() {
            Ok(()) => {},
            Err(e) => return Err(e),
        }
        let bytes = match self.read_text() {
            Ok(b) => b,
            Err(e) => return Err(e),
        };
        match string_from_utf8(bytes) {
            Some(s) => Ok(s),
            None => Err(Error::NotUtf8),
        }
    }

    /// Reads the name that announces a record field and checks that it is
    /// `name`.
    pub fn expect_field(&mut self, name: &'static str) -> (r: Result<(), Error>)
        ensures
            decoded(r, final(self)@, field_spec(old(self)@, name)),
            kept(old(self)@, final(self)@),
    {
        let found = match self.parse_str() {
            Ok(s) => s,
            Err(e) => return Err(e),
        };
        if str_eq(found.as_str(), name) {
            Ok(())
        } else {
            Err(Error::FieldNotFound(name))
        }
    }

    /// Consumes the decimal digits that follow and returns them.
    pub fn parse_digits(&mut self) -> (r: Vec<u8>)
        ensures
            r@.len() == digit_run(old(self)@.input, old(self)@.pos),
            forall|i: int| 0 <= i < r@.len() ==> r@[i] == old(self)@.input[old(self)@.pos + i],
            final(self)@ == old(self)@.advance(digit_run(old(self)@.input, old(self)@.pos) as int),
    {
        let start = self.pos;
        let mut digits: Vec<u8> = Vec::new();
        if start > self.input.len() {
            return digits;
        }
        let mut i = start;
        proof {
            lemma_digit_run(self.input@, start as int);
        }
        while i < self.input.len() && 48 <= self.input[i] && self.input[i] <= 57
            invariant
                start <= i <= self.input@.len(),
                self.pos == start,
                digits@ == self.input@.subrange(start as int, i as int),
                digit_run(self.input@, start as int) == (i - start) + digit_run(
                    self.input@,
                    i as int,
                ),
            decreases self.input.len() - i,
        {
            digits.push(self.input[i]);
            assert(digits@ =~= self.input@.subrange(start as int, i + 1));
            i = i + 1;
        }
        self.pos = i;
        digits
    }

    /// An unsigned number written in decimal as a text field, at most `max`.
    fn parse_text_uint(&mut self, max: u128) -> (r: Result<u128, Error>)
        requires
            max >= 9,
        ensures
            decoded(r, final(self)@, text_uint_spec(old(self)@, max)),
            kept(old(self)@, final(self)@),
    {
        match self.validate_header() {
            Ok(()) => {},
            Err(e) => return Err(e),
        }
        let size = match self.get_size_of_next() {
            Ok(n) => n,
            Err(e) => return Err(e),
        };
        let ghost c2 = self@;
        proof {
            lemma_digit_run(c2.input, c2.pos);
        }
        let start = self.pos;
        let digits = self.parse_digits();
        let d = digits.len();
        assert(digits@ =~= c2.input.subrange(c2.pos, c2.pos + d));
        let len = self.input.len();
        if self.pos < len && self.input[self.pos] == 0 && d + 1 != size {
            return Err(Error::ExpectedSize(d + 1, size));
        }
        if size > len - start {
            return Err(Error::Eof);
        }
        if size == 0 || self.input[start + size - 1] != 0 {
            return Err(Error::WrongLength(size));
        }
        if d + 1 != size || d == 0 {
            return Err(Error::ParseInt);
        }
        match decimal_value(&digits, max) {
            Some(v) => {
                self.pos = start + size;
                Ok(v)
            },
            None => Err(Error::ParseInt),
        }
    }

    /// An unsigned 32-bit number written in decimal as a text field.
    pub fn parse_u32_text(&mut self) -> (r: Result<u32, Error>)
        ensures
            match text_uint_spec(old(self)@, u32::MAX as u128) {
                Ok((v, c)) => r == Ok::<u32, Error>(v as u32) && final(self)@ == c,
                Err(e) => r == Err::<u32, Error>(e),
            },
            kept(old(self)@, final(self)@),
    {
        match self.parse_text_uint(u32::MAX as u128) {
            Ok(v) => Ok(v as u32),
            Err(e) => Err(e),
        }
    }

    /// An unsigned 128-bit number written in decimal as a text field.
    pub fn parse_u128_text(&mut self) -> (r: Result<u128, Error>)
        ensures
            decoded(r, final(self)@, text_uint_spec(old(self)@, u128::MAX)),
            kept(old(self)@, final(self)@),
    {
        self.parse_text_uint(u128::MAX)
    }

    /// Exactly `n` values of one shape, with no count in the stream: an array
    /// whose length comes from data decoded earlier.
    pub fn parse_fixed_seq<T: Decode>(&mut self, n: usize) -> (r: Result<Vec<T>, Error>)
        ensures
            decoded(r, final(self)@, items_spec::<T>(old(self)@, n as nat)),
            kept(old(self)@, final(self)@),
    {
        let mut items: Vec<T> = Vec::new();
        let mut i: usize = 0;
        assert(items.deep_view() =~= Seq::<T::V>::empty());
        while i < n
            invariant
                i <= n,
                items_spec::<T>(old(self)@, i as nat) == Ok::<_, Error>(
                    (items.deep_view(), self@),
                ),
                kept(old(self)@, self@),
            decreases n - i,
        {
            let ghost before = items.deep_view();
            let v = match T::decode(self) {
                Ok(v) => v,
                Err(e) => {
                    proof {
                        lemma_items_error::<T>(old(self)@, (i + 1) as nat, n as nat);
                    }
                    return Err(e);
                },
            };
            items.push(v);
            assert(items.deep_view() =~= before.push(v.deep_view()));
            i = i + 1;
        }
        Ok(items)
    }

    /// A dynamic sequence: its own 4-byte count, then that many values.
    pub fn parse_seq<T: Decode>(&mut self) -> (r: Result<Vec<T>, Error>)
        ensures
            decoded(r, final(self)@, seq_spec::<T>(old(self)@)),
            kept(old(self)@, final(self)@),
    {
        match self.validate_header() {
            Ok(()) => {},
            Err(e) => return Err(e),
        }
        let n = match self.get_size_of_next() {
            Ok(n) => n,
            Err(e) => return Err(e),
        };
        self.parse_fixed_seq(n)
    }

    /// A map: keys and values in turn until the buffer is used up, in the
    /// order in which they stand.
    pub fn parse_map<K: Decode, V: Decode>(&mut self) -> (r: Result<Vec<(K, V)>, Error>)
        ensures
            decoded(r, final(self)@, entries_spec::<K, V>(old(self)@)),
            kept(old(self)@, final(self)@),
    {
        let mut entries: Vec<(K, V)> = Vec::new();
        while !self.is_empty()
            invariant
                entries_spec::<K, V>(old(self)@) == match entries_spec::<K, V>(self@) {
                    Ok((rest, c)) => Ok((entries.deep_view() + rest, c)),
                    Err(e) => Err(e),
                },
                kept(old(self)@, self@),
            decreases self@.input.len() - self@.pos,
        {
            let ghost c0 = self@;
            let k = match K::decode(self) {
                Ok(v) => v,
                Err(e) => return Err(e),
            };
            let ghost c1 = self@;
            let v = match V::decode(self) {
                Ok(v) => v,
                Err(e) => return Err(e),
            };
            proof {
                K::lemma_decode_moves(c0);
                V::lemma_decode_moves(c1);
            }
            let ghost before = entries.deep_view();
            entries.push((k, v));
            assert(entries.deep_view() =~= before + seq![(k.deep_view(), v.deep_view())]);
            proof {
                if let Ok((rest, c)) = entries_spec::<K, V>(self@) {
                    assert(before + (seq![(k.deep_view(), v.deep_view())] + rest)
                        =~= entries.deep_view() + rest);
                }
            }
        }
        assert(entries.deep_view() + seq![] =~= entries.deep_view());
        Ok(entries)
    }
}

/// Decodes one top-level value of shape `T` from `s`, after checking the
/// header. Bytes after the value are left unread.
pub fn from_bytes<T: Decode>(s: &[u8]) -> (r: Result<T, Error>)
    ensures
        match top_spec::<T>(s@) {
            Ok((v, _)) => r is Ok && r->Ok_0.deep_view() == v,
            Err(e) => r == Err::<T, Error>(e),
        },
{
    let mut d = Deserializer::from_bytes(s);
    match d.validate_header() {
        Ok(()) => {},
        Err(e) => return Err(e),
    }
    T::decode(&mut d)
}

/// Like [`from_bytes`], but the value must use up the whole buffer.
pub fn from_bytes_exact<T: Decode>(s: &[u8]) -> (r: Result<T, Error>)
    ensures
        match top_spec::<T>(s@) {
            Ok((v, c)) => if c.pos >= s@.len() {
                r is Ok && r->Ok_0.deep_view() == v
            } else {
                r == Err::<T, Error>(Error::TrailingBytes)
            },
            Err(e) => r == Err::<T, Error>(e),
        },
{
    let mut d = Deserializer::from_bytes(s);
    match d.validate_header() {
        Ok(()) => {},
        Err(e) => return Err(e),
    }
    let ghost c1 = d@;
    proof {
        T::lemma_decode_moves(c1);
    }
    let v = match T::decode(&mut d) {
        Ok(v) => v,
        Err(e) => return Err(e),
    };
    if d.is_empty() {
        Ok(v)
    } else {
        Err(Error::TrailingBytes)
    }
}

} // verus!
