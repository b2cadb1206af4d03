//! `SANE_NET_CONTROL_OPTION`: reads or sets one option's value.

use vstd::prelude::*;
use vstd::string::*;

use crate::cstring::{find_nul, is_first_nul, no_nul, CString};
use crate::debug::{
    debug_enum, dec_digits, list_lines, pretty_field, pretty_list, push_dec, push_field, push_list, push_list_line,
    push_quoted, quoted,
};
use crate::net::handle_debug;
use crate::net::io::{
    be32, be32_value, lemma_string_round_trip, lemma_word_prefix, lemma_words_wire_len, parse_bool,
    parse_bytes, parse_string, parse_word, reads, string_wire, view_result, words_wire, Decode, DecodeError,
    Encode, EncodeError, Parsed, Reader, RoundTrip, Writer,
};
use crate::net::{Handle, ProcedureNumber};
use crate::util::option_descriptor::{fixed_words, i32_words, words_of_fixed, words_of_i32};
use crate::{bits_i32, i32_from_u32, Action, Bool, Fixed, Status, ValueType, Word};

verus! {

/// An option's value: its type and its bytes as the wire carries them.
pub struct OptionValueModel {
    pub value_type: ValueType,
    pub bytes: Seq<u8>,
}

/// The bytes fit the type: one boolean word, whole words, a string with its
/// NUL (or nothing), or nothing for a button.
pub open spec fn option_value_wf(m: OptionValueModel) -> bool {
    match m.value_type {
        ValueType::BOOL => m.bytes == be32(0) || m.bytes == be32(1),
        ValueType::INT => m.bytes.len() % 4 == 0,
        ValueType::FIXED => m.bytes.len() % 4 == 0,
        ValueType::STRING => m.bytes.len() == 0 || exists|i: int| is_first_nul(m.bytes, i),
        ValueType::BUTTON => m.bytes.len() == 0,
        _ => false,
    }
}

/// The value a request carries when none was set: a button's empty one.
pub open spec fn empty_value() -> OptionValueModel {
    OptionValueModel { value_type: ValueType::BUTTON, bytes: Seq::empty() }
}

/// An option value on the wire: its type, then per type the size, the
/// count of words, and the bytes.
pub open spec fn option_value_wire(m: OptionValueModel) -> Seq<u8> {
    let len = m.bytes.len() as u32;
    match m.value_type {
        ValueType::BOOL => be32(0) + be32(4) + be32(1) + m.bytes,
        ValueType::INT => be32(1) + be32(len) + be32(len / 4) + m.bytes,
        ValueType::FIXED => be32(2) + be32(len) + be32(len / 4) + m.bytes,
        ValueType::STRING => be32(3) + be32(len) + m.bytes,
        _ => be32(4) + be32(0),
    }
}

/// The value's length fits a word.
pub open spec fn option_value_fits(m: OptionValueModel) -> bool {
    m.bytes.len() <= u32::MAX
}

/// The words of an integer or fixed-point value.
pub open spec fn parse_word_value(value_type: ValueType, d: Seq<u8>) -> Parsed<OptionValueModel> {
    match parse_word(d) {
        Err(e) => Err(e),
        Ok((size, d1)) => match parse_word(d1) {
            Err(e) => Err(e),
            Ok((count, d2)) => if size as int != count as int * 4 {
                Err(DecodeError::InvalidOptionType)
            } else {
                match parse_bytes(d2, size as nat) {
                    Err(e) => Err(e),
                    Ok((bytes, d3)) => Ok((OptionValueModel { value_type, bytes }, d3)),
                }
            },
        },
    }
}

pub open spec fn parse_option_value(d: Seq<u8>) -> Parsed<OptionValueModel> {
    match parse_word(d) {
        Err(e) => Err(e),
        Ok((vt, d1)) => match ValueType::from_code(vt) {
            ValueType::BOOL => match parse_word(d1) {
                Err(e) => Err(e),
                Ok((size, d2)) => match parse_word(d2) {
                    Err(e) => Err(e),
                    Ok((count, d3)) => if size != 4 || count != 1 {
                        Err(DecodeError::InvalidOptionType)
                    } else {
                        match parse_bool(d3) {
                            Err(e) => Err(e),
                            Ok((b, d4)) => Ok((OptionValueModel { value_type: ValueType::BOOL, bytes: be32(b.code()) }, d4)),
                        }
                    },
                },
            },
            ValueType::INT => parse_word_value(ValueType::INT, d1),
            ValueType::FIXED => parse_word_value(ValueType::FIXED, d1),
            ValueType::STRING => match parse_word(d1) {
                Err(e) => Err(e),
                Ok((size, d2)) => match parse_bytes(d2, size as nat) {
                    Err(e) => Err(e),
                    Ok((bytes, d3)) => if size == 0 || exists|i: int| is_first_nul(bytes, i) {
                        Ok((OptionValueModel { value_type: ValueType::STRING, bytes }, d3))
                    } else {
                        Err(DecodeError::InvalidString)
                    },
                },
            },
            ValueType::BUTTON => match parse_word(d1) {
                Err(e) => Err(e),
                Ok((size, d2)) => if size != 0 {
                    Err(DecodeError::InvalidOptionType)
                } else {
                    Ok((empty_value(), d2))
                },
            },
            _ => Err(DecodeError::InvalidOptionType),
        },
    }
}

/// The value's bytes read as big-endian words, one per four bytes.
pub open spec fn words_of_bytes(b: Seq<u8>) -> Seq<u32> {
    Seq::new(b.len() / 4, |i: int| be32_value(b.skip(4 * i)))
}

/// A typed accessor was used on a value of another shape.
#[derive(Clone, Copy, PartialEq, Eq, Structural, Debug)]
pub struct OptionValueError;

/// A borrowed option value.
#[derive(Clone, Copy, Debug)]
pub struct OptionValue<'a> {
    value_type: ValueType,
    bytes: &'a [u8],
}

impl<'a> View for OptionValue<'a> {
    type V = OptionValueModel;

    closed spec fn view(&self) -> OptionValueModel {
        OptionValueModel { value_type: self.value_type, bytes: self.bytes@ }
    }
}

impl<'a> OptionValue<'a> {
    #[verifier::type_invariant]
    spec fn inv(&self) -> bool {
        option_value_wf(self@)
    }

    pub fn value_type(&self) -> (r: ValueType)
        ensures
            r == self@.value_type,
            option_value_wf(self@),
    {
        proof { use_type_invariant(self); }
        self.value_type
    }

    pub fn as_bytes(&self) -> (r: &'a [u8])
        ensures
            r@ == self@.bytes,
            option_value_wf(self@),
    {
        proof { use_type_invariant(self); }
        self.bytes
    }

    fn to_u32(&self) -> (r: Result<u32, OptionValueError>)
        ensures
            r == (if self@.bytes.len() == 4 {
                Ok::<u32, OptionValueError>(be32_value(self@.bytes))
            } else {
                Err(OptionValueError)
            }),
    {
        if self.bytes.len() != 4 {
            return Err(OptionValueError);
        }
        let b = self.bytes;
        Ok(((b[0] as u32) << 24u32) | ((b[1] as u32) << 16u32) | ((b[2] as u32) << 8u32) | (b[3] as u32))
    }

    /// The boolean of a four-byte value holding 0 or 1.
    pub fn to_bool(&self) -> (r: Result<bool, OptionValueError>)
        ensures
            r == (if self@.bytes.len() == 4 && be32_value(self@.bytes) <= 1 {
                Ok::<bool, OptionValueError>(be32_value(self@.bytes) == 1)
            } else {
                Err(OptionValueError)
            }),
    {
        match self.to_u32() {
            Ok(0) => Ok(false),
            Ok(1) => Ok(true),
            _ => Err(OptionValueError),
        }
    }

    /// The integer of a four-byte value.
    pub fn to_i32(&self) -> (r: Result<i32, OptionValueError>)
        ensures
            r == (if self@.bytes.len() == 4 {
                Ok::<i32, OptionValueError>(bits_i32(be32_value(self@.bytes)))
            } else {
                Err(OptionValueError)
            }),
    {
        match self.to_u32() {
            Ok(w) => Ok(i32_from_u32(w)),
            Err(e) => Err(e),
        }
    }

    /// The fixed-point number of a four-byte value.
    pub fn to_fixed(&self) -> (r: Result<Fixed, OptionValueError>)
        ensures
            r == (if self@.bytes.len() == 4 {
                Ok::<Fixed, OptionValueError>(Fixed(bits_i32(be32_value(self@.bytes))))
            } else {
                Err(OptionValueError)
            }),
    {
        match self.to_u32() {
            Ok(w) => Ok(Fixed::from_word(Word(w))),
            Err(e) => Err(e),
        }
    }

    fn to_words(&self) -> (r: Result<Vec<u32>, OptionValueError>)
        ensures
            match r {
                Ok(v) => self@.bytes.len() % 4 == 0 && v@ == words_of_bytes(self@.bytes),
                Err(_) => self@.bytes.len() % 4 != 0,
            },
    {
        let b = self.bytes;
        if b.len() % 4 != 0 {
            return Err(OptionValueError);
        }
        let len = b.len();
        let n = len / 4;
        let mut v: Vec<u32> = Vec::new();
        let mut i: usize = 0;
        while i < n
            invariant
                len == b@.len(),
                n == len / 4,
                i <= n,
                v@ == words_of_bytes(b@).take(i as int),
            decreases n - i,
        {
            let p = 4 * i;
            let w = ((b[p] as u32) << 24u32) | ((b[p + 1] as u32) << 16u32) | ((b[p + 2] as u32) << 8u32) | (
            b[p + 3] as u32);
            proof {
                let s = b@.skip(4 * i);
                assert(s[0] == b@[p as int] && s[1] == b@[p + 1] && s[2] == b@[p + 2] && s[3] == b@[p + 3]);
                assert(words_of_bytes(b@)[i as int] == be32_value(s));
            }
            v.push(w);
            assert(v@ =~= words_of_bytes(b@).take(i as int + 1));
            i = i + 1;
        }
        assert(v@ =~= words_of_bytes(b@));
        Ok(v)
    }

    /// The integers of a value made of whole words.
    pub fn to_i32_list(&self) -> (r: Result<Vec<i32>, OptionValueError>)
        ensures
            match r {
                Ok(v) => self@.bytes.len() % 4 == 0 && v@ == words_of_bytes(self@.bytes).map_values(
                    |w: u32| bits_i32(w),
                ),
                Err(_) => self@.bytes.len() % 4 != 0,
            },
    {
        let words = match self.to_words() {
            Ok(words) => words,
            Err(e) => return Err(e),
        };
        let mut v: Vec<i32> = Vec::new();
        let mut i: usize = 0;
        while i < words.len()
            invariant
                i <= words@.len(),
                v@ == words@.take(i as int).map_values(|w: u32| bits_i32(w)),
            decreases words@.len() - i,
        {
            v.push(i32_from_u32(words[i]));
            assert(v@ =~= words@.take(i as int + 1).map_values(|w: u32| bits_i32(w)));
            i = i + 1;
        }
        assert(words@.take(i as int) =~= words@);
        Ok(v)
    }

    /// The fixed-point numbers of a value made of whole words.
    pub fn to_fixed_list(&self) -> (r: Result<Vec<Fixed>, OptionValueError>)
        ensures
            match r {
                Ok(v) => self@.bytes.len() % 4 == 0 && v@ == words_of_bytes(self@.bytes).map_values(
                    |w: u32| Fixed(bits_i32(w)),
                ),
                Err(_) => self@.bytes.len() % 4 != 0,
            },
    {
        let words = match self.to_words() {
            Ok(words) => words,
            Err(e) => return Err(e),
        };
        let mut v: Vec<Fixed> = Vec::new();
        let mut i: usize = 0;
        while i < words.len()
            invariant
                i <= words@.len(),
                v@ == words@.take(i as int).map_values(|w: u32| Fixed(bits_i32(w))),
            decreases words@.len() - i,
        {
            v.push(Fixed::from_word(Word(words[i])));
            assert(v@ =~= words@.take(i as int + 1).map_values(|w: u32| Fixed(bits_i32(w))));
            i = i + 1;
        }
        assert(words@.take(i as int) =~= words@);
        Ok(v)
    }

    /// The string before the first NUL; an error when there is none.
    pub fn to_cstring(&self) -> (r: Result<CString, OptionValueError>)
        ensures
            match r {
                Ok(s) => exists|i: int| is_first_nul(self@.bytes, i) && s@ == self@.bytes.take(i),
                Err(_) => no_nul(self@.bytes),
            },
    {
        match find_nul(self.bytes) {
            Some(i) => {
                let s = CString::from_bytes_until_nul(self.bytes, i);
                assert(is_first_nul(self@.bytes, i as int) && s@ == self@.bytes.take(i as int));
                Ok(s)
            },
            None => Err(OptionValueError),
        }
    }

    /// Appends the value's wire form.
    pub fn encode(&self, w: &mut Writer) -> (r: Result<(), EncodeError>)
        ensures
            r is Ok <==> option_value_fits(self@),
            r is Ok ==> final(w)@ == old(w)@ + option_value_wire(self@),
    {
        proof { use_type_invariant(self); }
        let len = self.bytes.len();
        if len > 0xffff_ffffusize {
            return Err(EncodeError::SizeOverflow(len));
        }
        let len = len as u32;
        match self.value_type {
            ValueType::BOOL => {
                w.write_word(0);
                w.write_word(4);
                w.write_word(1);
            },
            ValueType::INT => {
                w.write_word(1);
                w.write_word(len);
                w.write_word(len / 4);
            },
            ValueType::FIXED => {
                w.write_word(2);
                w.write_word(len);
                w.write_word(len / 4);
            },
            ValueType::STRING => {
                w.write_word(3);
                w.write_word(len);
            },
            _ => {
                w.write_word(4);
                w.write_word(0);
            },
        }
        w.write_bytes(self.bytes);
        assert(w@ =~= old(w)@ + option_value_wire(self@));
        Ok(())
    }
}

/// An owned option value.
#[derive(PartialEq, Eq, Debug)]
pub struct OptionValueBuf {
    value_type: ValueType,
    bytes: Vec<u8>,
}

impl View for OptionValueBuf {
    type V = OptionValueModel;

    closed spec fn view(&self) -> OptionValueModel {
        OptionValueModel { value_type: self.value_type, bytes: self.bytes@ }
    }
}

impl OptionValueBuf {
    #[verifier::type_invariant]
    spec fn inv(&self) -> bool {
        option_value_wf(self@)
    }

    /// The borrowed form of this value.
    pub fn as_ref(&self) -> (r: OptionValue<'_>)
        ensures
            r@ == self@,
            option_value_wf(self@),
    {
        proof { use_type_invariant(self); }
        OptionValue { value_type: self.value_type, bytes: self.bytes.as_slice() }
    }

    pub fn value_type(&self) -> (r: ValueType)
        ensures
            r == self@.value_type,
    {
        self.value_type
    }

    pub fn as_bytes(&self) -> (r: &[u8])
        ensures
            r@ == self@.bytes,
    {
        self.bytes.as_slice()
    }

    /// A button's value, which has no bytes.
    pub fn button() -> (r: OptionValueBuf)
        ensures
            r@ == empty_value(),
    {
        let r = OptionValueBuf { value_type: ValueType::BUTTON, bytes: Vec::new() };
        assert(r@.bytes =~= Seq::<u8>::empty());
        r
    }

    fn word_bytes(v: u32) -> (r: Vec<u8>)
        ensures
            r@ == be32(v),
    {
        let mut w = Writer::new();
        w.write_word(v);
        let r = w.into_bytes();
        assert(r@ =~= be32(v));
        r
    }

    pub fn from_bool(value: bool) -> (r: OptionValueBuf)
        ensures
            r@ == (OptionValueModel { value_type: ValueType::BOOL, bytes: be32(if value { 1 } else { 0 }) }),
    {
        OptionValueBuf { value_type: ValueType::BOOL, bytes: Self::word_bytes(if value { 1 } else { 0 }) }
    }

    pub fn from_i32(value: i32) -> (r: OptionValueBuf)
        ensures
            r@ == (OptionValueModel { value_type: ValueType::INT, bytes: be32(crate::i32_bits(value)) }),
    {
        OptionValueBuf { value_type: ValueType::INT, bytes: Self::word_bytes(crate::u32_from_i32(value)) }
    }

    pub fn from_fixed(value: Fixed) -> (r: OptionValueBuf)
        ensures
            r@ == (OptionValueModel { value_type: ValueType::FIXED, bytes: be32(crate::i32_bits(value.0)) }),
    {
        OptionValueBuf { value_type: ValueType::FIXED, bytes: Self::word_bytes(value.as_word().0) }
    }

    pub fn from_i32_list(values: &[i32]) -> (r: OptionValueBuf)
        ensures
            r@ == (OptionValueModel { value_type: ValueType::INT, bytes: words_wire(i32_words(values@)) }),
    {
        let words = words_of_i32(values);
        let mut w = Writer::new();
        w.write_words(words.as_slice());
        let bytes = w.into_bytes();
        proof {
            assert(bytes@ =~= words_wire(i32_words(values@)));
            lemma_words_wire_len(i32_words(values@));
        }
        OptionValueBuf { value_type: ValueType::INT, bytes }
    }

    pub fn from_fixed_list(values: &[Fixed]) -> (r: OptionValueBuf)
        ensures
            r@ == (OptionValueModel { value_type: ValueType::FIXED, bytes: words_wire(fixed_words(values@)) }),
    {
        let words = words_of_fixed(values);
        let mut w = Writer::new();
        w.write_words(words.as_slice());
        let bytes = w.into_bytes();
        proof {
            assert(bytes@ =~= words_wire(fixed_words(values@)));
            lemma_words_wire_len(fixed_words(values@));
        }
        OptionValueBuf { value_type: ValueType::FIXED, bytes }
    }

    /// A string value: its bytes and the NUL.
    pub fn from_cstring(value: CString) -> (r: OptionValueBuf)
        ensures
            r@ == (OptionValueModel { value_type: ValueType::STRING, bytes: value@.push(0) }),
    {
        let bytes = value.to_bytes_with_nul();
        proof {
            assert(bytes@.take(value@.len() as int) =~= value@);
            assert(is_first_nul(bytes@, value@.len() as int));
        }
        OptionValueBuf { value_type: ValueType::STRING, bytes }
    }

    /// A string value padded with NULs to `size` bytes.
    pub fn from_cstring_with_size(value: CString, size: usize) -> (r: OptionValueBuf)
        requires
            size >= value@.len() + 1,
        ensures
            r@ == (OptionValueModel {
                value_type: ValueType::STRING,
                bytes: value@.push(0) + Seq::new((size - value@.len() - 1) as nat, |i: int| 0u8),
            }),
    {
        let mut bytes = value.to_bytes_with_nul();
        let ghost start = bytes@;
        while bytes.len() < size
            invariant
                start == value@.push(0),
                start.len() <= bytes@.len() <= size,
                bytes@ == start + Seq::new((bytes@.len() - start.len()) as nat, |i: int| 0u8),
            decreases size - bytes@.len(),
        {
            bytes.push(0);
            assert(bytes@ =~= start + Seq::new((bytes@.len() - start.len()) as nat, |i: int| 0u8));
        }
        proof {
            assert(bytes@.take(value@.len() as int) =~= value@);
            assert(is_first_nul(bytes@, value@.len() as int));
        }
        OptionValueBuf { value_type: ValueType::STRING, bytes }
    }

    /// A copy with the same type and bytes.
    pub fn duplicate(&self) -> (r: OptionValueBuf)
        ensures
            r@ == self@,
    {
        proof { use_type_invariant(self); }
        let mut bytes: Vec<u8> = Vec::new();
        let mut i: usize = 0;
        while i < self.bytes.len()
            invariant
                i <= self.bytes@.len(),
                bytes@ == self.bytes@.take(i as int),
            decreases self.bytes@.len() - i,
        {
            bytes.push(self.bytes[i]);
            assert(bytes@ =~= self.bytes@.take(i as int + 1));
            i = i + 1;
        }
        assert(bytes@ =~= self.bytes@);
        OptionValueBuf { value_type: self.value_type, bytes }
    }

    /// Reads one option value.
    #[verifier::spinoff_prover]
    pub fn read(r: &mut Reader) -> (res: Result<OptionValueBuf, DecodeError>)
        ensures
            reads(view_result(res), parse_option_value(old(r).remaining()), final(r).remaining()),
    {
        let vt = match r.read_word() {
            Ok(v) => ValueType::from_word(Word(v)),
            Err(e) => return Err(e),
        };
        match vt {
            ValueType::BOOL => {
                let size = match r.read_word() {
                    Ok(v) => v,
                    Err(e) => return Err(e),
                };
                let count = match r.read_word() {
                    Ok(v) => v,
                    Err(e) => return Err(e),
                };
                if size != 4 || count != 1 {
                    return Err(DecodeError::InvalidOptionType);
                }
                match r.read_bool() {
                    Ok(b) => Ok(Self::from_bool(b == Bool::TRUE)),
                    Err(e) => Err(e),
                }
            },
            ValueType::INT | ValueType::FIXED => {
                let size = match r.read_word() {
                    Ok(v) => v,
                    Err(e) => return Err(e),
                };
                let count = match r.read_word() {
                    Ok(v) => v,
                    Err(e) => return Err(e),
                };
                if size as u64 != count as u64 * 4 {
                    return Err(DecodeError::InvalidOptionType);
                }
                match r.read_vec(size as usize) {
                    Ok(bytes) => Ok(OptionValueBuf { value_type: vt, bytes }),
                    Err(e) => Err(e),
                }
            },
            ValueType::STRING => {
                let size = match r.read_word() {
                    Ok(v) => v,
                    Err(e) => return Err(e),
                };
                let bytes = match r.read_vec(size as usize) {
                    Ok(bytes) => bytes,
                    Err(e) => return Err(e),
                };
                if size == 0 {
                    return Ok(OptionValueBuf { value_type: vt, bytes });
                }
                match find_nul(bytes.as_slice()) {
                    Some(_) => Ok(OptionValueBuf { value_type: vt, bytes }),
                    None => {
                        assert forall|i: int| !is_first_nul(bytes@, i) by {
                            if is_first_nul(bytes@, i) {
                                assert(bytes@[i] == 0);
                            }
                        }
                        Err(DecodeError::InvalidString)
                    },
                }
            },
            ValueType::BUTTON => {
                let size = match r.read_word() {
                    Ok(v) => v,
                    Err(e) => return Err(e),
                };
                if size != 0 {
                    return Err(DecodeError::InvalidOptionType);
                }
                Ok(Self::button())
            },
            _ => Err(DecodeError::InvalidOptionType),
        }
    }
}

#[verifier::spinoff_prover]
proof fn lemma_bool_value_round_trip(m: OptionValueModel, rest: Seq<u8>)
    requires
        m.value_type == ValueType::BOOL,
        option_value_wf(m),
    ensures
        parse_option_value(option_value_wire(m) + rest) == Ok::<(OptionValueModel, Seq<u8>), DecodeError>((m, rest)),
{
    let tail = m.bytes + rest;
    assert(option_value_wire(m) + rest =~= be32(0) + (be32(4) + (be32(1) + tail)));
    lemma_word_prefix(0, be32(4) + (be32(1) + tail));
    lemma_word_prefix(4, be32(1) + tail);
    lemma_word_prefix(1, tail);
    if m.bytes == be32(0) {
        lemma_word_prefix(0, rest);
    } else {
        lemma_word_prefix(1, rest);
    }
}

#[verifier::spinoff_prover]
proof fn lemma_words_value_round_trip(m: OptionValueModel, rest: Seq<u8>)
    requires
        m.value_type == ValueType::INT || m.value_type == ValueType::FIXED,
        option_value_wf(m),
        option_value_fits(m),
    ensures
        parse_option_value(option_value_wire(m) + rest) == Ok::<(OptionValueModel, Seq<u8>), DecodeError>((m, rest)),
{
    let len = m.bytes.len() as u32;
    let tail = m.bytes + rest;
    assert(tail.take(m.bytes.len() as int) =~= m.bytes);
    assert(tail.skip(m.bytes.len() as int) =~= rest);
    let c = m.value_type.code();
    assert(option_value_wire(m) + rest =~= be32(c) + (be32(len) + (be32(len / 4) + tail)));
    lemma_word_prefix(c, be32(len) + (be32(len / 4) + tail));
    lemma_word_prefix(len, be32(len / 4) + tail);
    lemma_word_prefix(len / 4, tail);
    assert(parse_word_value(m.value_type, be32(len) + (be32(len / 4) + tail)) == Ok::<
        (OptionValueModel, Seq<u8>),
        DecodeError,
    >((m, rest)));
}

#[verifier::spinoff_prover]
proof fn lemma_string_value_round_trip(m: OptionValueModel, rest: Seq<u8>)
    requires
        m.value_type == ValueType::STRING,
        option_value_wf(m),
        option_value_fits(m),
    ensures
        parse_option_value(option_value_wire(m) + rest) == Ok::<(OptionValueModel, Seq<u8>), DecodeError>((m, rest)),
{
    let len = m.bytes.len() as u32;
    let tail = m.bytes + rest;
    assert(tail.take(m.bytes.len() as int) =~= m.bytes);
    assert(tail.skip(m.bytes.len() as int) =~= rest);
    assert(option_value_wire(m) + rest =~= be32(3) + (be32(len) + tail));
    lemma_word_prefix(3, be32(len) + tail);
    lemma_word_prefix(len, tail);
}

proof fn lemma_button_value_round_trip(m: OptionValueModel, rest: Seq<u8>)
    requires
        m.value_type == ValueType::BUTTON,
        option_value_wf(m),
    ensures
        parse_option_value(option_value_wire(m) + rest) == Ok::<(OptionValueModel, Seq<u8>), DecodeError>((m, rest)),
{
    assert(option_value_wire(m) + rest =~= be32(4) + (be32(0) + rest));
    lemma_word_prefix(4, be32(0) + rest);
    lemma_word_prefix(0, rest);
    assert(m.bytes =~= Seq::<u8>::empty());
}

/// An option value reads back as itself, whatever follows it.
pub proof fn lemma_option_value_round_trip(m: OptionValueModel, rest: Seq<u8>)
    requires
        option_value_wf(m),
        option_value_fits(m),
    ensures
        parse_option_value(option_value_wire(m) + rest) == Ok::<(OptionValueModel, Seq<u8>), DecodeError>((m, rest)),
{
    match m.value_type {
        ValueType::BOOL => lemma_bool_value_round_trip(m, rest),
        ValueType::INT => lemma_words_value_round_trip(m, rest),
        ValueType::FIXED => lemma_words_value_round_trip(m, rest),
        ValueType::STRING => lemma_string_value_round_trip(m, rest),
        _ => lemma_button_value_round_trip(m, rest),
    }
}

/// An integer or fixed-point value whose size is not four times its count
/// is refused as an invalid option type.
pub proof fn lemma_word_value_size_mismatch(code: u32, size: u32, count: u32, rest: Seq<u8>)
    requires
        code == 1 || code == 2,
        size as int != 4 * count as int,
    ensures
        parse_option_value(be32(code) + be32(size) + be32(count) + rest) == Err::<(OptionValueModel, Seq<u8>), DecodeError>(
            DecodeError::InvalidOptionType,
        ),
{
    assert(be32(code) + be32(size) + be32(count) + rest =~= be32(code) + (be32(size) + (be32(count) + rest)));
    lemma_word_prefix(code, be32(size) + (be32(count) + rest));
    lemma_word_prefix(size, be32(count) + rest);
    lemma_word_prefix(count, rest);
}

impl RoundTrip for OptionValueBuf {
    open spec fn valid(&self) -> bool {
        option_value_wf(self@)
    }

    proof fn lemma_round_trip(&self, rest: Seq<u8>) {
        lemma_option_value_round_trip(self@, rest);
    }
}

impl Encode for OptionValueBuf {
    open spec fn spec_wire(&self) -> Option<Seq<u8>> {
        if option_value_fits(self@) {
            Some(option_value_wire(self@))
        } else {
            None
        }
    }

    fn encode(&self, w: &mut Writer) -> (r: Result<(), EncodeError>) {
        self.as_ref().encode(w)
    }
}

impl Decode for OptionValueBuf {
    open spec fn spec_parse(d: Seq<u8>) -> Parsed<OptionValueModel> {
        parse_option_value(d)
    }

    fn decode(r: &mut Reader) -> (res: Result<OptionValueBuf, DecodeError>) {
        OptionValueBuf::read(r)
    }
}

/// What a control-option request holds.
pub struct ControlOptionRequestModel {
    pub handle: Handle,
    pub option: u32,
    pub action: Action,
    pub value: OptionValueModel,
}

/// `SANE_NET_CONTROL_OPTION` request: the device, the option's index, the
/// action, and the value, which `SET_AUTO` leaves off the wire.
#[derive(PartialEq, Eq, Debug)]
pub struct ControlOptionRequest {
    handle: Handle,
    option: u32,
    action: Action,
    value: OptionValueBuf,
}

impl View for ControlOptionRequest {
    type V = ControlOptionRequestModel;

    closed spec fn view(&self) -> ControlOptionRequestModel {
        ControlOptionRequestModel { handle: self.handle, option: self.option, action: self.action, value: self.value@ }
    }
}

pub open spec fn control_option_request_wire(m: ControlOptionRequestModel) -> Seq<u8> {
    be32(ProcedureNumber::CONTROL_OPTION.code()) + be32(m.handle.0) + be32(m.option) + be32(m.action.code()) + if m.action
        == Action::SET_AUTO {
        Seq::empty()
    } else {
        option_value_wire(m.value)
    }
}

pub open spec fn control_option_request_fits(m: ControlOptionRequestModel) -> bool {
    m.action == Action::SET_AUTO || option_value_fits(m.value)
}

/// What a decoder can give back: a canonical action, a value that fits its
/// type, and the empty value under `SET_AUTO`.
pub open spec fn control_option_request_valid(m: ControlOptionRequestModel) -> bool {
    &&& m.action.wf()
    &&& option_value_wf(m.value)
    &&& (m.action == Action::SET_AUTO ==> m.value == empty_value())
}

/// The fields in order; the procedure number is read, not checked. Under
/// `SET_AUTO` no value follows, and the empty one stands for it.
pub open spec fn parse_control_option_request(d: Seq<u8>) -> Parsed<ControlOptionRequestModel> {
    match parse_word(d) {
        Err(e) => Err(e),
        Ok((_, d0)) => match parse_word(d0) {
            Err(e) => Err(e),
            Ok((handle, d1)) => match parse_word(d1) {
                Err(e) => Err(e),
                Ok((option, d2)) => match parse_word(d2) {
                    Err(e) => Err(e),
                    Ok((action, d3)) => {
                        let action = Action::from_code(action);
                        if action == Action::SET_AUTO {
                            Ok((ControlOptionRequestModel { handle: Handle(handle), option, action, value: empty_value() }, d3))
                        } else {
                            match parse_option_value(d3) {
                                Err(e) => Err(e),
                                Ok((value, d4)) => Ok(
                                    (ControlOptionRequestModel { handle: Handle(handle), option, action, value }, d4),
                                ),
                            }
                        }
                    },
                },
            },
        },
    }
}

impl ControlOptionRequest {
    pub fn handle(&self) -> (r: Handle)
        ensures
            r == self@.handle,
    {
        self.handle
    }

    pub fn option(&self) -> (r: u32)
        ensures
            r == self@.option,
    {
        self.option
    }

    pub fn action(&self) -> (r: Action)
        ensures
            r == self@.action,
    {
        self.action
    }

    pub fn value_type(&self) -> (r: ValueType)
        ensures
            r == self@.value.value_type,
    {
        self.value.value_type()
    }

    pub fn value(&self) -> (r: OptionValue<'_>)
        ensures
            r@ == self@.value,
    {
        self.value.as_ref()
    }
}

impl Encode for ControlOptionRequest {
    open spec fn spec_wire(&self) -> Option<Seq<u8>> {
        if control_option_request_fits(self@) {
            Some(control_option_request_wire(self@))
        } else {
            None
        }
    }

    fn encode(&self, w: &mut Writer) -> (r: Result<(), EncodeError>) {
        w.write_word(ProcedureNumber::CONTROL_OPTION.as_word().0);
        w.write_word(self.handle.0);
        w.write_word(self.option);
        w.write_word(self.action.as_word().0);
        if self.action != Action::SET_AUTO {
            match self.value.as_ref().encode(w) {
                Ok(()) => {},
                Err(e) => return Err(e),
            }
        }
        assert(w@ =~= old(w)@ + control_option_request_wire(self@));
        Ok(())
    }
}

/// An owned `ControlOptionRequest` that can be set field by field.
#[derive(PartialEq, Eq, Debug)]
pub struct ControlOptionRequestBuf {
    inner: ControlOptionRequest,
}

impl View for ControlOptionRequestBuf {
    type V = ControlOptionRequestModel;

    closed spec fn view(&self) -> ControlOptionRequestModel {
        self.inner@
    }
}

impl ControlOptionRequestBuf {
    /// Handle 0, option 0, `GET_VALUE`, and the empty value.
    pub fn new() -> (r: ControlOptionRequestBuf)
        ensures
            r@ == (ControlOptionRequestModel {
                handle: Handle(0),
                option: 0,
                action: Action::GET_VALUE,
                value: empty_value(),
            }),
    {
        ControlOptionRequestBuf {
            inner: ControlOptionRequest {
                handle: Handle(0),
                option: 0,
                action: Action::GET_VALUE,
                value: OptionValueBuf::button(),
            },
        }
    }

    pub fn set_handle(&mut self, handle: Handle)
        ensures
            final(self)@ == (ControlOptionRequestModel { handle, ..old(self)@ }),
    {
        self.inner.handle = handle;
    }

    pub fn set_option(&mut self, option: u32)
        ensures
            final(self)@ == (ControlOptionRequestModel { option, ..old(self)@ }),
    {
        self.inner.option = option;
    }

    pub fn set_action(&mut self, action: Action)
        ensures
            final(self)@ == (ControlOptionRequestModel { action, ..old(self)@ }),
    {
        self.inner.action = action;
    }

    pub fn set_value(&mut self, value: OptionValueBuf)
        ensures
            final(self)@ == (ControlOptionRequestModel { value: value@, ..old(self)@ }),
    {
        self.inner.value = value;
    }

    pub fn handle(&self) -> (r: Handle)
        ensures
            r == self@.handle,
    {
        self.inner.handle
    }

    pub fn option(&self) -> (r: u32)
        ensures
            r == self@.option,
    {
        self.inner.option
    }

    pub fn action(&self) -> (r: Action)
        ensures
            r == self@.action,
    {
        self.inner.action
    }

    pub fn value(&self) -> (r: OptionValue<'_>)
        ensures
            r@ == self@.value,
    {
        self.inner.value.as_ref()
    }

    /// The request this buffer holds.
    pub fn as_ref(&self) -> (r: &ControlOptionRequest)
        ensures
            r@ == self@,
    {
        &self.inner
    }
}

impl Encode for ControlOptionRequestBuf {
    open spec fn spec_wire(&self) -> Option<Seq<u8>> {
        if control_option_request_fits(self@) {
            Some(control_option_request_wire(self@))
        } else {
            None
        }
    }

    fn encode(&self, w: &mut Writer) -> (r: Result<(), EncodeError>) {
        self.inner.encode(w)
    }
}

impl Decode for ControlOptionRequestBuf {
    open spec fn spec_parse(d: Seq<u8>) -> Parsed<ControlOptionRequestModel> {
        parse_control_option_request(d)
    }

    fn decode(r: &mut Reader) -> (res: Result<ControlOptionRequestBuf, DecodeError>) {
        match r.read_word() {
            Ok(_) => {},
            Err(e) => return Err(e),
        }
        let handle = match r.read_word() {
            Ok(x) => Handle(x),
            Err(e) => return Err(e),
        };
        let option = match r.read_word() {
            Ok(x) => x,
            Err(e) => return Err(e),
        };
        let action = match r.read_word() {
            Ok(x) => Action::from_word(Word(x)),
            Err(e) => return Err(e),
        };
        let value = if action == Action::SET_AUTO {
            OptionValueBuf::button()
        } else {
            match OptionValueBuf::read(r) {
                Ok(v) => v,
                Err(e) => return Err(e),
            }
        };
        Ok(ControlOptionRequestBuf { inner: ControlOptionRequest { handle, option, action, value } })
    }
}

impl RoundTrip for ControlOptionRequestBuf {
    open spec fn valid(&self) -> bool {
        control_option_request_valid(self@)
    }

    #[verifier::spinoff_prover]
    proof fn lemma_round_trip(&self, rest: Seq<u8>) {
        let m = self@;
        let tail = if m.action == Action::SET_AUTO {
            rest
        } else {
            option_value_wire(m.value) + rest
        };
        assert(control_option_request_wire(m) + rest =~= be32(ProcedureNumber::CONTROL_OPTION.code()) + (be32(
            m.handle.0,
        ) + (be32(m.option) + (be32(m.action.code()) + tail))));
        lemma_word_prefix(
            ProcedureNumber::CONTROL_OPTION.code(),
            be32(m.handle.0) + (be32(m.option) + (be32(m.action.code()) + tail)),
        );
        lemma_word_prefix(m.handle.0, be32(m.option) + (be32(m.action.code()) + tail));
        lemma_word_prefix(m.option, be32(m.action.code()) + tail);
        lemma_word_prefix(m.action.code(), tail);
        if m.action != Action::SET_AUTO {
            lemma_option_value_round_trip(m.value, rest);
        }
    }
}

/// What a control-option reply holds.
pub struct ControlOptionReplyModel {
    pub status: Status,
    pub info: u32,
    pub value: OptionValueModel,
    pub resource: Seq<u8>,
}

/// `SANE_NET_CONTROL_OPTION` reply: the status, the info bits, the value
/// after the action, and the resource to authorize, if any.
#[derive(PartialEq, Eq, Debug)]
pub struct ControlOptionReply {
    status: Status,
    info: u32,
    value: OptionValueBuf,
    resource: CString,
}

impl View for ControlOptionReply {
    type V = ControlOptionReplyModel;

    closed spec fn view(&self) -> ControlOptionReplyModel {
        ControlOptionReplyModel { status: self.status, info: self.info, value: self.value@, resource: self.resource@ }
    }
}

pub open spec fn control_option_reply_wire(m: ControlOptionReplyModel) -> Seq<u8> {
    be32(m.status.code()) + be32(m.info) + option_value_wire(m.value) + string_wire(m.resource)
}

pub open spec fn control_option_reply_fits(m: ControlOptionReplyModel) -> bool {
    option_value_fits(m.value) && m.resource.len() + 1 <= u32::MAX
}

/// What a decoder can give back: a canonical status, a value that fits its
/// type, a resource without NUL.
pub open spec fn control_option_reply_valid(m: ControlOptionReplyModel) -> bool {
    m.status.wf() && option_value_wf(m.value) && no_nul(m.resource)
}

pub open spec fn parse_control_option_reply(d: Seq<u8>) -> Parsed<ControlOptionReplyModel> {
    match parse_word(d) {
        Err(e) => Err(e),
        Ok((status, d1)) => match parse_word(d1) {
            Err(e) => Err(e),
            Ok((info, d2)) => match parse_option_value(d2) {
                Err(e) => Err(e),
                Ok((value, d3)) => match parse_string(d3) {
                    Err(e) => Err(e),
                    Ok((resource, d4)) => Ok(
                        (ControlOptionReplyModel { status: Status::from_code(status), info, value, resource }, d4),
                    ),
                },
            },
        },
    }
}

impl ControlOptionReply {
    pub fn status(&self) -> (r: Status)
        ensures
            r == self@.status,
    {
        self.status
    }

    pub fn info(&self) -> (r: u32)
        ensures
            r == self@.info,
    {
        self.info
    }

    pub fn value_type(&self) -> (r: ValueType)
        ensures
            r == self@.value.value_type,
    {
        self.value.value_type()
    }

    pub fn value(&self) -> (r: OptionValue<'_>)
        ensures
            r@ == self@.value,
    {
        self.value.as_ref()
    }

    pub fn resource(&self) -> (r: &CString)
        ensures
            r@ == self@.resource,
    {
        &self.resource
    }
}

impl Encode for ControlOptionReply {
    open spec fn spec_wire(&self) -> Option<Seq<u8>> {
        if control_option_reply_fits(self@) {
            Some(control_option_reply_wire(self@))
        } else {
            None
        }
    }

    fn encode(&self, w: &mut Writer) -> (r: Result<(), EncodeError>) {
        w.write_word(self.status.as_word().0);
        w.write_word(self.info);
        match self.value.as_ref().encode(w) {
            Ok(()) => {},
            Err(e) => return Err(e),
        }
        match w.write_string(&self.resource) {
            Ok(()) => {},
            Err(e) => return Err(e),
        }
        assert(w@ =~= old(w)@ + control_option_reply_wire(self@));
        Ok(())
    }
}

/// An owned `ControlOptionReply` that can be set field by field.
#[derive(PartialEq, Eq, Debug)]
pub struct ControlOptionReplyBuf {
    inner: ControlOptionReply,
}

impl View for ControlOptionReplyBuf {
    type V = ControlOptionReplyModel;

    closed spec fn view(&self) -> ControlOptionReplyModel {
        self.inner@
    }
}

impl ControlOptionReplyBuf {
    /// A good status, no info bits, the empty value, no resource.
    pub fn new() -> (r: ControlOptionReplyBuf)
        ensures
            r@ == (ControlOptionReplyModel {
                status: Status::GOOD,
                info: 0,
                value: empty_value(),
                resource: Seq::empty(),
            }),
    {
        ControlOptionReplyBuf {
            inner: ControlOptionReply {
                status: Status::GOOD,
                info: 0,
                value: OptionValueBuf::button(),
                resource: CString::empty(),
            },
        }
    }

    pub fn set_status(&mut self, status: Status)
        ensures
            final(self)@ == (ControlOptionReplyModel { status, ..old(self)@ }),
    {
        self.inner.status = status;
    }

    pub fn set_info(&mut self, info: u32)
        ensures
            final(self)@ == (ControlOptionReplyModel { info, ..old(self)@ }),
    {
        self.inner.info = info;
    }

    pub fn set_value(&mut self, value: OptionValueBuf)
        ensures
            final(self)@ == (ControlOptionReplyModel { value: value@, ..old(self)@ }),
    {
        self.inner.value = value;
    }

    pub fn set_resource(&mut self, resource: CString)
        ensures
            final(self)@ == (ControlOptionReplyModel { resource: resource@, ..old(self)@ }),
    {
        self.inner.resource = resource;
    }

    pub fn status(&self) -> (r: Status)
        ensures
            r == self@.status,
    {
        self.inner.status
    }

    pub fn info(&self) -> (r: u32)
        ensures
            r == self@.info,
    {
        self.inner.info
    }

    pub fn value(&self) -> (r: OptionValue<'_>)
        ensures
            r@ == self@.value,
    {
        self.inner.value.as_ref()
    }

    pub fn resource(&self) -> (r: &CString)
        ensures
            r@ == self@.resource,
    {
        &self.inner.resource
    }

    /// The reply this buffer holds.
    pub fn as_ref(&self) -> (r: &ControlOptionReply)
        ensures
            r@ == self@,
    {
        &self.inner
    }
}

impl Encode for ControlOptionReplyBuf {
    open spec fn spec_wire(&self) -> Option<Seq<u8>> {
        if control_option_reply_fits(self@) {
            Some(control_option_reply_wire(self@))
        } else {
            None
        }
    }

    fn encode(&self, w: &mut Writer) -> (r: Result<(), EncodeError>) {
        self.inner.encode(w)
    }
}

impl Decode for ControlOptionReplyBuf {
    open spec fn spec_parse(d: Seq<u8>) -> Parsed<ControlOptionReplyModel> {
        parse_control_option_reply(d)
    }

    fn decode(r: &mut Reader) -> (res: Result<ControlOptionReplyBuf, DecodeError>) {
        let status = match r.read_word() {
            Ok(x) => Status::from_word(Word(x)),
            Err(e) => return Err(e),
        };
        let info = match r.read_word() {
            Ok(x) => x,
            Err(e) => return Err(e),
        };
        let value = match OptionValueBuf::read(r) {
            Ok(v) => v,
            Err(e) => return Err(e),
        };
        let resource = match r.read_string() {
            Ok(s) => s,
            Err(e) => return Err(e),
        };
        Ok(ControlOptionReplyBuf { inner: ControlOptionReply { status, info, value, resource } })
    }
}

impl RoundTrip for ControlOptionReplyBuf {
    open spec fn valid(&self) -> bool {
        control_option_reply_valid(self@)
    }

    #[verifier::spinoff_prover]
    proof fn lemma_round_trip(&self, rest: Seq<u8>) {
        let m = self@;
        let s3 = string_wire(m.resource) + rest;
        let s2 = option_value_wire(m.value) + s3;
        assert(control_option_reply_wire(m) + rest =~= be32(m.status.code()) + (be32(m.info) + s2));
        lemma_word_prefix(m.status.code(), be32(m.info) + s2);
        lemma_word_prefix(m.info, s2);
        lemma_option_value_round_trip(m.value, s3);
        lemma_string_round_trip(m.resource, rest);
    }
}

// Debug forms

/// The bytes of a value as a list of numbers, at indent `k`.
pub open spec fn bytes_pretty(b: Seq<u8>, k: nat) -> Seq<char> {
    pretty_list(k, b.map_values(|x: u8| dec_digits(x as nat)))
}

fn push_bytes(s: &mut String, k: usize, bytes: &[u8])
    requires
        k + 4 <= usize::MAX,
    ensures
        final(s)@ == old(s)@ + bytes_pretty(bytes@, k as nat),
{
    let ghost items = bytes@.map_values(|x: u8| dec_digits(x as nat));
    let mut body = String::new();
    let mut i: usize = 0;
    while i < bytes.len()
        invariant
            i <= bytes@.len(),
            k + 4 <= usize::MAX,
            items == bytes@.map_values(|x: u8| dec_digits(x as nat)),
            body@ == list_lines(k as nat, items.take(i as int)),
        decreases bytes@.len() - i,
    {
        let mut item = String::new();
        push_dec(&mut item, bytes[i] as u64);
        push_list_line(&mut body, k, item.as_str(), Ghost(items.take(i as int)));
        assert(items.take(i as int).push(items[i as int]) =~= items.take(i as int + 1));
        i = i + 1;
    }
    assert(items.take(i as int) =~= items);
    push_list(s, k, body.as_str(), bytes.len(), Ghost(items));
}

/// The pretty debug form of a control-option request, one field to a line.
pub open spec fn control_option_request_debug(m: ControlOptionRequestModel) -> Seq<char> {
    "ControlOptionRequest {\n"@ + pretty_field(0, "handle"@, handle_debug(m.handle)) + pretty_field(
        0,
        "option"@,
        dec_digits(m.option as nat),
    ) + pretty_field(0, "action"@, debug_enum(m.action.spec_name(), "SANE_Action"@, m.action.code()))
        + pretty_field(
        0,
        "value_type"@,
        debug_enum(m.value.value_type.spec_name(), "SANE_Value_Type"@, m.value.value_type.code()),
    ) + pretty_field(0, "value"@, bytes_pretty(m.value.bytes, 4)) + "}"@
}

impl ControlOptionRequest {
    /// `ControlOptionRequest { .. }`, one field to a line.
    #[verifier::spinoff_prover]
    pub fn to_debug_string(&self) -> (r: String)
        ensures
            r@ == control_option_request_debug(self@),
    {
        let mut s = String::from_str("ControlOptionRequest {\n");
        push_field(&mut s, 0, "handle", self.handle.to_debug_string().as_str());
        let mut v = String::new();
        push_dec(&mut v, self.option as u64);
        push_field(&mut s, 0, "option", v.as_str());
        push_field(&mut s, 0, "action", self.action.to_debug_string().as_str());
        push_field(&mut s, 0, "value_type", self.value.value_type().to_debug_string().as_str());
        let mut v = String::new();
        push_bytes(&mut v, 4, self.value.as_bytes());
        push_field(&mut s, 0, "value", v.as_str());
        s.append("}");
        assert(s@ =~= control_option_request_debug(self@));
        s
    }
}

/// The pretty debug form of a control-option reply, one field to a line.
pub open spec fn control_option_reply_debug(m: ControlOptionReplyModel) -> Seq<char> {
    "ControlOptionReply {\n"@ + pretty_field(0, "status"@, debug_enum(m.status.spec_name(), "SANE_Status"@, m.status.code()))
        + pretty_field(0, "info"@, dec_digits(m.info as nat)) + pretty_field(
        0,
        "value_type"@,
        debug_enum(m.value.value_type.spec_name(), "SANE_Value_Type"@, m.value.value_type.code()),
    ) + pretty_field(0, "value"@, bytes_pretty(m.value.bytes, 4)) + pretty_field(0, "resource"@, quoted(m.resource))
        + "}"@
}

impl ControlOptionReply {
    /// `ControlOptionReply { .. }`, one field to a line.
    #[verifier::spinoff_prover]
    pub fn to_debug_string(&self) -> (r: String)
        ensures
            r@ == control_option_reply_debug(self@),
    {
        let mut s = String::from_str("ControlOptionReply {\n");
        push_field(&mut s, 0, "status", self.status.to_debug_string().as_str());
        let mut v = String::new();
        push_dec(&mut v, self.info as u64);
        push_field(&mut s, 0, "info", v.as_str());
        push_field(&mut s, 0, "value_type", self.value.value_type().to_debug_string().as_str());
        let mut v = String::new();
        push_bytes(&mut v, 4, self.value.as_bytes());
        push_field(&mut s, 0, "value", v.as_str());
        let mut v = String::new();
        push_quoted(&mut v, self.resource.as_bytes());
        push_field(&mut s, 0, "resource", v.as_str());
        s.append("}");
        assert(s@ =~= control_option_reply_debug(self@));
        s
    }
}

} // verus!
