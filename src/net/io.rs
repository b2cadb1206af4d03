//! Bytes in and out: the reader and writer over which every message is
//! carried, the primitive wire forms, and the errors of both directions.
//!
//! Each wire form is stated twice: as a spec function from a value to its
//! bytes (`*_wire`), and as a spec parser from bytes to the value and the
//! bytes left after it (`parse_*`). Decoders are proved to follow the
//! parser exactly; encoders to append exactly the stated bytes.

use vstd::prelude::*;

use crate::cstring::{find_nul, is_first_nul, no_nul, CString};
use crate::net::{ByteOrder, Handle, ProcedureNumber};
use crate::{
    bits_i32, i32_bits, Action, Bool, ConstraintType, Fixed, Frame, Int, Parameters, Range, Status, Unit,
    ValueType, Word,
};

verus! {

// Errors

/// How reading from the byte source failed.
#[derive(Clone, Copy, PartialEq, Eq, Structural, Debug)]
pub enum IoError {
    /// The input ended before the value did.
    UnexpectedEof,
}

/// Why a value could not be decoded.
#[derive(Clone, Copy, PartialEq, Eq, Structural, Debug)]
pub enum DecodeError {
    /// A string of non-zero length with no NUL among its bytes.
    InvalidString,
    /// An option value whose type is unknown, or whose declared size does
    /// not fit its type; also an option descriptor whose size does not fit
    /// its value type.
    InvalidOptionType,
    /// A boolean word other than 0 or 1.
    InvalidBool(Word),
    /// An option descriptor of an unknown value type.
    InvalidValueType(ValueType),
    /// A constraint type that the option's value type does not allow.
    InvalidConstraint(ValueType, ConstraintType),
    /// A null pointer flag where a value is required.
    NullPtr,
    /// The byte source failed.
    IoError(IoError),
}

/// Why a value could not be encoded.
#[derive(Clone, Copy, PartialEq, Eq, Structural, Debug)]
pub enum EncodeError {
    /// A length that does not fit a 32-bit word.
    SizeOverflow(usize),
}

// Wire forms

/// A parse: the value and the bytes after it, or the error.
pub type Parsed<T> = Result<(T, Seq<u8>), DecodeError>;

pub open spec fn eof<T>() -> Parsed<T> {
    Err(DecodeError::IoError(IoError::UnexpectedEof))
}

/// The four big-endian bytes of a word.
pub open spec fn be32(v: u32) -> Seq<u8> {
    seq![
        ((v >> 24u32) & 0xffu32) as u8,
        ((v >> 16u32) & 0xffu32) as u8,
        ((v >> 8u32) & 0xffu32) as u8,
        (v & 0xffu32) as u8,
    ]
}

/// The word whose big-endian bytes start `d`.
pub open spec fn be32_value(d: Seq<u8>) -> u32 {
    ((d[0] as u32) << 24u32) | ((d[1] as u32) << 16u32) | ((d[2] as u32) << 8u32) | (d[3] as u32)
}

pub proof fn lemma_be32_value(v: u32)
    ensures
        be32_value(be32(v)) == v,
        be32(v).len() == 4,
{
    let b = be32(v);
    assert((((((v >> 24u32) & 0xffu32) as u8) as u32) << 24u32) | (((((v >> 16u32) & 0xffu32) as u8) as u32) << 16u32)
        | (((((v >> 8u32) & 0xffu32) as u8) as u32) << 8u32) | (((v & 0xffu32) as u8) as u32) == v) by (bit_vector);
}

#[verifier::spinoff_prover]
/// A word at the front reads back, leaving what followed it.
pub proof fn lemma_word_prefix(v: u32, rest: Seq<u8>)
    ensures
        parse_word(be32(v) + rest) == Ok::<(u32, Seq<u8>), DecodeError>((v, rest)),
        be32_value(be32(v) + rest) == v,
        (be32(v) + rest).skip(4) == rest,
        (be32(v) + rest).len() == rest.len() + 4,
{
    lemma_be32_value(v);
    let d = be32(v) + rest;
    assert(d.take(4) =~= be32(v));
    assert(be32_value(d) == be32_value(d.take(4)));
    assert(d.skip(4) =~= rest);
}

pub proof fn lemma_be32_bytes(d: Seq<u8>)
    requires
        d.len() >= 4,
    ensures
        be32(be32_value(d)) == d.take(4),
{
    let (a, b, c, e) = (d[0], d[1], d[2], d[3]);
    let v = ((a as u32) << 24u32) | ((b as u32) << 16u32) | ((c as u32) << 8u32) | (e as u32);
    assert(((v >> 24u32) & 0xffu32) as u8 == a) by (bit_vector)
        requires v == ((a as u32) << 24u32) | ((b as u32) << 16u32) | ((c as u32) << 8u32) | (e as u32);
    assert(((v >> 16u32) & 0xffu32) as u8 == b) by (bit_vector)
        requires v == ((a as u32) << 24u32) | ((b as u32) << 16u32) | ((c as u32) << 8u32) | (e as u32);
    assert(((v >> 8u32) & 0xffu32) as u8 == c) by (bit_vector)
        requires v == ((a as u32) << 24u32) | ((b as u32) << 16u32) | ((c as u32) << 8u32) | (e as u32);
    assert((v & 0xffu32) as u8 == e) by (bit_vector)
        requires v == ((a as u32) << 24u32) | ((b as u32) << 16u32) | ((c as u32) << 8u32) | (e as u32);
    assert(be32(be32_value(d)) =~= d.take(4));
}

/// A word: four bytes, big-endian.
pub open spec fn parse_word(d: Seq<u8>) -> Parsed<u32> {
    if d.len() < 4 {
        eof()
    } else {
        Ok((be32_value(d), d.skip(4)))
    }
}

/// `n` raw bytes.
pub open spec fn parse_bytes(d: Seq<u8>, n: nat) -> Parsed<Seq<u8>> {
    if d.len() < n {
        eof()
    } else {
        Ok((d.take(n as int), d.skip(n as int)))
    }
}

/// A boolean: the word 0 or 1, anything else an error.
pub open spec fn parse_bool(d: Seq<u8>) -> Parsed<Bool> {
    match parse_word(d) {
        Err(e) => Err(e),
        Ok((w, rest)) => if w == 0 {
            Ok((Bool::FALSE, rest))
        } else if w == 1 {
            Ok((Bool::TRUE, rest))
        } else {
            Err(DecodeError::InvalidBool(Word(w)))
        },
    }
}

/// The first zero byte of `s`, when it has one.
pub open spec fn first_nul(s: Seq<u8>) -> int {
    choose|i: int| is_first_nul(s, i)
}

#[verifier::spinoff_prover]
pub proof fn lemma_first_nul(s: Seq<u8>, i: int)
    requires
        is_first_nul(s, i),
    ensures
        first_nul(s) == i,
{
    let j = first_nul(s);
    assert(is_first_nul(s, j));
    if j < i {
        assert(s.take(i)[j] == s[j]);
    } else if i < j {
        assert(s.take(j)[i] == s[i]);
    }
}

/// The bytes of a nullable string: length 0 for NULL, else the length
/// counting the NUL, the bytes, and the NUL.
pub open spec fn opt_string_wire(s: Option<Seq<u8>>) -> Seq<u8> {
    match s {
        None => be32(0),
        Some(b) => be32((b.len() + 1) as u32) + b.push(0),
    }
}

/// A nullable string fits when its length with the NUL fits a word.
pub open spec fn opt_string_fits(s: Option<Seq<u8>>) -> bool {
    match s {
        None => true,
        Some(b) => b.len() + 1 <= u32::MAX,
    }
}

/// A non-nullable string: always present on the wire, even when empty.
pub open spec fn string_wire(s: Seq<u8>) -> Seq<u8> {
    opt_string_wire(Some(s))
}

/// A nullable string: length 0 is NULL; otherwise the bytes up to the first
/// NUL, which must be among them.
#[verifier::opaque]
pub open spec fn parse_opt_string(d: Seq<u8>) -> Parsed<Option<Seq<u8>>> {
    match parse_word(d) {
        Err(e) => Err(e),
        Ok((n, rest)) => if n == 0 {
            Ok((None, rest))
        } else {
            match parse_bytes(rest, n as nat) {
                Err(e) => Err(e),
                Ok((body, rest2)) => if exists|i: int| is_first_nul(body, i) {
                    Ok((Some(body.take(first_nul(body))), rest2))
                } else {
                    Err(DecodeError::InvalidString)
                },
            }
        },
    }
}

/// A non-nullable string: as the nullable one, with NULL read as empty.
pub open spec fn parse_string(d: Seq<u8>) -> Parsed<Seq<u8>> {
    match parse_opt_string(d) {
        Err(e) => Err(e),
        Ok((None, rest)) => Ok((Seq::empty(), rest)),
        Ok((Some(s), rest)) => Ok((s, rest)),
    }
}

/// A decode's result against its parse: the same value and the same bytes
/// left, or the same error.
pub open spec fn reads<T>(res: Result<T, DecodeError>, expected: Parsed<T>, after: Seq<u8>) -> bool {
    match expected {
        Ok((v, rest)) => res == Ok::<T, DecodeError>(v) && after == rest,
        Err(e) => res == Err::<T, DecodeError>(e),
    }
}

pub open spec fn opt_view(s: Option<CString>) -> Option<Seq<u8>> {
    match s {
        None => None,
        Some(c) => Some(c@),
    }
}

pub open spec fn opt_ref_view(s: Option<&CString>) -> Option<Seq<u8>> {
    match s {
        None => None,
        Some(c) => Some(c@),
    }
}

pub open spec fn opt_string_view(r: Result<Option<CString>, DecodeError>) -> Result<Option<Seq<u8>>, DecodeError> {
    match r {
        Ok(s) => Ok(opt_view(s)),
        Err(e) => Err(e),
    }
}

pub open spec fn string_view(r: Result<CString, DecodeError>) -> Result<Seq<u8>, DecodeError> {
    match r {
        Ok(s) => Ok(s@),
        Err(e) => Err(e),
    }
}

/// A value's decode result, with the value seen through its view.
pub open spec fn view_result<T: View>(r: Result<T, DecodeError>) -> Result<T::V, DecodeError> {
    match r {
        Ok(v) => Ok(v@),
        Err(e) => Err(e),
    }
}

/// Values with a wire form.
pub trait Encode {
    /// The bytes of this value; `None` when a length in it does not fit a
    /// word.
    spec fn spec_wire(&self) -> Option<Seq<u8>>;

    /// Appends the wire form; fails, with the writer partly written, only
    /// when a length does not fit a word.
    fn encode(&self, w: &mut Writer) -> (r: Result<(), EncodeError>)
        ensures
            r is Ok <==> self.spec_wire() is Some,
            r is Ok ==> final(w)@ == old(w)@ + self.spec_wire().unwrap(),
    ;
}

/// Values that can be read back from their wire form.
pub trait Decode: Sized + View {
    /// What the bytes `d` begin with, and what follows it.
    spec fn spec_parse(d: Seq<u8>) -> Parsed<Self::V>;

    /// Reads one value; on an error the reader's position is unspecified.
    fn decode(r: &mut Reader) -> (res: Result<Self, DecodeError>)
        ensures
            reads(view_result(res), Self::spec_parse(old(r).remaining()), final(r).remaining()),
    ;
}

/// Values whose wire form decodes back to them.
pub trait RoundTrip: Encode + Decode {
    /// The values that the wire form carries in full; a decoder can make
    /// no other.
    spec fn valid(&self) -> bool;

    /// Decoding the wire form, whatever follows it, gives the value back
    /// and leaves what follows.
    proof fn lemma_round_trip(&self, rest: Seq<u8>)
        requires
            self.valid(),
            self.spec_wire() is Some,
        ensures
            Self::spec_parse(self.spec_wire().unwrap() + rest) == Ok::<(Self::V, Seq<u8>), DecodeError>(
                (self@, rest),
            ),
    ;
}

/// A nullable string reads back as itself.
#[verifier::spinoff_prover]
pub proof fn lemma_opt_string_round_trip(s: Option<Seq<u8>>, rest: Seq<u8>)
    requires
        opt_string_fits(s),
        s matches Some(b) ==> no_nul(b),
    ensures
        parse_opt_string(opt_string_wire(s) + rest) == Ok::<(Option<Seq<u8>>, Seq<u8>), DecodeError>((s, rest)),
{
    reveal(parse_opt_string);
    let d = opt_string_wire(s) + rest;
    match s {
        None => {
            lemma_be32_value(0);
            assert(d.take(4) =~= be32(0));
            assert(be32_value(d) == be32_value(d.take(4)));
            assert(d.skip(4) =~= rest);
            assert(parse_word(d) == Ok::<(u32, Seq<u8>), DecodeError>((0u32, rest)));
            assert(parse_opt_string(d) == Ok::<(Option<Seq<u8>>, Seq<u8>), DecodeError>((None, rest)));
        },
        Some(b) => {
            let n = (b.len() + 1) as u32;
            lemma_be32_value(n);
            assert(d.take(4) =~= be32(n));
            assert(be32_value(d) == be32_value(d.take(4)));
            let tail = d.skip(4);
            assert(tail =~= b.push(0) + rest);
            let body = tail.take(n as int);
            assert(body =~= b.push(0));
            assert(tail.skip(n as int) =~= rest);
            assert(body.take(b.len() as int) =~= b);
            assert(is_first_nul(body, b.len() as int));
            assert(exists|i: int| is_first_nul(body, i));
            lemma_first_nul(body, b.len() as int);
            assert(body.take(first_nul(body)) =~= b);
            assert(parse_word(d) == Ok::<(u32, Seq<u8>), DecodeError>((n, tail)));
            assert(parse_bytes(tail, n as nat) == Ok::<(Seq<u8>, Seq<u8>), DecodeError>((body, rest)));
            assert(parse_opt_string(d) == Ok::<(Option<Seq<u8>>, Seq<u8>), DecodeError>((Some(b), rest)));
        },
    }
}

/// A string reads back as itself; the empty one comes back empty.
pub proof fn lemma_string_round_trip(s: Seq<u8>, rest: Seq<u8>)
    requires
        s.len() + 1 <= u32::MAX,
        no_nul(s),
    ensures
        parse_string(string_wire(s) + rest) == Ok::<(Seq<u8>, Seq<u8>), DecodeError>((s, rest)),
{
    lemma_opt_string_round_trip(Some(s), rest);
}

/// NULL reads back as the empty string where a string is required.
pub proof fn lemma_null_reads_as_empty(rest: Seq<u8>)
    ensures
        parse_string(opt_string_wire(None) + rest) == Ok::<(Seq<u8>, Seq<u8>), DecodeError>((Seq::empty(), rest)),
{
    lemma_opt_string_round_trip(None, rest);
}

// Primitive wire forms

impl Encode for Word {
    open spec fn spec_wire(&self) -> Option<Seq<u8>> {
        Some(be32(self.0))
    }

    fn encode(&self, w: &mut Writer) -> (r: Result<(), EncodeError>) {
        w.write_word(self.0);
        Ok(())
    }
}

impl Decode for Word {
    open spec fn spec_parse(d: Seq<u8>) -> Parsed<Word> {
        match parse_word(d) {
            Ok((v, rest)) => Ok((Word(v), rest)),
            Err(e) => Err(e),
        }
    }

    fn decode(r: &mut Reader) -> (res: Result<Word, DecodeError>) {
        match r.read_word() {
            Ok(v) => Ok(Word(v)),
            Err(e) => Err(e),
        }
    }
}

impl Encode for Int {
    open spec fn spec_wire(&self) -> Option<Seq<u8>> {
        Some(be32(i32_bits(self.0)))
    }

    fn encode(&self, w: &mut Writer) -> (r: Result<(), EncodeError>) {
        w.write_word(self.as_word().0);
        Ok(())
    }
}

impl Decode for Int {
    open spec fn spec_parse(d: Seq<u8>) -> Parsed<Int> {
        match parse_word(d) {
            Ok((v, rest)) => Ok((Int(bits_i32(v)), rest)),
            Err(e) => Err(e),
        }
    }

    fn decode(r: &mut Reader) -> (res: Result<Int, DecodeError>) {
        match r.read_word() {
            Ok(v) => Ok(Int::from_word(Word(v))),
            Err(e) => Err(e),
        }
    }
}

impl Encode for Fixed {
    open spec fn spec_wire(&self) -> Option<Seq<u8>> {
        Some(be32(i32_bits(self.0)))
    }

    fn encode(&self, w: &mut Writer) -> (r: Result<(), EncodeError>) {
        w.write_word(self.as_word().0);
        Ok(())
    }
}

impl Decode for Fixed {
    open spec fn spec_parse(d: Seq<u8>) -> Parsed<Fixed> {
        match parse_word(d) {
            Ok((v, rest)) => Ok((Fixed(bits_i32(v)), rest)),
            Err(e) => Err(e),
        }
    }

    fn decode(r: &mut Reader) -> (res: Result<Fixed, DecodeError>) {
        match r.read_word() {
            Ok(v) => Ok(Fixed::from_word(Word(v))),
            Err(e) => Err(e),
        }
    }
}

impl Encode for Bool {
    open spec fn spec_wire(&self) -> Option<Seq<u8>> {
        Some(be32(self.code()))
    }

    fn encode(&self, w: &mut Writer) -> (r: Result<(), EncodeError>) {
        w.write_bool(*self);
        Ok(())
    }
}

impl Decode for Bool {
    open spec fn spec_parse(d: Seq<u8>) -> Parsed<Bool> {
        parse_bool(d)
    }

    fn decode(r: &mut Reader) -> (res: Result<Bool, DecodeError>) {
        r.read_bool()
    }
}

impl Encode for Handle {
    open spec fn spec_wire(&self) -> Option<Seq<u8>> {
        Some(be32(self.0))
    }

    fn encode(&self, w: &mut Writer) -> (r: Result<(), EncodeError>) {
        w.write_word(self.0);
        Ok(())
    }
}

impl Decode for Handle {
    open spec fn spec_parse(d: Seq<u8>) -> Parsed<Handle> {
        match parse_word(d) {
            Ok((v, rest)) => Ok((Handle(v), rest)),
            Err(e) => Err(e),
        }
    }

    fn decode(r: &mut Reader) -> (res: Result<Handle, DecodeError>) {
        match r.read_word() {
            Ok(v) => Ok(Handle(v)),
            Err(e) => Err(e),
        }
    }
}

impl Encode for CString {
    open spec fn spec_wire(&self) -> Option<Seq<u8>> {
        if self@.len() + 1 <= u32::MAX {
            Some(string_wire(self@))
        } else {
            None
        }
    }

    fn encode(&self, w: &mut Writer) -> (r: Result<(), EncodeError>) {
        w.write_string(self)
    }
}

impl Decode for CString {
    open spec fn spec_parse(d: Seq<u8>) -> Parsed<Seq<u8>> {
        parse_string(d)
    }

    fn decode(r: &mut Reader) -> (res: Result<CString, DecodeError>) {
        r.read_string()
    }
}

/// `SANE_Range`: three words, in the order `min`, `max`, `quant`.
pub open spec fn range_wire(r: Range) -> Seq<u8> {
    be32(r.min.0) + be32(r.max.0) + be32(r.quant.0)
}

pub open spec fn parse_range(d: Seq<u8>) -> Parsed<Range> {
    if d.len() < 12 {
        eof()
    } else {
        Ok((
            Range {
                min: Word(be32_value(d)),
                max: Word(be32_value(d.skip(4))),
                quant: Word(be32_value(d.skip(8))),
            },
            d.skip(12),
        ))
    }
}

pub proof fn lemma_range_round_trip(r: Range, rest: Seq<u8>)
    ensures
        parse_range(range_wire(r) + rest) == Ok::<(Range, Seq<u8>), DecodeError>((r, rest)),
{
    let s2 = be32(r.quant.0) + rest;
    let s1 = be32(r.max.0) + s2;
    let d = be32(r.min.0) + s1;
    assert(range_wire(r) + rest =~= d);
    lemma_word_prefix(r.min.0, s1);
    lemma_word_prefix(r.max.0, s2);
    lemma_word_prefix(r.quant.0, rest);
    assert(d.skip(8) =~= s2);
    assert(d.skip(12) =~= rest);
}

impl Encode for Range {
    open spec fn spec_wire(&self) -> Option<Seq<u8>> {
        Some(range_wire(*self))
    }

    fn encode(&self, w: &mut Writer) -> (r: Result<(), EncodeError>) {
        w.write_word(self.min.0);
        w.write_word(self.max.0);
        w.write_word(self.quant.0);
        assert(w@ =~= old(w)@ + range_wire(*self));
        Ok(())
    }
}

impl Decode for Range {
    open spec fn spec_parse(d: Seq<u8>) -> Parsed<Range> {
        parse_range(d)
    }

    fn decode(r: &mut Reader) -> (res: Result<Range, DecodeError>) {
        let ghost d = r.remaining();
        let min = match r.read_word() {
            Ok(v) => v,
            Err(e) => return Err(e),
        };
        let max = match r.read_word() {
            Ok(v) => v,
            Err(e) => return Err(e),
        };
        let quant = match r.read_word() {
            Ok(v) => v,
            Err(e) => return Err(e),
        };
        proof {
            assert(d.skip(4).skip(4) =~= d.skip(8));
            assert(d.skip(8).skip(4) =~= d.skip(12));
        }
        Ok(Range { min: Word(min), max: Word(max), quant: Word(quant) })
    }
}

/// `SANE_Parameters`: six words in field order.
pub open spec fn parameters_wire(p: Parameters) -> Seq<u8> {
    be32(p.format.code()) + be32(p.last_frame.code()) + be32(i32_bits(p.bytes_per_line.0)) + be32(
        i32_bits(p.pixels_per_line.0),
    ) + be32(i32_bits(p.lines.0)) + be32(i32_bits(p.depth.0))
}

pub open spec fn parse_parameters(d: Seq<u8>) -> Parsed<Parameters> {
    if d.len() < 24 {
        eof()
    } else {
        match parse_bool(d.skip(4)) {
            Err(e) => Err(e),
            Ok((last_frame, _)) => Ok((
                Parameters {
                    format: Frame::from_code(be32_value(d)),
                    last_frame,
                    bytes_per_line: Int(bits_i32(be32_value(d.skip(8)))),
                    pixels_per_line: Int(bits_i32(be32_value(d.skip(12)))),
                    lines: Int(bits_i32(be32_value(d.skip(16)))),
                    depth: Int(bits_i32(be32_value(d.skip(20)))),
                },
                d.skip(24),
            )),
        }
    }
}

/// What a decoder can give back: a canonical frame code.
pub open spec fn parameters_valid(p: Parameters) -> bool {
    p.format.wf()
}

pub proof fn lemma_bits_i32(v: i32)
    ensures
        bits_i32(i32_bits(v)) == v,
{
}

#[verifier::spinoff_prover]
pub proof fn lemma_parameters_round_trip(p: Parameters, rest: Seq<u8>)
    requires
        parameters_valid(p),
    ensures
        parse_parameters(parameters_wire(p) + rest) == Ok::<(Parameters, Seq<u8>), DecodeError>((p, rest)),
{
    let (w0, w1, w2, w3, w4, w5) = (
        p.format.code(),
        p.last_frame.code(),
        i32_bits(p.bytes_per_line.0),
        i32_bits(p.pixels_per_line.0),
        i32_bits(p.lines.0),
        i32_bits(p.depth.0),
    );
    let s5 = be32(w5) + rest;
    let s4 = be32(w4) + s5;
    let s3 = be32(w3) + s4;
    let s2 = be32(w2) + s3;
    let s1 = be32(w1) + s2;
    let d = be32(w0) + s1;
    assert(parameters_wire(p) + rest =~= d);
    lemma_word_prefix(w0, s1);
    lemma_word_prefix(w1, s2);
    lemma_word_prefix(w2, s3);
    lemma_word_prefix(w3, s4);
    lemma_word_prefix(w4, s5);
    lemma_word_prefix(w5, rest);
    assert(d.skip(4) == s1);
    assert(d.skip(8) =~= s2);
    assert(d.skip(12) =~= s3);
    assert(d.skip(16) =~= s4);
    assert(d.skip(20) =~= s5);
    assert(d.skip(24) =~= rest);
    lemma_bits_i32(p.bytes_per_line.0);
    lemma_bits_i32(p.pixels_per_line.0);
    lemma_bits_i32(p.lines.0);
    lemma_bits_i32(p.depth.0);
}

impl Encode for Parameters {
    open spec fn spec_wire(&self) -> Option<Seq<u8>> {
        Some(parameters_wire(*self))
    }

    fn encode(&self, w: &mut Writer) -> (r: Result<(), EncodeError>) {
        w.write_word(self.format.as_word().0);
        w.write_bool(self.last_frame);
        w.write_word(self.bytes_per_line.as_word().0);
        w.write_word(self.pixels_per_line.as_word().0);
        w.write_word(self.lines.as_word().0);
        w.write_word(self.depth.as_word().0);
        assert(w@ =~= old(w)@ + parameters_wire(*self));
        Ok(())
    }
}

impl Decode for Parameters {
    open spec fn spec_parse(d: Seq<u8>) -> Parsed<Parameters> {
        parse_parameters(d)
    }

    #[verifier::spinoff_prover]
    fn decode(r: &mut Reader) -> (res: Result<Parameters, DecodeError>) {
        let ghost d = r.remaining();
        if r.remaining_len() < 24 {
            return Err(DecodeError::IoError(IoError::UnexpectedEof));
        }
        let format = match Frame::decode(r) {
            Ok(v) => v,
            Err(e) => return Err(e),
        };
        let last_frame = match r.read_bool() {
            Ok(v) => v,
            Err(e) => return Err(e),
        };
        let bytes_per_line = match Int::decode(r) {
            Ok(v) => v,
            Err(e) => return Err(e),
        };
        let pixels_per_line = match Int::decode(r) {
            Ok(v) => v,
            Err(e) => return Err(e),
        };
        let lines = match Int::decode(r) {
            Ok(v) => v,
            Err(e) => return Err(e),
        };
        let depth = match Int::decode(r) {
            Ok(v) => v,
            Err(e) => return Err(e),
        };
        proof {
            assert(d.skip(4).skip(4) =~= d.skip(8));
            assert(d.skip(8).skip(4) =~= d.skip(12));
            assert(d.skip(12).skip(4) =~= d.skip(16));
            assert(d.skip(16).skip(4) =~= d.skip(20));
            assert(d.skip(20).skip(4) =~= d.skip(24));
        }
        Ok(Parameters { format, last_frame, bytes_per_line, pixels_per_line, lines, depth })
    }
}

impl Encode for Status {
    open spec fn spec_wire(&self) -> Option<Seq<u8>> {
        Some(be32(self.code()))
    }

    fn encode(&self, w: &mut Writer) -> (r: Result<(), EncodeError>) {
        w.write_word(self.as_word().0);
        Ok(())
    }
}

impl Decode for Status {
    open spec fn spec_parse(d: Seq<u8>) -> Parsed<Status> {
        match parse_word(d) {
            Ok((c, rest)) => Ok((Status::from_code(c), rest)),
            Err(e) => Err(e),
        }
    }

    fn decode(r: &mut Reader) -> (res: Result<Status, DecodeError>) {
        match r.read_word() {
            Ok(c) => Ok(Status::from_word(Word(c))),
            Err(e) => Err(e),
        }
    }
}

impl Encode for ValueType {
    open spec fn spec_wire(&self) -> Option<Seq<u8>> {
        Some(be32(self.code()))
    }

    fn encode(&self, w: &mut Writer) -> (r: Result<(), EncodeError>) {
        w.write_word(self.as_word().0);
        Ok(())
    }
}

impl Decode for ValueType {
    open spec fn spec_parse(d: Seq<u8>) -> Parsed<ValueType> {
        match parse_word(d) {
            Ok((c, rest)) => Ok((ValueType::from_code(c), rest)),
            Err(e) => Err(e),
        }
    }

    fn decode(r: &mut Reader) -> (res: Result<ValueType, DecodeError>) {
        match r.read_word() {
            Ok(c) => Ok(ValueType::from_word(Word(c))),
            Err(e) => Err(e),
        }
    }
}

impl Encode for Unit {
    open spec fn spec_wire(&self) -> Option<Seq<u8>> {
        Some(be32(self.code()))
    }

    fn encode(&self, w: &mut Writer) -> (r: Result<(), EncodeError>) {
        w.write_word(self.as_word().0);
        Ok(())
    }
}

impl Decode for Unit {
    open spec fn spec_parse(d: Seq<u8>) -> Parsed<Unit> {
        match parse_word(d) {
            Ok((c, rest)) => Ok((Unit::from_code(c), rest)),
            Err(e) => Err(e),
        }
    }

    fn decode(r: &mut Reader) -> (res: Result<Unit, DecodeError>) {
        match r.read_word() {
            Ok(c) => Ok(Unit::from_word(Word(c))),
            Err(e) => Err(e),
        }
    }
}

impl Encode for ConstraintType {
    open spec fn spec_wire(&self) -> Option<Seq<u8>> {
        Some(be32(self.code()))
    }

    fn encode(&self, w: &mut Writer) -> (r: Result<(), EncodeError>) {
        w.write_word(self.as_word().0);
        Ok(())
    }
}

impl Decode for ConstraintType {
    open spec fn spec_parse(d: Seq<u8>) -> Parsed<ConstraintType> {
        match parse_word(d) {
            Ok((c, rest)) => Ok((ConstraintType::from_code(c), rest)),
            Err(e) => Err(e),
        }
    }

    fn decode(r: &mut Reader) -> (res: Result<ConstraintType, DecodeError>) {
        match r.read_word() {
            Ok(c) => Ok(ConstraintType::from_word(Word(c))),
            Err(e) => Err(e),
        }
    }
}

impl Encode for Action {
    open spec fn spec_wire(&self) -> Option<Seq<u8>> {
        Some(be32(self.code()))
    }

    fn encode(&self, w: &mut Writer) -> (r: Result<(), EncodeError>) {
        w.write_word(self.as_word().0);
        Ok(())
    }
}

impl Decode for Action {
    open spec fn spec_parse(d: Seq<u8>) -> Parsed<Action> {
        match parse_word(d) {
            Ok((c, rest)) => Ok((Action::from_code(c), rest)),
            Err(e) => Err(e),
        }
    }

    fn decode(r: &mut Reader) -> (res: Result<Action, DecodeError>) {
        match r.read_word() {
            Ok(c) => Ok(Action::from_word(Word(c))),
            Err(e) => Err(e),
        }
    }
}

impl Encode for Frame {
    open spec fn spec_wire(&self) -> Option<Seq<u8>> {
        Some(be32(self.code()))
    }

    fn encode(&self, w: &mut Writer) -> (r: Result<(), EncodeError>) {
        w.write_word(self.as_word().0);
        Ok(())
    }
}

impl Decode for Frame {
    open spec fn spec_parse(d: Seq<u8>) -> Parsed<Frame> {
        match parse_word(d) {
            Ok((c, rest)) => Ok((Frame::from_code(c), rest)),
            Err(e) => Err(e),
        }
    }

    fn decode(r: &mut Reader) -> (res: Result<Frame, DecodeError>) {
        match r.read_word() {
            Ok(c) => Ok(Frame::from_word(Word(c))),
            Err(e) => Err(e),
        }
    }
}

impl Encode for ByteOrder {
    open spec fn spec_wire(&self) -> Option<Seq<u8>> {
        Some(be32(self.code()))
    }

    fn encode(&self, w: &mut Writer) -> (r: Result<(), EncodeError>) {
        w.write_word(self.as_word().0);
        Ok(())
    }
}

impl Decode for ByteOrder {
    open spec fn spec_parse(d: Seq<u8>) -> Parsed<ByteOrder> {
        match parse_word(d) {
            Ok((c, rest)) => Ok((ByteOrder::from_code(c), rest)),
            Err(e) => Err(e),
        }
    }

    fn decode(r: &mut Reader) -> (res: Result<ByteOrder, DecodeError>) {
        match r.read_word() {
            Ok(c) => Ok(ByteOrder::from_word(Word(c))),
            Err(e) => Err(e),
        }
    }
}

impl Encode for ProcedureNumber {
    open spec fn spec_wire(&self) -> Option<Seq<u8>> {
        Some(be32(self.code()))
    }

    fn encode(&self, w: &mut Writer) -> (r: Result<(), EncodeError>) {
        w.write_word(self.as_word().0);
        Ok(())
    }
}

impl Decode for ProcedureNumber {
    open spec fn spec_parse(d: Seq<u8>) -> Parsed<ProcedureNumber> {
        match parse_word(d) {
            Ok((c, rest)) => Ok((ProcedureNumber::from_code(c), rest)),
            Err(e) => Err(e),
        }
    }

    fn decode(r: &mut Reader) -> (res: Result<ProcedureNumber, DecodeError>) {
        match r.read_word() {
            Ok(c) => Ok(ProcedureNumber::from_word(Word(c))),
            Err(e) => Err(e),
        }
    }
}

/// Any four bytes decode as a `Status`, named or not, that encodes back to
/// the same four bytes.
pub proof fn lemma_status_code_preserved(d: Seq<u8>, rest: Seq<u8>)
    requires
        d.len() == 4,
    ensures
        match Status::spec_parse(d + rest) {
            Ok((v, after)) => v.spec_wire() == Some(d) && after == rest && v.wf(),
            Err(_) => false,
        },
{
    lemma_be32_bytes(d + rest);
    assert((d + rest).take(4) =~= d);
    assert((d + rest).skip(4) =~= rest);
}

/// Any four bytes decode as a `ValueType`, named or not, that encodes back to
/// the same four bytes.
pub proof fn lemma_value_type_code_preserved(d: Seq<u8>, rest: Seq<u8>)
    requires
        d.len() == 4,
    ensures
        match ValueType::spec_parse(d + rest) {
            Ok((v, after)) => v.spec_wire() == Some(d) && after == rest && v.wf(),
            Err(_) => false,
        },
{
    lemma_be32_bytes(d + rest);
    assert((d + rest).take(4) =~= d);
    assert((d + rest).skip(4) =~= rest);
}

/// Any four bytes decode as a `Unit`, named or not, that encodes back to
/// the same four bytes.
pub proof fn lemma_unit_code_preserved(d: Seq<u8>, rest: Seq<u8>)
    requires
        d.len() == 4,
    ensures
        match Unit::spec_parse(d + rest) {
            Ok((v, after)) => v.spec_wire() == Some(d) && after == rest && v.wf(),
            Err(_) => false,
        },
{
    lemma_be32_bytes(d + rest);
    assert((d + rest).take(4) =~= d);
    assert((d + rest).skip(4) =~= rest);
}

/// Any four bytes decode as a `ConstraintType`, named or not, that encodes back to
/// the same four bytes.
pub proof fn lemma_constraint_type_code_preserved(d: Seq<u8>, rest: Seq<u8>)
    requires
        d.len() == 4,
    ensures
        match ConstraintType::spec_parse(d + rest) {
            Ok((v, after)) => v.spec_wire() == Some(d) && after == rest && v.wf(),
            Err(_) => false,
        },
{
    lemma_be32_bytes(d + rest);
    assert((d + rest).take(4) =~= d);
    assert((d + rest).skip(4) =~= rest);
}

/// Any four bytes decode as a `Action`, named or not, that encodes back to
/// the same four bytes.
pub proof fn lemma_action_code_preserved(d: Seq<u8>, rest: Seq<u8>)
    requires
        d.len() == 4,
    ensures
        match Action::spec_parse(d + rest) {
            Ok((v, after)) => v.spec_wire() == Some(d) && after == rest && v.wf(),
            Err(_) => false,
        },
{
    lemma_be32_bytes(d + rest);
    assert((d + rest).take(4) =~= d);
    assert((d + rest).skip(4) =~= rest);
}

/// Any four bytes decode as a `Frame`, named or not, that encodes back to
/// the same four bytes.
pub proof fn lemma_frame_code_preserved(d: Seq<u8>, rest: Seq<u8>)
    requires
        d.len() == 4,
    ensures
        match Frame::spec_parse(d + rest) {
            Ok((v, after)) => v.spec_wire() == Some(d) && after == rest && v.wf(),
            Err(_) => false,
        },
{
    lemma_be32_bytes(d + rest);
    assert((d + rest).take(4) =~= d);
    assert((d + rest).skip(4) =~= rest);
}

/// Any four bytes decode as a `ByteOrder`, named or not, that encodes back to
/// the same four bytes.
pub proof fn lemma_byte_order_code_preserved(d: Seq<u8>, rest: Seq<u8>)
    requires
        d.len() == 4,
    ensures
        match ByteOrder::spec_parse(d + rest) {
            Ok((v, after)) => v.spec_wire() == Some(d) && after == rest && v.wf(),
            Err(_) => false,
        },
{
    lemma_be32_bytes(d + rest);
    assert((d + rest).take(4) =~= d);
    assert((d + rest).skip(4) =~= rest);
}

/// Any four bytes decode as a `ProcedureNumber`, named or not, that encodes back to
/// the same four bytes.
pub proof fn lemma_procedure_number_code_preserved(d: Seq<u8>, rest: Seq<u8>)
    requires
        d.len() == 4,
    ensures
        match ProcedureNumber::spec_parse(d + rest) {
            Ok((v, after)) => v.spec_wire() == Some(d) && after == rest && v.wf(),
            Err(_) => false,
        },
{
    lemma_be32_bytes(d + rest);
    assert((d + rest).take(4) =~= d);
    assert((d + rest).skip(4) =~= rest);
}

// Lists

/// The bytes of several parts, in order.
pub open spec fn concat_all(parts: Seq<Seq<u8>>) -> Seq<u8>
    decreases parts.len(),
{
    if parts.len() == 0 {
        Seq::empty()
    } else {
        parts[0] + concat_all(parts.drop_first())
    }
}

#[verifier::spinoff_prover]
pub proof fn lemma_concat_all_push(parts: Seq<Seq<u8>>, p: Seq<u8>)
    ensures
        concat_all(parts.push(p)) == concat_all(parts) + p,
    decreases parts.len(),
{
    if parts.len() == 0 {
        assert(parts.push(p).drop_first() =~= Seq::<Seq<u8>>::empty());
        assert(concat_all(parts.push(p).drop_first()) =~= Seq::<u8>::empty());
        assert(concat_all(parts) =~= Seq::<u8>::empty());
        assert(concat_all(parts.push(p)) =~= p);
    } else {
        assert(parts.push(p).drop_first() =~= parts.drop_first().push(p));
        lemma_concat_all_push(parts.drop_first(), p);
        assert(concat_all(parts.push(p)) =~= concat_all(parts) + p);
    }
}

/// Words one after the other.
pub open spec fn words_wire(ws: Seq<u32>) -> Seq<u8> {
    concat_all(ws.map_values(|w: u32| be32(w)))
}

pub proof fn lemma_words_wire_len(ws: Seq<u32>)
    ensures
        words_wire(ws).len() == 4 * ws.len(),
    decreases ws.len(),
{
    if ws.len() > 0 {
        assert(ws.map_values(|w: u32| be32(w)).drop_first() =~= ws.drop_first().map_values(|w: u32| be32(w)));
        lemma_words_wire_len(ws.drop_first());
    }
}

/// `k` words.
pub open spec fn parse_words(d: Seq<u8>, k: nat) -> Parsed<Seq<u32>>
    decreases k,
{
    if k == 0 {
        Ok((Seq::empty(), d))
    } else {
        match parse_word(d) {
            Err(e) => Err(e),
            Ok((w, rest)) => match parse_words(rest, (k - 1) as nat) {
                Err(e) => Err(e),
                Ok((ws, rest2)) => Ok((seq![w] + ws, rest2)),
            },
        }
    }
}

/// Puts the items already read in front of a parse of the rest.
pub open spec fn prepend<T>(acc: Seq<T>, p: Parsed<Seq<T>>) -> Parsed<Seq<T>> {
    match p {
        Ok((xs, rest)) => Ok((acc + xs, rest)),
        Err(e) => Err(e),
    }
}

pub proof fn lemma_prepend_push<T>(acc: Seq<T>, x: T, p: Parsed<Seq<T>>)
    ensures
        prepend(acc, prepend(seq![x], p)) == prepend(acc.push(x), p),
{
    match p {
        Ok((xs, rest)) => {
            assert(acc + (seq![x] + xs) =~= acc.push(x) + xs);
        },
        Err(_) => {},
    }
}

#[verifier::spinoff_prover]
pub proof fn lemma_parse_words_unfold(d: Seq<u8>, k: nat)
    requires
        k > 0,
    ensures
        parse_words(d, k) == match parse_word(d) {
            Err(e) => Err(e),
            Ok((w, rest)) => prepend(seq![w], parse_words(rest, (k - 1) as nat)),
        },
{
    match parse_word(d) {
        Err(e) => {},
        Ok((w, rest)) => {
            match parse_words(rest, (k - 1) as nat) {
                Err(e) => {},
                Ok((ws, rest2)) => {},
            }
        },
    }
}

#[verifier::spinoff_prover]
pub proof fn lemma_words_round_trip(ws: Seq<u32>, rest: Seq<u8>)
    ensures
        parse_words(words_wire(ws) + rest, ws.len()) == Ok::<(Seq<u32>, Seq<u8>), DecodeError>((ws, rest)),
    decreases ws.len(),
{
    if ws.len() == 0 {
        assert(ws.map_values(|w: u32| be32(w)) =~= Seq::<Seq<u8>>::empty());
        assert(words_wire(ws) + rest =~= rest);
        assert(ws =~= Seq::<u32>::empty());
    } else {
        let tail = ws.drop_first();
        assert(ws.map_values(|w: u32| be32(w)).drop_first() =~= tail.map_values(|w: u32| be32(w)));
        let d = words_wire(ws) + rest;
        assert(d =~= be32(ws[0]) + (words_wire(tail) + rest));
        lemma_be32_value(ws[0]);
        assert(d.take(4) =~= be32(ws[0]));
        assert(be32_value(d) == be32_value(d.take(4)));
        assert(d.skip(4) =~= words_wire(tail) + rest);
        assert(parse_word(d) == Ok::<(u32, Seq<u8>), DecodeError>((ws[0], words_wire(tail) + rest)));
        lemma_words_round_trip(tail, rest);
        lemma_parse_words_unfold(d, ws.len());
        assert(tail.len() == (ws.len() - 1) as nat);
        assert(parse_words(words_wire(tail) + rest, (ws.len() - 1) as nat) == Ok::<(Seq<u32>, Seq<u8>), DecodeError>((tail, rest)));
        assert(parse_words(d, ws.len()) == prepend(seq![ws[0]], Ok::<(Seq<u32>, Seq<u8>), DecodeError>((tail, rest))));
        assert(seq![ws[0]] + tail =~= ws);
    }
}

/// A string list on the wire: the strings, then a NULL one.
pub open spec fn string_items_wire(ss: Seq<Seq<u8>>) -> Seq<u8> {
    concat_all(ss.map_values(|s: Seq<u8>| string_wire(s))) + be32(0)
}

/// Up to `k` nullable strings, ending early at the first NULL.
pub open spec fn parse_string_items(d: Seq<u8>, k: nat) -> Parsed<Seq<Seq<u8>>>
    decreases k,
{
    if k == 0 {
        Ok((Seq::empty(), d))
    } else {
        match parse_opt_string(d) {
            Err(e) => Err(e),
            Ok((None, rest)) => Ok((Seq::empty(), rest)),
            Ok((Some(s), rest)) => match parse_string_items(rest, (k - 1) as nat) {
                Err(e) => Err(e),
                Ok((ss, rest2)) => Ok((seq![s] + ss, rest2)),
            },
        }
    }
}

/// Every string's length, with its NUL, fits a word.
pub open spec fn strings_fit(ss: Seq<Seq<u8>>) -> bool {
    forall|i: int| 0 <= i < ss.len() ==> (#[trigger] ss[i]).len() + 1 <= u32::MAX
}

/// Every string fits on the wire and holds no NUL.
pub open spec fn strings_ok(ss: Seq<Seq<u8>>) -> bool {
    forall|i: int| 0 <= i < ss.len() ==> ss[i].len() + 1 <= u32::MAX && no_nul(#[trigger] ss[i])
}

#[verifier::spinoff_prover]
pub proof fn lemma_parse_string_items_unfold(d: Seq<u8>, k: nat)
    requires
        k > 0,
    ensures
        parse_string_items(d, k) == match parse_opt_string(d) {
            Err(e) => Err(e),
            Ok((None, rest)) => Ok((Seq::empty(), rest)),
            Ok((Some(s), rest)) => prepend(seq![s], parse_string_items(rest, (k - 1) as nat)),
        },
{
    match parse_opt_string(d) {
        Err(e) => {},
        Ok((None, rest)) => {},
        Ok((Some(s), rest)) => {
            match parse_string_items(rest, (k - 1) as nat) {
                Err(e) => {},
                Ok((ss, rest2)) => {},
            }
        },
    }
}

#[verifier::spinoff_prover]
pub proof fn lemma_string_items_round_trip(ss: Seq<Seq<u8>>, rest: Seq<u8>)
    requires
        strings_ok(ss),
    ensures
        parse_string_items(string_items_wire(ss) + rest, ss.len() + 1) == Ok::<(Seq<Seq<u8>>, Seq<u8>), DecodeError>(
            (ss, rest),
        ),
    decreases ss.len(),
{
    let d = string_items_wire(ss) + rest;
    lemma_parse_string_items_unfold(d, ss.len() + 1);
    if ss.len() == 0 {
        assert(ss.map_values(|s: Seq<u8>| string_wire(s)) =~= Seq::<Seq<u8>>::empty());
        assert(d =~= opt_string_wire(None) + rest);
        lemma_opt_string_round_trip(None, rest);
        assert(parse_opt_string(d) == Ok::<(Option<Seq<u8>>, Seq<u8>), DecodeError>((None, rest)));
        assert(ss =~= Seq::<Seq<u8>>::empty());
    } else {
        let head = ss[0];
        let tail = ss.drop_first();
        let after = string_items_wire(tail) + rest;
        assert(ss.map_values(|s: Seq<u8>| string_wire(s)).drop_first() =~= tail.map_values(
            |s: Seq<u8>| string_wire(s),
        ));
        assert(d =~= opt_string_wire(Some(head)) + after);
        assert(head.len() + 1 <= u32::MAX && no_nul(head));
        lemma_opt_string_round_trip(Some(head), after);
        assert(strings_ok(tail)) by {
            assert forall|i: int| 0 <= i < tail.len() implies tail[i].len() + 1 <= u32::MAX && no_nul(
                #[trigger] tail[i],
            ) by {
                assert(tail[i] == ss[i + 1]);
            }
        }
        lemma_string_items_round_trip(tail, rest);
        assert(tail.len() + 1 == (ss.len() + 1 - 1) as nat);
        assert(parse_opt_string(d) == Ok::<(Option<Seq<u8>>, Seq<u8>), DecodeError>((Some(head), after)));
        assert(parse_string_items(d, ss.len() + 1) == prepend(seq![head], Ok::<(Seq<Seq<u8>>, Seq<u8>), DecodeError>((tail, rest))));
        assert(seq![head] + tail =~= ss);
    }
}

/// A list of pointers to items: each item after a FALSE flag, the list
/// ended by a TRUE flag.
pub open spec fn ptr_items_wire(parts: Seq<Seq<u8>>) -> Seq<u8> {
    concat_all(parts.map_values(|p: Seq<u8>| be32(0) + p)) + be32(1)
}

/// Up to `k` flagged items, ending early at a TRUE flag.
pub open spec fn parse_ptr_items<T: Decode>(d: Seq<u8>, k: nat) -> Parsed<Seq<T::V>>
    decreases k,
{
    if k == 0 {
        Ok((Seq::empty(), d))
    } else {
        match parse_bool(d) {
            Err(e) => Err(e),
            Ok((Bool::TRUE, rest)) => Ok((Seq::empty(), rest)),
            Ok((Bool::FALSE, rest)) => match T::spec_parse(rest) {
                Err(e) => Err(e),
                Ok((x, rest2)) => match parse_ptr_items::<T>(rest2, (k - 1) as nat) {
                    Err(e) => Err(e),
                    Ok((xs, rest3)) => Ok((seq![x] + xs, rest3)),
                },
            },
        }
    }
}

#[verifier::spinoff_prover]
pub proof fn lemma_parse_ptr_items_unfold<T: Decode>(d: Seq<u8>, k: nat)
    requires
        k > 0,
    ensures
        parse_ptr_items::<T>(d, k) == match parse_bool(d) {
            Err(e) => Err(e),
            Ok((Bool::TRUE, rest)) => Ok((Seq::empty(), rest)),
            Ok((Bool::FALSE, rest)) => match T::spec_parse(rest) {
                Err(e) => Err(e),
                Ok((x, rest2)) => prepend(seq![x], parse_ptr_items::<T>(rest2, (k - 1) as nat)),
            },
        },
{
    match parse_bool(d) {
        Err(e) => {},
        Ok((Bool::TRUE, rest)) => {},
        Ok((Bool::FALSE, rest)) => {
            match T::spec_parse(rest) {
                Err(e) => {},
                Ok((x, rest2)) => {
                    match parse_ptr_items::<T>(rest2, (k - 1) as nat) {
                        Err(e) => {},
                        Ok((xs, rest3)) => {},
                    }
                },
            }
        },
    }
}

/// Every item decodes back from its own wire form.
pub open spec fn all_round_trip<T: RoundTrip>(items: Seq<T>) -> bool {
    forall|i: int| 0 <= i < items.len() ==> (#[trigger] items[i]).valid() && items[i].spec_wire() is Some
}

/// A flagged list reads back as its items, whatever follows it.
#[verifier::spinoff_prover]
pub proof fn lemma_ptr_items_round_trip<T: RoundTrip>(items: Seq<T>, rest: Seq<u8>)
    requires
        all_round_trip(items),
    ensures
        parse_ptr_items::<T>(ptr_items_wire(item_wires(items)) + rest, items.len() + 1) == Ok::<
            (Seq<T::V>, Seq<u8>),
            DecodeError,
        >((views(items), rest)),
    decreases items.len(),
{
    let d = ptr_items_wire(item_wires(items)) + rest;
    lemma_parse_ptr_items_unfold::<T>(d, items.len() + 1);
    if items.len() == 0 {
        assert(item_wires(items).map_values(|p: Seq<u8>| be32(0) + p) =~= Seq::<Seq<u8>>::empty());
        assert(d =~= be32(1) + rest);
        lemma_word_prefix(1, rest);
        assert(views(items) =~= Seq::<T::V>::empty());
    } else {
        let tail = items.drop_first();
        let w0 = items[0].spec_wire().unwrap();
        let after = ptr_items_wire(item_wires(tail)) + rest;
        assert(item_wires(items).map_values(|p: Seq<u8>| be32(0) + p).drop_first() =~= item_wires(tail).map_values(
            |p: Seq<u8>| be32(0) + p,
        ));
        assert(item_wires(items).map_values(|p: Seq<u8>| be32(0) + p)[0] == be32(0) + w0);
        assert(d =~= be32(0) + (w0 + after));
        lemma_word_prefix(0, w0 + after);
        items[0].lemma_round_trip(after);
        assert(all_round_trip(tail)) by {
            assert forall|i: int| 0 <= i < tail.len() implies (#[trigger] tail[i]).valid() && tail[i].spec_wire() is Some by {
                assert(tail[i] == items[i + 1]);
            }
        }
        lemma_ptr_items_round_trip(tail, rest);
        assert(seq![items[0]@] + views(tail) =~= views(items));
    }
}

/// The views of a vector's items.
pub open spec fn views<T: View>(v: Seq<T>) -> Seq<T::V> {
    v.map_values(|t: T| t@)
}

/// The wire forms of items, each present.
pub open spec fn item_wires<T: Encode>(v: Seq<T>) -> Seq<Seq<u8>> {
    v.map_values(|t: T| t.spec_wire().unwrap())
}

/// Every item has a wire form.
pub open spec fn all_encodable<T: Encode>(v: Seq<T>) -> bool {
    forall|i: int| 0 <= i < v.len() ==> (#[trigger] v[i]).spec_wire() is Some
}

/// Appends each item after a FALSE flag, then a TRUE flag.
pub fn write_ptr_items<T: Encode>(w: &mut Writer, items: &[T]) -> (r: Result<(), EncodeError>)
    ensures
        r is Ok <==> all_encodable(items@),
        r is Ok ==> final(w)@ == old(w)@ + ptr_items_wire(item_wires(items@)),
{
    let mut i: usize = 0;
    while i < items.len()
        invariant
            i <= items@.len(),
            all_encodable(items@.take(i as int)),
            w@ == old(w)@ + concat_all(item_wires(items@.take(i as int)).map_values(|p: Seq<u8>| be32(0) + p)),
        decreases items@.len() - i,
    {
        w.write_word(0);
        match items[i].encode(w) {
            Ok(()) => {},
            Err(e) => {
                assert(!all_encodable(items@)) by {
                    assert(items@[i as int].spec_wire() is None);
                }
                return Err(e);
            },
        }
        proof {
            let p = items@[i as int].spec_wire().unwrap();
            let parts = item_wires(items@.take(i as int)).map_values(|p: Seq<u8>| be32(0) + p);
            assert(item_wires(items@.take(i as int + 1)).map_values(|p: Seq<u8>| be32(0) + p) =~= parts.push(
                be32(0) + p,
            ));
            lemma_concat_all_push(parts, be32(0) + p);
            assert(w@ =~= old(w)@ + concat_all(parts.push(be32(0) + p)));
            assert forall|j: int| 0 <= j < i + 1 implies (#[trigger] items@.take(i as int + 1)[j]).spec_wire() is Some by {
                if j < i {
                    assert(items@.take(i as int + 1)[j] == items@.take(i as int)[j]);
                }
            }
        }
        i = i + 1;
    }
    w.write_word(1);
    assert(items@.take(i as int) =~= items@);
    Ok(())
}

impl RoundTrip for Status {
    /// A canonical value: `Unknown` never holds a named code.
    open spec fn valid(&self) -> bool {
        self.wf()
    }

    proof fn lemma_round_trip(&self, rest: Seq<u8>) {
        lemma_word_prefix(self.code(), rest);
    }
}

impl RoundTrip for ValueType {
    /// A canonical value: `Unknown` never holds a named code.
    open spec fn valid(&self) -> bool {
        self.wf()
    }

    proof fn lemma_round_trip(&self, rest: Seq<u8>) {
        lemma_word_prefix(self.code(), rest);
    }
}

impl RoundTrip for Unit {
    /// A canonical value: `Unknown` never holds a named code.
    open spec fn valid(&self) -> bool {
        self.wf()
    }

    proof fn lemma_round_trip(&self, rest: Seq<u8>) {
        lemma_word_prefix(self.code(), rest);
    }
}

impl RoundTrip for ConstraintType {
    /// A canonical value: `Unknown` never holds a named code.
    open spec fn valid(&self) -> bool {
        self.wf()
    }

    proof fn lemma_round_trip(&self, rest: Seq<u8>) {
        lemma_word_prefix(self.code(), rest);
    }
}

impl RoundTrip for Action {
    /// A canonical value: `Unknown` never holds a named code.
    open spec fn valid(&self) -> bool {
        self.wf()
    }

    proof fn lemma_round_trip(&self, rest: Seq<u8>) {
        lemma_word_prefix(self.code(), rest);
    }
}

impl RoundTrip for Frame {
    /// A canonical value: `Unknown` never holds a named code.
    open spec fn valid(&self) -> bool {
        self.wf()
    }

    proof fn lemma_round_trip(&self, rest: Seq<u8>) {
        lemma_word_prefix(self.code(), rest);
    }
}

impl RoundTrip for ByteOrder {
    /// A canonical value: `Unknown` never holds a named code.
    open spec fn valid(&self) -> bool {
        self.wf()
    }

    proof fn lemma_round_trip(&self, rest: Seq<u8>) {
        lemma_word_prefix(self.code(), rest);
    }
}

impl RoundTrip for ProcedureNumber {
    /// A canonical value: `Unknown` never holds a named code.
    open spec fn valid(&self) -> bool {
        self.wf()
    }

    proof fn lemma_round_trip(&self, rest: Seq<u8>) {
        lemma_word_prefix(self.code(), rest);
    }
}

impl RoundTrip for Word {
    open spec fn valid(&self) -> bool {
        true
    }

    proof fn lemma_round_trip(&self, rest: Seq<u8>) {
        lemma_word_prefix(self.0, rest);
    }
}

impl RoundTrip for Int {
    open spec fn valid(&self) -> bool {
        true
    }

    proof fn lemma_round_trip(&self, rest: Seq<u8>) {
        lemma_word_prefix(i32_bits(self.0), rest);
        lemma_bits_i32(self.0);
    }
}

impl RoundTrip for Fixed {
    open spec fn valid(&self) -> bool {
        true
    }

    proof fn lemma_round_trip(&self, rest: Seq<u8>) {
        lemma_word_prefix(i32_bits(self.0), rest);
        lemma_bits_i32(self.0);
    }
}

impl RoundTrip for Bool {
    open spec fn valid(&self) -> bool {
        true
    }

    proof fn lemma_round_trip(&self, rest: Seq<u8>) {
        lemma_word_prefix(self.code(), rest);
    }
}

impl RoundTrip for Handle {
    open spec fn valid(&self) -> bool {
        true
    }

    proof fn lemma_round_trip(&self, rest: Seq<u8>) {
        lemma_word_prefix(self.0, rest);
    }
}

impl RoundTrip for CString {
    /// No NUL among the bytes, which every `CString` keeps.
    open spec fn valid(&self) -> bool {
        no_nul(self@)
    }

    proof fn lemma_round_trip(&self, rest: Seq<u8>) {
        lemma_string_round_trip(self@, rest);
    }
}

impl RoundTrip for Range {
    open spec fn valid(&self) -> bool {
        true
    }

    proof fn lemma_round_trip(&self, rest: Seq<u8>) {
        lemma_range_round_trip(*self, rest);
    }
}

impl RoundTrip for Parameters {
    open spec fn valid(&self) -> bool {
        parameters_valid(*self)
    }

    proof fn lemma_round_trip(&self, rest: Seq<u8>) {
        lemma_parameters_round_trip(*self, rest);
    }
}

/// A boolean word other than 0 or 1 is refused, naming the word.
pub proof fn lemma_bool_strict(w: u32, rest: Seq<u8>)
    requires
        w > 1,
    ensures
        parse_bool(be32(w) + rest) == Err::<(Bool, Seq<u8>), DecodeError>(DecodeError::InvalidBool(Word(w))),
{
    lemma_word_prefix(w, rest);
}

// Reader

/// Decodes values from a buffer of received bytes.
pub struct Reader {
    bytes: Vec<u8>,
    pos: usize,
}

impl Reader {
    #[verifier::type_invariant]
    spec fn inv(&self) -> bool {
        self.pos <= self.bytes.len()
    }

    /// The bytes not read yet.
    pub closed spec fn remaining(&self) -> Seq<u8> {
        self.bytes@.skip(self.pos as int)
    }

    pub fn new(bytes: Vec<u8>) -> (r: Reader)
        ensures
            r.remaining() == bytes@,
    {
        let r = Reader { bytes, pos: 0 };
        assert(r.remaining() =~= r.bytes@);
        r
    }

    /// How many bytes are left.
    pub fn remaining_len(&self) -> (r: usize)
        ensures
            r == self.remaining().len(),
    {
        proof { use_type_invariant(self); }
        self.bytes.len() - self.pos
    }

    /// Reads one big-endian word.
    pub fn read_word(&mut self) -> (res: Result<u32, DecodeError>)
        ensures
            reads(res, parse_word(old(self).remaining()), final(self).remaining()),
    {
        proof { use_type_invariant(&*self); }
        if self.bytes.len() - self.pos < 4 {
            return Err(DecodeError::IoError(IoError::UnexpectedEof));
        }
        let p = self.pos;
        let v = ((self.bytes[p] as u32) << 24u32) | ((self.bytes[p + 1] as u32) << 16u32)
            | ((self.bytes[p + 2] as u32) << 8u32) | (self.bytes[p + 3] as u32);
        self.pos = p + 4;
        proof {
            let d = old(self).remaining();
            assert(d[0] == self.bytes@[p as int]);
            assert(d[1] == self.bytes@[p + 1]);
            assert(d[2] == self.bytes@[p + 2]);
            assert(d[3] == self.bytes@[p + 3]);
            assert(self.remaining() =~= d.skip(4));
        }
        Ok(v)
    }

    /// Reads `n` raw bytes.
    pub fn read_vec(&mut self, n: usize) -> (res: Result<Vec<u8>, DecodeError>)
        ensures
            reads(
                match res {
                    Ok(v) => Ok(v@),
                    Err(e) => Err(e),
                },
                parse_bytes(old(self).remaining(), n as nat),
                final(self).remaining(),
            ),
    {
        proof { use_type_invariant(&*self); }
        if self.bytes.len() - self.pos < n {
            return Err(DecodeError::IoError(IoError::UnexpectedEof));
        }
        let start = self.pos;
        let len = self.bytes.len();
        let mut v: Vec<u8> = Vec::new();
        let mut i: usize = 0;
        while i < n
            invariant
                i <= n,
                len == self.bytes@.len(),
                start + n <= len,
                v@ == self.bytes@.subrange(start as int, start + i),
            decreases n - i,
        {
            v.push(self.bytes[start + i]);
            assert(self.bytes@.subrange(start as int, start + i + 1) =~= self.bytes@.subrange(
                start as int,
                start + i,
            ).push(self.bytes@[start + i]));
            i = i + 1;
        }
        self.pos = start + n;
        proof {
            let d = old(self).remaining();
            assert(v@ =~= d.take(n as int));
            assert(self.remaining() =~= d.skip(n as int));
        }
        Ok(v)
    }

    /// Reads a size word as a native size.
    pub fn read_size(&mut self) -> (res: Result<usize, DecodeError>)
        ensures
            reads(
                match res {
                    Ok(n) => Ok(n as u32),
                    Err(e) => Err(e),
                },
                parse_word(old(self).remaining()),
                final(self).remaining(),
            ),
            res matches Ok(n) ==> n <= u32::MAX,
    {
        match self.read_word() {
            Ok(w) => Ok(w as usize),
            Err(e) => Err(e),
        }
    }

    /// Reads a boolean word.
    pub fn read_bool(&mut self) -> (res: Result<Bool, DecodeError>)
        ensures
            reads(res, parse_bool(old(self).remaining()), final(self).remaining()),
    {
        let w = match self.read_word() {
            Ok(w) => w,
            Err(e) => return Err(e),
        };
        if w == 0 {
            Ok(Bool::FALSE)
        } else if w == 1 {
            Ok(Bool::TRUE)
        } else {
            Err(DecodeError::InvalidBool(Word(w)))
        }
    }

    /// Reads a nullable string.
    pub fn read_opt_string(&mut self) -> (res: Result<Option<CString>, DecodeError>)
        ensures
            reads(opt_string_view(res), parse_opt_string(old(self).remaining()), final(self).remaining()),
    {
        reveal(parse_opt_string);
        let n = match self.read_size() {
            Ok(n) => n,
            Err(e) => return Err(e),
        };
        if n == 0 {
            return Ok(None);
        }
        let bytes = match self.read_vec(n) {
            Ok(b) => b,
            Err(e) => return Err(e),
        };
        match find_nul(bytes.as_slice()) {
            Some(i) => {
                proof { lemma_first_nul(bytes@, i as int); }
                Ok(Some(CString::from_bytes_until_nul(bytes.as_slice(), i)))
            },
            None => {
                proof {
                    assert forall|i: int| !is_first_nul(bytes@, i) by {
                        if is_first_nul(bytes@, i) {
                            assert(bytes@[i] == 0);
                        }
                    }
                }
                Err(DecodeError::InvalidString)
            },
        }
    }

    /// Reads a string; NULL comes back empty.
    pub fn read_string(&mut self) -> (res: Result<CString, DecodeError>)
        ensures
            reads(string_view(res), parse_string(old(self).remaining()), final(self).remaining()),
    {
        match self.read_opt_string() {
            Ok(Some(s)) => Ok(s),
            Ok(None) => Ok(CString::empty()),
            Err(e) => Err(e),
        }
    }
    /// Reads `k` words.
    pub fn read_words(&mut self, k: usize) -> (res: Result<Vec<u32>, DecodeError>)
        ensures
            reads(
                match res {
                    Ok(v) => Ok(v@),
                    Err(e) => Err(e),
                },
                parse_words(old(self).remaining(), k as nat),
                final(self).remaining(),
            ),
    {
        let ghost d = self.remaining();
        let mut v: Vec<u32> = Vec::new();
        let mut i: usize = 0;
        while i < k
            invariant
                i <= k,
                d == old(self).remaining(),
                parse_words(d, k as nat) == prepend(v@, parse_words(self.remaining(), (k - i) as nat)),
            decreases k - i,
        {
            proof { lemma_parse_words_unfold(self.remaining(), (k - i) as nat); }
            let w = match self.read_word() {
                Ok(w) => w,
                Err(e) => {
                    assert(parse_words(d, k as nat) == Err::<(Seq<u32>, Seq<u8>), DecodeError>(e));
                    return Err(e);
                },
            };
            proof {
                lemma_prepend_push(v@, w, parse_words(self.remaining(), (k - i - 1) as nat));
            }
            v.push(w);
            i = i + 1;
        }
        assert(v@ + Seq::<u32>::empty() =~= v@);
        Ok(v)
    }

    /// Reads up to `k` nullable strings, stopping after the first NULL.
    pub fn read_string_items(&mut self, k: usize) -> (res: Result<Vec<CString>, DecodeError>)
        ensures
            reads(
                match res {
                    Ok(v) => Ok(views(v@)),
                    Err(e) => Err(e),
                },
                parse_string_items(old(self).remaining(), k as nat),
                final(self).remaining(),
            ),
    {
        let ghost d = self.remaining();
        let mut v: Vec<CString> = Vec::new();
        let mut i: usize = 0;
        while i < k
            invariant
                i <= k,
                v@.len() == i,
                d == old(self).remaining(),
                parse_string_items(d, k as nat) == prepend(
                    views(v@),
                    parse_string_items(self.remaining(), (k - i) as nat),
                ),
            decreases k - i,
        {
            proof { lemma_parse_string_items_unfold(self.remaining(), (k - i) as nat); }
            let ghost cur = self.remaining();
            let s = match self.read_opt_string() {
                Ok(Some(s)) => s,
                Ok(None) => {
                    assert(parse_string_items(cur, (k - i) as nat) == Ok::<(Seq<Seq<u8>>, Seq<u8>), DecodeError>(
                        (Seq::empty(), self.remaining()),
                    ));
                    assert(views(v@) + Seq::<Seq<u8>>::empty() =~= views(v@));
                    return Ok(v);
                },
                Err(e) => {
                    assert(parse_string_items(d, k as nat) == Err::<(Seq<Seq<u8>>, Seq<u8>), DecodeError>(e));
                    return Err(e);
                },
            };
            proof {
                lemma_prepend_push(views(v@), s@, parse_string_items(self.remaining(), (k - i - 1) as nat));
            }
            let ghost before = v@;
            v.push(s);
            assert(views(v@) =~= views(before).push(v@[i as int]@));
            i = i + 1;
        }
        assert(views(v@) + Seq::<Seq<u8>>::empty() =~= views(v@));
        Ok(v)
    }

    /// Reads up to `k` flagged items, stopping at a TRUE flag.
    pub fn read_ptr_items<T: Decode>(&mut self, k: usize) -> (res: Result<Vec<T>, DecodeError>)
        ensures
            reads(
                match res {
                    Ok(v) => Ok(views(v@)),
                    Err(e) => Err(e),
                },
                parse_ptr_items::<T>(old(self).remaining(), k as nat),
                final(self).remaining(),
            ),
    {
        let ghost d = self.remaining();
        let mut v: Vec<T> = Vec::new();
        let mut i: usize = 0;
        while i < k
            invariant
                i <= k,
                v@.len() == i,
                d == old(self).remaining(),
                parse_ptr_items::<T>(d, k as nat) == prepend(
                    views(v@),
                    parse_ptr_items::<T>(self.remaining(), (k - i) as nat),
                ),
            decreases k - i,
        {
            proof { lemma_parse_ptr_items_unfold::<T>(self.remaining(), (k - i) as nat); }
            let ghost cur = self.remaining();
            let is_null = match self.read_bool() {
                Ok(b) => b,
                Err(e) => {
                    assert(parse_ptr_items::<T>(d, k as nat) == Err::<(Seq<T::V>, Seq<u8>), DecodeError>(e));
                    return Err(e);
                },
            };
            if is_null == Bool::TRUE {
                assert(parse_ptr_items::<T>(cur, (k - i) as nat) == Ok::<(Seq<T::V>, Seq<u8>), DecodeError>(
                    (Seq::empty(), self.remaining()),
                ));
                assert(views(v@) + Seq::<T::V>::empty() =~= views(v@));
                return Ok(v);
            }
            let ghost cur2 = self.remaining();
            let x = match T::decode(self) {
                Ok(x) => x,
                Err(e) => {
                    assert(T::spec_parse(cur2) == Err::<(T::V, Seq<u8>), DecodeError>(e));
                    assert(parse_ptr_items::<T>(d, k as nat) == Err::<(Seq<T::V>, Seq<u8>), DecodeError>(e));
                    return Err(e);
                },
            };
            proof {
                lemma_prepend_push(views(v@), x@, parse_ptr_items::<T>(self.remaining(), (k - i - 1) as nat));
            }
            let ghost before = v@;
            v.push(x);
            assert(views(v@) =~= views(before).push(v@[i as int]@));
            i = i + 1;
        }
        assert(views(v@) + Seq::<T::V>::empty() =~= views(v@));
        Ok(v)
    }
}

// Writer

/// Encodes values into a growing buffer of bytes to send.
pub struct Writer {
    bytes: Vec<u8>,
}

impl View for Writer {
    type V = Seq<u8>;

    closed spec fn view(&self) -> Seq<u8> {
        self.bytes@
    }
}

impl Writer {
    pub fn new() -> (r: Writer)
        ensures
            r@ == Seq::<u8>::empty(),
    {
        Writer { bytes: Vec::new() }
    }

    /// The bytes written so far.
    pub fn as_bytes(&self) -> (r: &[u8])
        ensures
            r@ == self@,
    {
        self.bytes.as_slice()
    }

    pub fn into_bytes(self) -> (r: Vec<u8>)
        ensures
            r@ == self@,
    {
        self.bytes
    }

    /// Appends raw bytes.
    pub fn write_bytes(&mut self, b: &[u8])
        ensures
            final(self)@ == old(self)@ + b@,
    {
        let mut i: usize = 0;
        while i < b.len()
            invariant
                i <= b@.len(),
                self.bytes@ == old(self).bytes@ + b@.take(i as int),
            decreases b@.len() - i,
        {
            self.bytes.push(b[i]);
            assert(b@.take(i as int + 1) =~= b@.take(i as int).push(b@[i as int]));
            i = i + 1;
        }
        assert(b@.take(i as int) =~= b@);
    }

    /// Appends one big-endian word.
    pub fn write_word(&mut self, v: u32)
        ensures
            final(self)@ == old(self)@ + be32(v),
    {
        self.bytes.push(((v >> 24u32) & 0xffu32) as u8);
        self.bytes.push(((v >> 16u32) & 0xffu32) as u8);
        self.bytes.push(((v >> 8u32) & 0xffu32) as u8);
        self.bytes.push((v & 0xffu32) as u8);
        assert(self.bytes@ =~= old(self).bytes@ + be32(v));
    }

    /// Appends a size as a word; fails when it does not fit one.
    pub fn write_size(&mut self, size: usize) -> (r: Result<(), EncodeError>)
        ensures
            r is Ok <==> size <= u32::MAX,
            r is Ok ==> final(self)@ == old(self)@ + be32(size as u32),
            r is Err ==> final(self)@ == old(self)@ && r == Err::<(), EncodeError>(EncodeError::SizeOverflow(size)),
    {
        if size > 0xffff_ffffusize {
            return Err(EncodeError::SizeOverflow(size));
        }
        self.write_word(size as u32);
        Ok(())
    }

    /// Appends a boolean word.
    pub fn write_bool(&mut self, b: Bool)
        ensures
            final(self)@ == old(self)@ + be32(b.code()),
    {
        self.write_word(b.as_word().0);
    }

    /// Appends a nullable string.
    pub fn write_opt_string(&mut self, s: Option<&CString>) -> (r: Result<(), EncodeError>)
        ensures
            r is Ok <==> opt_string_fits(opt_ref_view(s)),
            r is Ok ==> final(self)@ == old(self)@ + opt_string_wire(opt_ref_view(s)),
    {
        match s {
            None => {
                self.write_word(0);
                Ok(())
            },
            Some(c) => self.write_string(c),
        }
    }

    /// Appends a string, with its NUL.
    pub fn write_string(&mut self, s: &CString) -> (r: Result<(), EncodeError>)
        ensures
            r is Ok <==> s@.len() + 1 <= u32::MAX,
            r is Ok ==> final(self)@ == old(self)@ + string_wire(s@),
            no_nul(s@),
    {
        let bytes = s.to_bytes_with_nul();
        match self.write_size(bytes.len()) {
            Ok(()) => {},
            Err(e) => return Err(e),
        }
        self.write_bytes(bytes.as_slice());
        assert(final(self)@ =~= old(self)@ + string_wire(s@));
        Ok(())
    }

    /// Appends words one after the other.
    pub fn write_words(&mut self, ws: &[u32])
        ensures
            final(self)@ == old(self)@ + words_wire(ws@),
    {
        let mut i: usize = 0;
        while i < ws.len()
            invariant
                i <= ws@.len(),
                self@ == old(self)@ + words_wire(ws@.take(i as int)),
            decreases ws@.len() - i,
        {
            self.write_word(ws[i]);
            proof {
                let parts = ws@.take(i as int).map_values(|w: u32| be32(w));
                assert(ws@.take(i as int + 1).map_values(|w: u32| be32(w)) =~= parts.push(be32(ws@[i as int])));
                lemma_concat_all_push(parts, be32(ws@[i as int]));
            }
            i = i + 1;
        }
        assert(ws@.take(i as int) =~= ws@);
    }

    /// Appends a count plus one as a word; fails when that does not fit.
    pub fn write_count_plus_one(&mut self, n: usize) -> (r: Result<(), EncodeError>)
        ensures
            r is Ok <==> n + 1 <= u32::MAX,
            r is Ok ==> final(self)@ == old(self)@ + be32((n + 1) as u32),
    {
        if n >= 0xffff_ffffusize {
            return Err(EncodeError::SizeOverflow(if n < usize::MAX { n + 1 } else { n }));
        }
        self.write_word(n as u32 + 1);
        Ok(())
    }

    /// Appends each string, then a NULL one.
    pub fn write_string_items(&mut self, ss: &[CString]) -> (r: Result<(), EncodeError>)
        ensures
            r is Ok <==> strings_fit(views(ss@)),
            r is Ok ==> final(self)@ == old(self)@ + string_items_wire(views(ss@)),
            strings_ok(views(ss@)) || r is Err,
    {
        let mut i: usize = 0;
        while i < ss.len()
            invariant
                i <= ss@.len(),
                strings_ok(views(ss@.take(i as int))),
                self@ == old(self)@ + concat_all(views(ss@.take(i as int)).map_values(|s: Seq<u8>| string_wire(s))),
            decreases ss@.len() - i,
        {
            match self.write_string(&ss[i]) {
                Ok(()) => {},
                Err(e) => {
                    assert(!strings_fit(views(ss@))) by {
                        assert(views(ss@)[i as int] == ss@[i as int]@);
                    }
                    return Err(e);
                },
            }
            proof {
                let parts = views(ss@.take(i as int)).map_values(|s: Seq<u8>| string_wire(s));
                assert(views(ss@.take(i as int + 1)).map_values(|s: Seq<u8>| string_wire(s)) =~= parts.push(
                    string_wire(ss@[i as int]@),
                ));
                lemma_concat_all_push(parts, string_wire(ss@[i as int]@));
                assert forall|j: int| 0 <= j < i + 1 implies (#[trigger] views(ss@.take(i as int + 1))[j]).len() + 1
                    <= u32::MAX && no_nul(views(ss@.take(i as int + 1))[j]) by {
                    if j < i {
                        assert(views(ss@.take(i as int + 1))[j] == views(ss@.take(i as int))[j]);
                    }
                }
            }
            i = i + 1;
        }
        self.write_word(0);
        assert(ss@.take(i as int) =~= ss@);
        Ok(())
    }
}

/// `SANE_NET` protocol codec selection.
#[allow(non_camel_case_types)]
#[derive(Clone, Copy, PartialEq, Eq, Structural, Debug)]
pub enum Codec {
    /// The binary encoding of protocol version 3.
    BINARY_V3,
}

impl Codec {
    pub fn reader(&self, bytes: Vec<u8>) -> (r: Reader)
        ensures
            r.remaining() == bytes@,
    {
        Reader::new(bytes)
    }

    pub fn writer(&self) -> (r: Writer)
        ensures
            r@ == Seq::<u8>::empty(),
    {
        Writer::new()
    }
}

} // verus!
