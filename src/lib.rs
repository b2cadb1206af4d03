//! Wire codec for the SANE network protocol (version 3).
//!
//! The root module holds the protocol's scalar types and enumerations.
//! `util` holds device and option descriptors, `net` the messages of the
//! network protocol and, under `net::io`, the reader and writer that carry
//! them as bytes.

use vstd::prelude::*;
use vstd::string::*;

pub mod cstring;
pub mod debug;
pub mod net;
pub mod util;

pub use cstring::{CString, NulError};

use debug::{
    debug_enum, debug_unknown, dec_digits, dec_signed, digit_char, digit_str, digits16, lemma_trim_zeros, pow10,
    pretty_field, push_close, push_dec, push_field, push_signed, spaces, trim_zeros,
};

verus! {

// Version control

/// `SANE_CURRENT_MAJOR`
pub const CURRENT_MAJOR: u8 = 1;

/// `SANE_CURRENT_MINOR`
pub const CURRENT_MINOR: u8 = 0;

/// `SANE_VERSION_CODE`: major in the top byte, minor in the next, build in
/// the low half.
pub fn version_code(major: u8, minor: u8, build: u16) -> (r: u32)
    ensures
        r == major as int * 0x1000000 + minor as int * 0x10000 + build as int,
{
    (major as u32) * 0x1000000 + (minor as u32) * 0x10000 + (build as u32)
}

/// `SANE_VERSION_MAJOR`
pub fn version_major(version_code: u32) -> (r: u8)
    ensures
        r == version_code / 0x1000000,
{
    (version_code / 0x1000000) as u8
}

/// `SANE_VERSION_MINOR`
pub fn version_minor(version_code: u32) -> (r: u8)
    ensures
        r == version_code / 0x10000 % 0x100,
{
    (version_code / 0x10000 % 0x100) as u8
}

/// `SANE_VERSION_BUILD`
pub fn version_build(version_code: u32) -> (r: u16)
    ensures
        r == version_code % 0x10000,
{
    (version_code % 0x10000) as u16
}

/// Decomposing a version code gives back the parts it was built from.
pub proof fn lemma_version_code_parts(major: u8, minor: u8, build: u16)
    ensures
        ({
            let code = major as int * 0x1000000 + minor as int * 0x10000 + build as int;
            &&& code / 0x1000000 == major
            &&& code / 0x10000 % 0x100 == minor
            &&& code % 0x10000 == build
        }),
{
    let code = major as int * 0x1000000 + minor as int * 0x10000 + build as int;
    assert(code / 0x1000000 == major) by (nonlinear_arith)
        requires
            code == major as int * 0x1000000 + minor as int * 0x10000 + build as int,
            0 <= major < 0x100,
            0 <= minor < 0x100,
            0 <= build < 0x10000,
    ;
    assert(code / 0x10000 == major as int * 0x100 + minor as int) by (nonlinear_arith)
        requires
            code == major as int * 0x1000000 + minor as int * 0x10000 + build as int,
            0 <= minor < 0x100,
            0 <= build < 0x10000,
    ;
    assert((major as int * 0x100 + minor as int) % 0x100 == minor) by (nonlinear_arith)
        requires
            0 <= minor < 0x100,
            0 <= major,
    ;
    assert(code % 0x10000 == build) by (nonlinear_arith)
        requires
            code == major as int * 0x1000000 + minor as int * 0x10000 + build as int,
            0 <= build < 0x10000,
            0 <= major,
            0 <= minor,
    ;
}

// Base types

/// `SANE_Word`: an unsigned 32-bit container; every scalar travels as one.
#[derive(Clone, Copy, PartialEq, Eq, Structural, Debug)]
pub struct Word(pub u32);

impl Word {
    pub fn new(value: u32) -> (r: Word)
        ensures
            r.0 == value,
    {
        Word(value)
    }

    pub fn as_u32(self) -> (r: u32)
        ensures
            r == self.0,
    {
        self.0
    }

    /// `SANE_Word(n)`
    pub fn to_debug_string(&self) -> (r: String)
        ensures
            r@ == word_debug(*self),
    {
        let mut s = String::from_str("SANE_Word(");
        push_dec(&mut s, self.0 as u64);
        s.append(")");
        s
    }
}

impl From<u32> for Word {
    fn from(value: u32) -> (r: Word) {
        Word(value)
    }
}

impl vstd::std_specs::convert::FromSpecImpl<u32> for Word {
    open spec fn obeys_from_spec() -> bool {
        true
    }

    open spec fn from_spec(v: u32) -> Word {
        Word(v)
    }
}

/// `SANE_Bool`
#[allow(non_camel_case_types)]
#[derive(Clone, Copy, PartialEq, Eq, Structural, Debug)]
pub enum Bool {
    /// `SANE_FALSE`
    FALSE,
    /// `SANE_TRUE`
    TRUE,
}

impl Bool {
    pub fn new(value: bool) -> (r: Bool)
        ensures
            r == (if value { Bool::TRUE } else { Bool::FALSE }),
    {
        if value {
            Bool::TRUE
        } else {
            Bool::FALSE
        }
    }

    /// The code that stands for this value on the wire.
    pub open spec fn code(self) -> u32 {
        match self {
            Bool::FALSE => 0,
            Bool::TRUE => 1,
        }
    }

    pub fn as_word(self) -> (r: Word)
        ensures
            r.0 == self.code(),
    {
        match self {
            Bool::FALSE => Word(0),
            Bool::TRUE => Word(1),
        }
    }

    /// `SANE_FALSE` or `SANE_TRUE`
    pub fn to_debug_string(&self) -> (r: String)
        ensures
            r@ == (if *self == Bool::TRUE { "SANE_TRUE"@ } else { "SANE_FALSE"@ }),
    {
        match self {
            Bool::FALSE => String::from_str("SANE_FALSE"),
            Bool::TRUE => String::from_str("SANE_TRUE"),
        }
    }
}

impl From<bool> for Bool {
    fn from(value: bool) -> (r: Bool) {
        Bool::new(value)
    }
}

impl vstd::std_specs::convert::FromSpecImpl<bool> for Bool {
    open spec fn obeys_from_spec() -> bool {
        true
    }

    open spec fn from_spec(v: bool) -> Bool {
        if v {
            Bool::TRUE
        } else {
            Bool::FALSE
        }
    }
}

/// `SANE_Int`: a signed 32-bit integer, two's complement on the wire.
#[derive(Clone, Copy, PartialEq, Eq, Structural, Debug)]
pub struct Int(pub i32);

/// The word whose bits are those of a signed 32-bit integer.
pub open spec fn i32_bits(v: i32) -> u32 {
    if v < 0 {
        (v + 0x1_0000_0000) as u32
    } else {
        v as u32
    }
}

/// The signed 32-bit integer whose bits are those of a word.
pub open spec fn bits_i32(w: u32) -> i32 {
    if w >= 0x8000_0000 {
        (w - 0x1_0000_0000) as i32
    } else {
        w as i32
    }
}

pub fn u32_from_i32(v: i32) -> (r: u32)
    ensures
        r == i32_bits(v),
{
    if v < 0 {
        ((v as i64) + 0x1_0000_0000i64) as u32
    } else {
        v as u32
    }
}

pub fn i32_from_u32(w: u32) -> (r: i32)
    ensures
        r == bits_i32(w),
{
    if w >= 0x8000_0000 {
        ((w as i64) - 0x1_0000_0000i64) as i32
    } else {
        w as i32
    }
}

impl Int {
    pub fn new(value: i32) -> (r: Int)
        ensures
            r.0 == value,
    {
        Int(value)
    }

    pub fn as_i32(self) -> (r: i32)
        ensures
            r == self.0,
    {
        self.0
    }

    pub fn from_word(word: Word) -> (r: Int)
        ensures
            r.0 == bits_i32(word.0),
    {
        Int(i32_from_u32(word.0))
    }

    pub fn as_word(self) -> (r: Word)
        ensures
            r.0 == i32_bits(self.0),
    {
        Word(u32_from_i32(self.0))
    }

    /// `SANE_Int(n)`
    pub fn to_debug_string(&self) -> (r: String)
        ensures
            r@ == int_debug(*self),
    {
        let mut s = String::from_str("SANE_Int(");
        push_signed(&mut s, self.0 as i64);
        s.append(")");
        s
    }
}

impl From<i32> for Int {
    fn from(value: i32) -> (r: Int) {
        Int(value)
    }
}

impl vstd::std_specs::convert::FromSpecImpl<i32> for Int {
    open spec fn obeys_from_spec() -> bool {
        true
    }

    open spec fn from_spec(v: i32) -> Int {
        Int(v)
    }
}

/// `SANE_Fixed`: Q16.16 signed fixed point; the value is `raw / 65536`.
#[derive(Clone, Copy, PartialEq, Eq, Structural, Debug)]
pub struct Fixed(pub i32);

impl Fixed {
    /// Packs a signed whole part and a count of 65536ths.
    pub fn new(whole: i16, fract_65536s: u16) -> (r: Fixed)
        ensures
            r.0 == whole as int * 65536 + fract_65536s as int,
    {
        Fixed((whole as i32) * 65536 + (fract_65536s as i32))
    }

    /// The raw Q16.16 integer: the value times 65536.
    pub fn as_raw(self) -> (r: i32)
        ensures
            r == self.0,
    {
        self.0
    }

    /// The whole part: the upper sixteen bits, signed.
    pub open spec fn spec_whole(self) -> int {
        let hi = i32_bits(self.0) / 0x10000;
        if hi >= 0x8000 {
            hi - 0x10000
        } else {
            hi as int
        }
    }

    /// The fraction in 65536ths: the lower sixteen bits.
    pub open spec fn spec_fract_65536s(self) -> nat {
        (i32_bits(self.0) % 0x10000) as nat
    }

    /// `SANE_Fixed(w.f)`: the whole part, then the fraction's exact
    /// decimal digits without trailing zeros, or `0` when it is zero.
    pub open spec fn spec_debug(self) -> Seq<char> {
        "SANE_Fixed("@ + dec_signed(self.spec_whole()) + "."@ + if self.spec_fract_65536s() == 0 {
            "0"@
        } else {
            trim_zeros(digits16(self.spec_fract_65536s() * 152587890625))
        } + ")"@
    }

    #[verifier::spinoff_prover]
    pub fn to_debug_string(&self) -> (r: String)
        ensures
            r@ == self.spec_debug(),
    {
        let w = u32_from_i32(self.0);
        let hi = w / 0x10000;
        let whole: i64 = if hi >= 0x8000 {
            hi as i64 - 0x10000
        } else {
            hi as i64
        };
        let y = w % 0x10000;
        let mut s = String::from_str("SANE_Fixed(");
        push_signed(&mut s, whole);
        s.append(".");
        if y == 0 {
            s.append("0");
        } else {
            let big: u64 = y as u64 * 152587890625;
            let ghost n = big as nat;
            let ghost padded = digits16(n);
            let mut digits: Vec<u32> = Vec::new();
            let mut p: u64 = 1_000_000_000_000_000;
            let mut i: usize = 0;
            proof {
                reveal_with_fuel(pow10, 16);
                assert(p == pow10(15));
            }
            while i < 16
                invariant
                    i <= 16,
                    n == big,
                    padded == digits16(n),
                    i < 16 ==> p == pow10((15 - i) as nat) && p > 0,
                    digits@.len() == i,
                    forall|j: int| 0 <= j < i ==> (#[trigger] digits@[j]) < 10 && digit_char(digits@[j] as nat) == padded[j],
                decreases 16 - i,
            {
                let d = ((big / p) % 10) as u32;
                let ghost before = digits@;
                digits.push(d);
                proof {
                    assert((big / p) % 10 == n / pow10((15 - i) as nat) % 10);
                    assert(padded[i as int] == digit_char(n / pow10((15 - i) as nat) % 10));
                    assert(digit_char(d as nat) == padded[i as int]);
                    assert(digits@ == before.push(d));
                    assert(before.len() == i);
                    assert forall|j: int| 0 <= j < i + 1 implies digits@[j] < 10 && digit_char(digits@[j] as nat)
                        == padded[j] by {
                        if j < i {
                            assert(digits@[j] == before[j]);
                            assert(before[j] < 10 && digit_char(before[j] as nat) == padded[j]);
                        } else {
                            assert(j == i);
                            assert(digits@[j] == d);
                        }
                    }
                }
                if i < 15 {
                    proof {
                        let q = pow10((14 - i) as nat);
                        assert(pow10((15 - i) as nat) == 10 * q);
                        assert((10 * q) / 10 == q) by (nonlinear_arith);
                        assert(q > 0) by (nonlinear_arith)
                            requires 10 * q > 0;
                    }
                    p = p / 10;
                }
                i = i + 1;
            }
            let mut len: usize = 16;
            while len > 0 && digits[len - 1] == 0
                invariant
                    len <= 16,
                    padded == digits16(n),
                    digits@.len() == 16,
                    forall|j: int| 0 <= j < 16 ==> (#[trigger] digits@[j]) < 10 && digit_char(digits@[j] as nat) == padded[j],
                    forall|j: int| len <= j < 16 ==> padded[j] == '0',
                decreases len,
            {
                len = len - 1;
            }
            proof {
                if len > 0 {
                    assert(digits@[len - 1] != 0);
                    assert(padded[len - 1] != '0');
                }
                lemma_trim_zeros(padded, len as int);
            }
            let mut k: usize = 0;
            let ghost start = s@;
            while k < len
                invariant
                    k <= len <= 16,
                    padded == digits16(n),
                    digits@.len() == 16,
                    forall|j: int| 0 <= j < 16 ==> (#[trigger] digits@[j]) < 10 && digit_char(digits@[j] as nat) == padded[j],
                    s@ == start + padded.take(k as int),
                decreases len - k,
            {
                s.append(digit_str(digits[k]));
                assert(s@ =~= start + padded.take(k as int + 1));
                k = k + 1;
            }
        }
        s.append(")");
        s
    }

    pub fn from_word(word: Word) -> (r: Fixed)
        ensures
            r.0 == bits_i32(word.0),
    {
        Fixed(i32_from_u32(word.0))
    }

    pub fn as_word(self) -> (r: Word)
        ensures
            r.0 == i32_bits(self.0),
    {
        Word(u32_from_i32(self.0))
    }
}

} // verus!

verus! {

/// `SANE_Status`
#[allow(non_camel_case_types)]
#[derive(Clone, Copy, PartialEq, Eq, Structural, Debug)]
pub enum Status {
    /// `SANE_STATUS_GOOD`
    GOOD,
    /// `SANE_STATUS_UNSUPPORTED`
    UNSUPPORTED,
    /// `SANE_STATUS_CANCELLED`
    CANCELLED,
    /// `SANE_STATUS_DEVICE_BUSY`
    DEVICE_BUSY,
    /// `SANE_STATUS_INVAL`
    INVAL,
    /// `SANE_STATUS_EOF`
    EOF,
    /// `SANE_STATUS_JAMMED`
    JAMMED,
    /// `SANE_STATUS_NO_DOCS`
    NO_DOCS,
    /// `SANE_STATUS_COVER_OPEN`
    COVER_OPEN,
    /// `SANE_STATUS_IO_ERROR`
    IO_ERROR,
    /// `SANE_STATUS_NO_MEM`
    NO_MEM,
    /// `SANE_STATUS_ACCESS_DENIED`
    ACCESS_DENIED,
    /// A code outside the named set, kept as it came.
    Unknown(u32),
}

impl Status {
    /// The code that stands for this value on the wire.
    pub open spec fn code(self) -> u32 {
        match self {
            Status::GOOD => 0,
            Status::UNSUPPORTED => 1,
            Status::CANCELLED => 2,
            Status::DEVICE_BUSY => 3,
            Status::INVAL => 4,
            Status::EOF => 5,
            Status::JAMMED => 6,
            Status::NO_DOCS => 7,
            Status::COVER_OPEN => 8,
            Status::IO_ERROR => 9,
            Status::NO_MEM => 10,
            Status::ACCESS_DENIED => 11,
            Status::Unknown(c) => c,
        }
    }

    /// The value that a code stands for.
    pub open spec fn from_code(c: u32) -> Status {
        match c {
            0 => Status::GOOD,
            1 => Status::UNSUPPORTED,
            2 => Status::CANCELLED,
            3 => Status::DEVICE_BUSY,
            4 => Status::INVAL,
            5 => Status::EOF,
            6 => Status::JAMMED,
            7 => Status::NO_DOCS,
            8 => Status::COVER_OPEN,
            9 => Status::IO_ERROR,
            10 => Status::NO_MEM,
            11 => Status::ACCESS_DENIED,
            _ => Status::Unknown(c),
        }
    }

    /// Canonical form: an `Unknown` value never holds a named code.
    pub open spec fn wf(self) -> bool {
        Status::from_code(self.code()) == self
    }

    /// The name that the debug form uses for a named value.
    pub open spec fn spec_name(self) -> Option<Seq<char>> {
        match self {
            Status::GOOD => Some("SANE_STATUS_GOOD"@),
            Status::UNSUPPORTED => Some("SANE_STATUS_UNSUPPORTED"@),
            Status::CANCELLED => Some("SANE_STATUS_CANCELLED"@),
            Status::DEVICE_BUSY => Some("SANE_STATUS_DEVICE_BUSY"@),
            Status::INVAL => Some("SANE_STATUS_INVAL"@),
            Status::EOF => Some("SANE_STATUS_EOF"@),
            Status::JAMMED => Some("SANE_STATUS_JAMMED"@),
            Status::NO_DOCS => Some("SANE_STATUS_NO_DOCS"@),
            Status::COVER_OPEN => Some("SANE_STATUS_COVER_OPEN"@),
            Status::IO_ERROR => Some("SANE_STATUS_IO_ERROR"@),
            Status::NO_MEM => Some("SANE_STATUS_NO_MEM"@),
            Status::ACCESS_DENIED => Some("SANE_STATUS_ACCESS_DENIED"@),
            Status::Unknown(_) => None,
        }
    }

    pub fn from_word(word: Word) -> (r: Status)
        ensures
            r == Status::from_code(word.0),
            r.code() == word.0,
            r.wf(),
    {
        match word.0 {
            0 => Status::GOOD,
            1 => Status::UNSUPPORTED,
            2 => Status::CANCELLED,
            3 => Status::DEVICE_BUSY,
            4 => Status::INVAL,
            5 => Status::EOF,
            6 => Status::JAMMED,
            7 => Status::NO_DOCS,
            8 => Status::COVER_OPEN,
            9 => Status::IO_ERROR,
            10 => Status::NO_MEM,
            11 => Status::ACCESS_DENIED,
            c => Status::Unknown(c),
        }
    }

    pub fn as_word(self) -> (r: Word)
        ensures
            r.0 == self.code(),
    {
        match self {
            Status::GOOD => Word(0),
            Status::UNSUPPORTED => Word(1),
            Status::CANCELLED => Word(2),
            Status::DEVICE_BUSY => Word(3),
            Status::INVAL => Word(4),
            Status::EOF => Word(5),
            Status::JAMMED => Word(6),
            Status::NO_DOCS => Word(7),
            Status::COVER_OPEN => Word(8),
            Status::IO_ERROR => Word(9),
            Status::NO_MEM => Word(10),
            Status::ACCESS_DENIED => Word(11),
            Status::Unknown(c) => Word(c),
        }
    }

    /// The debug form: the C name of a named value, else `SANE_Status(0x..)`.
    pub fn to_debug_string(&self) -> (r: String)
        ensures
            r@ == debug_enum(self.spec_name(), "SANE_Status"@, self.code()),
    {
        match self {
            Status::GOOD => String::from_str("SANE_STATUS_GOOD"),
            Status::UNSUPPORTED => String::from_str("SANE_STATUS_UNSUPPORTED"),
            Status::CANCELLED => String::from_str("SANE_STATUS_CANCELLED"),
            Status::DEVICE_BUSY => String::from_str("SANE_STATUS_DEVICE_BUSY"),
            Status::INVAL => String::from_str("SANE_STATUS_INVAL"),
            Status::EOF => String::from_str("SANE_STATUS_EOF"),
            Status::JAMMED => String::from_str("SANE_STATUS_JAMMED"),
            Status::NO_DOCS => String::from_str("SANE_STATUS_NO_DOCS"),
            Status::COVER_OPEN => String::from_str("SANE_STATUS_COVER_OPEN"),
            Status::IO_ERROR => String::from_str("SANE_STATUS_IO_ERROR"),
            Status::NO_MEM => String::from_str("SANE_STATUS_NO_MEM"),
            Status::ACCESS_DENIED => String::from_str("SANE_STATUS_ACCESS_DENIED"),
            Status::Unknown(c) => debug_unknown("SANE_Status", *c),
        }
    }
}

/// `SANE_Value_Type`
#[allow(non_camel_case_types)]
#[derive(Clone, Copy, PartialEq, Eq, Structural, Debug)]
pub enum ValueType {
    /// `SANE_TYPE_BOOL`
    BOOL,
    /// `SANE_TYPE_INT`
    INT,
    /// `SANE_TYPE_FIXED`
    FIXED,
    /// `SANE_TYPE_STRING`
    STRING,
    /// `SANE_TYPE_BUTTON`
    BUTTON,
    /// `SANE_TYPE_GROUP`
    GROUP,
    /// A code outside the named set, kept as it came.
    Unknown(u32),
}

impl ValueType {
    /// The code that stands for this value on the wire.
    pub open spec fn code(self) -> u32 {
        match self {
            ValueType::BOOL => 0,
            ValueType::INT => 1,
            ValueType::FIXED => 2,
            ValueType::STRING => 3,
            ValueType::BUTTON => 4,
            ValueType::GROUP => 5,
            ValueType::Unknown(c) => c,
        }
    }

    /// The value that a code stands for.
    pub open spec fn from_code(c: u32) -> ValueType {
        match c {
            0 => ValueType::BOOL,
            1 => ValueType::INT,
            2 => ValueType::FIXED,
            3 => ValueType::STRING,
            4 => ValueType::BUTTON,
            5 => ValueType::GROUP,
            _ => ValueType::Unknown(c),
        }
    }

    /// Canonical form: an `Unknown` value never holds a named code.
    pub open spec fn wf(self) -> bool {
        ValueType::from_code(self.code()) == self
    }

    /// The name that the debug form uses for a named value.
    pub open spec fn spec_name(self) -> Option<Seq<char>> {
        match self {
            ValueType::BOOL => Some("SANE_TYPE_BOOL"@),
            ValueType::INT => Some("SANE_TYPE_INT"@),
            ValueType::FIXED => Some("SANE_TYPE_FIXED"@),
            ValueType::STRING => Some("SANE_TYPE_STRING"@),
            ValueType::BUTTON => Some("SANE_TYPE_BUTTON"@),
            ValueType::GROUP => Some("SANE_TYPE_GROUP"@),
            ValueType::Unknown(_) => None,
        }
    }

    pub fn from_word(word: Word) -> (r: ValueType)
        ensures
            r == ValueType::from_code(word.0),
            r.code() == word.0,
            r.wf(),
    {
        match word.0 {
            0 => ValueType::BOOL,
            1 => ValueType::INT,
            2 => ValueType::FIXED,
            3 => ValueType::STRING,
            4 => ValueType::BUTTON,
            5 => ValueType::GROUP,
            c => ValueType::Unknown(c),
        }
    }

    pub fn as_word(self) -> (r: Word)
        ensures
            r.0 == self.code(),
    {
        match self {
            ValueType::BOOL => Word(0),
            ValueType::INT => Word(1),
            ValueType::FIXED => Word(2),
            ValueType::STRING => Word(3),
            ValueType::BUTTON => Word(4),
            ValueType::GROUP => Word(5),
            ValueType::Unknown(c) => Word(c),
        }
    }

    /// The debug form: the C name of a named value, else `SANE_Value_Type(0x..)`.
    pub fn to_debug_string(&self) -> (r: String)
        ensures
            r@ == debug_enum(self.spec_name(), "SANE_Value_Type"@, self.code()),
    {
        match self {
            ValueType::BOOL => String::from_str("SANE_TYPE_BOOL"),
            ValueType::INT => String::from_str("SANE_TYPE_INT"),
            ValueType::FIXED => String::from_str("SANE_TYPE_FIXED"),
            ValueType::STRING => String::from_str("SANE_TYPE_STRING"),
            ValueType::BUTTON => String::from_str("SANE_TYPE_BUTTON"),
            ValueType::GROUP => String::from_str("SANE_TYPE_GROUP"),
            ValueType::Unknown(c) => debug_unknown("SANE_Value_Type", *c),
        }
    }
}

/// `SANE_Unit`
#[allow(non_camel_case_types)]
#[derive(Clone, Copy, PartialEq, Eq, Structural, Debug)]
pub enum Unit {
    /// `SANE_UNIT_NONE`
    NONE,
    /// `SANE_UNIT_PIXEL`
    PIXEL,
    /// `SANE_UNIT_BIT`
    BIT,
    /// `SANE_UNIT_MM`
    MM,
    /// `SANE_UNIT_DPI`
    DPI,
    /// `SANE_UNIT_PERCENT`
    PERCENT,
    /// `SANE_UNIT_MICROSECOND`
    MICROSECOND,
    /// A code outside the named set, kept as it came.
    Unknown(u32),
}

impl Unit {
    /// The code that stands for this value on the wire.
    pub open spec fn code(self) -> u32 {
        match self {
            Unit::NONE => 0,
            Unit::PIXEL => 1,
            Unit::BIT => 2,
            Unit::MM => 3,
            Unit::DPI => 4,
            Unit::PERCENT => 5,
            Unit::MICROSECOND => 6,
            Unit::Unknown(c) => c,
        }
    }

    /// The value that a code stands for.
    pub open spec fn from_code(c: u32) -> Unit {
        match c {
            0 => Unit::NONE,
            1 => Unit::PIXEL,
            2 => Unit::BIT,
            3 => Unit::MM,
            4 => Unit::DPI,
            5 => Unit::PERCENT,
            6 => Unit::MICROSECOND,
            _ => Unit::Unknown(c),
        }
    }

    /// Canonical form: an `Unknown` value never holds a named code.
    pub open spec fn wf(self) -> bool {
        Unit::from_code(self.code()) == self
    }

    /// The name that the debug form uses for a named value.
    pub open spec fn spec_name(self) -> Option<Seq<char>> {
        match self {
            Unit::NONE => Some("SANE_UNIT_NONE"@),
            Unit::PIXEL => Some("SANE_UNIT_PIXEL"@),
            Unit::BIT => Some("SANE_UNIT_BIT"@),
            Unit::MM => Some("SANE_UNIT_MM"@),
            Unit::DPI => Some("SANE_UNIT_DPI"@),
            Unit::PERCENT => Some("SANE_UNIT_PERCENT"@),
            Unit::MICROSECOND => Some("SANE_UNIT_MICROSECOND"@),
            Unit::Unknown(_) => None,
        }
    }

    pub fn from_word(word: Word) -> (r: Unit)
        ensures
            r == Unit::from_code(word.0),
            r.code() == word.0,
            r.wf(),
    {
        match word.0 {
            0 => Unit::NONE,
            1 => Unit::PIXEL,
            2 => Unit::BIT,
            3 => Unit::MM,
            4 => Unit::DPI,
            5 => Unit::PERCENT,
            6 => Unit::MICROSECOND,
            c => Unit::Unknown(c),
        }
    }

    pub fn as_word(self) -> (r: Word)
        ensures
            r.0 == self.code(),
    {
        match self {
            Unit::NONE => Word(0),
            Unit::PIXEL => Word(1),
            Unit::BIT => Word(2),
            Unit::MM => Word(3),
            Unit::DPI => Word(4),
            Unit::PERCENT => Word(5),
            Unit::MICROSECOND => Word(6),
            Unit::Unknown(c) => Word(c),
        }
    }

    /// The debug form: the C name of a named value, else `SANE_Unit(0x..)`.
    pub fn to_debug_string(&self) -> (r: String)
        ensures
            r@ == debug_enum(self.spec_name(), "SANE_Unit"@, self.code()),
    {
        match self {
            Unit::NONE => String::from_str("SANE_UNIT_NONE"),
            Unit::PIXEL => String::from_str("SANE_UNIT_PIXEL"),
            Unit::BIT => String::from_str("SANE_UNIT_BIT"),
            Unit::MM => String::from_str("SANE_UNIT_MM"),
            Unit::DPI => String::from_str("SANE_UNIT_DPI"),
            Unit::PERCENT => String::from_str("SANE_UNIT_PERCENT"),
            Unit::MICROSECOND => String::from_str("SANE_UNIT_MICROSECOND"),
            Unit::Unknown(c) => debug_unknown("SANE_Unit", *c),
        }
    }
}

/// `SANE_Constraint_Type`
#[allow(non_camel_case_types)]
#[derive(Clone, Copy, PartialEq, Eq, Structural, Debug)]
pub enum ConstraintType {
    /// `SANE_CONSTRAINT_NONE`
    NONE,
    /// `SANE_CONSTRAINT_RANGE`
    RANGE,
    /// `SANE_CONSTRAINT_WORD_LIST`
    WORD_LIST,
    /// `SANE_CONSTRAINT_STRING_LIST`
    STRING_LIST,
    /// A code outside the named set, kept as it came.
    Unknown(u32),
}

impl ConstraintType {
    /// The code that stands for this value on the wire.
    pub open spec fn code(self) -> u32 {
        match self {
            ConstraintType::NONE => 0,
            ConstraintType::RANGE => 1,
            ConstraintType::WORD_LIST => 2,
            ConstraintType::STRING_LIST => 3,
            ConstraintType::Unknown(c) => c,
        }
    }

    /// The value that a code stands for.
    pub open spec fn from_code(c: u32) -> ConstraintType {
        match c {
            0 => ConstraintType::NONE,
            1 => ConstraintType::RANGE,
            2 => ConstraintType::WORD_LIST,
            3 => ConstraintType::STRING_LIST,
            _ => ConstraintType::Unknown(c),
        }
    }

    /// Canonical form: an `Unknown` value never holds a named code.
    pub open spec fn wf(self) -> bool {
        ConstraintType::from_code(self.code()) == self
    }

    /// The name that the debug form uses for a named value.
    pub open spec fn spec_name(self) -> Option<Seq<char>> {
        match self {
            ConstraintType::NONE => Some("SANE_CONSTRAINT_NONE"@),
            ConstraintType::RANGE => Some("SANE_CONSTRAINT_RANGE"@),
            ConstraintType::WORD_LIST => Some("SANE_CONSTRAINT_WORD_LIST"@),
            ConstraintType::STRING_LIST => Some("SANE_CONSTRAINT_STRING_LIST"@),
            ConstraintType::Unknown(_) => None,
        }
    }

    pub fn from_word(word: Word) -> (r: ConstraintType)
        ensures
            r == ConstraintType::from_code(word.0),
            r.code() == word.0,
            r.wf(),
    {
        match word.0 {
            0 => ConstraintType::NONE,
            1 => ConstraintType::RANGE,
            2 => ConstraintType::WORD_LIST,
            3 => ConstraintType::STRING_LIST,
            c => ConstraintType::Unknown(c),
        }
    }

    pub fn as_word(self) -> (r: Word)
        ensures
            r.0 == self.code(),
    {
        match self {
            ConstraintType::NONE => Word(0),
            ConstraintType::RANGE => Word(1),
            ConstraintType::WORD_LIST => Word(2),
            ConstraintType::STRING_LIST => Word(3),
            ConstraintType::Unknown(c) => Word(c),
        }
    }

    /// The debug form: the C name of a named value, else `SANE_Constraint_Type(0x..)`.
    pub fn to_debug_string(&self) -> (r: String)
        ensures
            r@ == debug_enum(self.spec_name(), "SANE_Constraint_Type"@, self.code()),
    {
        match self {
            ConstraintType::NONE => String::from_str("SANE_CONSTRAINT_NONE"),
            ConstraintType::RANGE => String::from_str("SANE_CONSTRAINT_RANGE"),
            ConstraintType::WORD_LIST => String::from_str("SANE_CONSTRAINT_WORD_LIST"),
            ConstraintType::STRING_LIST => String::from_str("SANE_CONSTRAINT_STRING_LIST"),
            ConstraintType::Unknown(c) => debug_unknown("SANE_Constraint_Type", *c),
        }
    }
}

/// `SANE_Action`
#[allow(non_camel_case_types)]
#[derive(Clone, Copy, PartialEq, Eq, Structural, Debug)]
pub enum Action {
    /// `SANE_ACTION_GET_VALUE`
    GET_VALUE,
    /// `SANE_ACTION_SET_VALUE`
    SET_VALUE,
    /// `SANE_ACTION_SET_AUTO`
    SET_AUTO,
    /// A code outside the named set, kept as it came.
    Unknown(u32),
}

impl Action {
    /// The code that stands for this value on the wire.
    pub open spec fn code(self) -> u32 {
        match self {
            Action::GET_VALUE => 0,
            Action::SET_VALUE => 1,
            Action::SET_AUTO => 2,
            Action::Unknown(c) => c,
        }
    }

    /// The value that a code stands for.
    pub open spec fn from_code(c: u32) -> Action {
        match c {
            0 => Action::GET_VALUE,
            1 => Action::SET_VALUE,
            2 => Action::SET_AUTO,
            _ => Action::Unknown(c),
        }
    }

    /// Canonical form: an `Unknown` value never holds a named code.
    pub open spec fn wf(self) -> bool {
        Action::from_code(self.code()) == self
    }

    /// The name that the debug form uses for a named value.
    pub open spec fn spec_name(self) -> Option<Seq<char>> {
        match self {
            Action::GET_VALUE => Some("SANE_ACTION_GET_VALUE"@),
            Action::SET_VALUE => Some("SANE_ACTION_SET_VALUE"@),
            Action::SET_AUTO => Some("SANE_ACTION_SET_AUTO"@),
            Action::Unknown(_) => None,
        }
    }

    pub fn from_word(word: Word) -> (r: Action)
        ensures
            r == Action::from_code(word.0),
            r.code() == word.0,
            r.wf(),
    {
        match word.0 {
            0 => Action::GET_VALUE,
            1 => Action::SET_VALUE,
            2 => Action::SET_AUTO,
            c => Action::Unknown(c),
        }
    }

    pub fn as_word(self) -> (r: Word)
        ensures
            r.0 == self.code(),
    {
        match self {
            Action::GET_VALUE => Word(0),
            Action::SET_VALUE => Word(1),
            Action::SET_AUTO => Word(2),
            Action::Unknown(c) => Word(c),
        }
    }

    /// The debug form: the C name of a named value, else `SANE_Action(0x..)`.
    pub fn to_debug_string(&self) -> (r: String)
        ensures
            r@ == debug_enum(self.spec_name(), "SANE_Action"@, self.code()),
    {
        match self {
            Action::GET_VALUE => String::from_str("SANE_ACTION_GET_VALUE"),
            Action::SET_VALUE => String::from_str("SANE_ACTION_SET_VALUE"),
            Action::SET_AUTO => String::from_str("SANE_ACTION_SET_AUTO"),
            Action::Unknown(c) => debug_unknown("SANE_Action", *c),
        }
    }
}

/// `SANE_Frame`
#[allow(non_camel_case_types)]
#[derive(Clone, Copy, PartialEq, Eq, Structural, Debug)]
pub enum Frame {
    /// `SANE_FRAME_GRAY`
    GRAY,
    /// `SANE_FRAME_RGB`
    RGB,
    /// `SANE_FRAME_RED`
    RED,
    /// `SANE_FRAME_GREEN`
    GREEN,
    /// `SANE_FRAME_BLUE`
    BLUE,
    /// A code outside the named set, kept as it came.
    Unknown(u32),
}

impl Frame {
    /// The code that stands for this value on the wire.
    pub open spec fn code(self) -> u32 {
        match self {
            Frame::GRAY => 0,
            Frame::RGB => 1,
            Frame::RED => 2,
            Frame::GREEN => 3,
            Frame::BLUE => 4,
            Frame::Unknown(c) => c,
        }
    }

    /// The value that a code stands for.
    pub open spec fn from_code(c: u32) -> Frame {
        match c {
            0 => Frame::GRAY,
            1 => Frame::RGB,
            2 => Frame::RED,
            3 => Frame::GREEN,
            4 => Frame::BLUE,
            _ => Frame::Unknown(c),
        }
    }

    /// Canonical form: an `Unknown` value never holds a named code.
    pub open spec fn wf(self) -> bool {
        Frame::from_code(self.code()) == self
    }

    /// The name that the debug form uses for a named value.
    pub open spec fn spec_name(self) -> Option<Seq<char>> {
        match self {
            Frame::GRAY => Some("SANE_FRAME_GRAY"@),
            Frame::RGB => Some("SANE_FRAME_RGB"@),
            Frame::RED => Some("SANE_FRAME_RED"@),
            Frame::GREEN => Some("SANE_FRAME_GREEN"@),
            Frame::BLUE => Some("SANE_FRAME_BLUE"@),
            Frame::Unknown(_) => None,
        }
    }

    pub fn from_word(word: Word) -> (r: Frame)
        ensures
            r == Frame::from_code(word.0),
            r.code() == word.0,
            r.wf(),
    {
        match word.0 {
            0 => Frame::GRAY,
            1 => Frame::RGB,
            2 => Frame::RED,
            3 => Frame::GREEN,
            4 => Frame::BLUE,
            c => Frame::Unknown(c),
        }
    }

    pub fn as_word(self) -> (r: Word)
        ensures
            r.0 == self.code(),
    {
        match self {
            Frame::GRAY => Word(0),
            Frame::RGB => Word(1),
            Frame::RED => Word(2),
            Frame::GREEN => Word(3),
            Frame::BLUE => Word(4),
            Frame::Unknown(c) => Word(c),
        }
    }

    /// The debug form: the C name of a named value, else `SANE_Frame(0x..)`.
    pub fn to_debug_string(&self) -> (r: String)
        ensures
            r@ == debug_enum(self.spec_name(), "SANE_Frame"@, self.code()),
    {
        match self {
            Frame::GRAY => String::from_str("SANE_FRAME_GRAY"),
            Frame::RGB => String::from_str("SANE_FRAME_RGB"),
            Frame::RED => String::from_str("SANE_FRAME_RED"),
            Frame::GREEN => String::from_str("SANE_FRAME_GREEN"),
            Frame::BLUE => String::from_str("SANE_FRAME_BLUE"),
            Frame::Unknown(c) => debug_unknown("SANE_Frame", *c),
        }
    }
}

// Option capabilities

/// `SANE_CAP_SOFT_SELECT`
pub const CAP_SOFT_SELECT: u32 = 0x01;

/// `SANE_CAP_HARD_SELECT`
pub const CAP_HARD_SELECT: u32 = 0x02;

/// `SANE_CAP_SOFT_DETECT`
pub const CAP_SOFT_DETECT: u32 = 0x04;

/// `SANE_CAP_EMULATED`
pub const CAP_EMULATED: u32 = 0x08;

/// `SANE_CAP_AUTOMATIC`
pub const CAP_AUTOMATIC: u32 = 0x10;

/// `SANE_CAP_INACTIVE`
pub const CAP_INACTIVE: u32 = 0x20;

/// `SANE_CAP_ADVANCED`
pub const CAP_ADVANCED: u32 = 0x40;

// Control-option info bits

/// `SANE_INFO_INEXACT`
pub const INFO_INEXACT: u32 = 0x01;

/// `SANE_INFO_RELOAD_OPTIONS`
pub const INFO_RELOAD_OPTIONS: u32 = 0x02;

/// `SANE_INFO_RELOAD_PARAMS`
pub const INFO_RELOAD_PARAMS: u32 = 0x04;

/// `SANE_MAX_USERNAME_LEN`
pub const MAX_USERNAME_LEN: usize = 128;

/// `SANE_MAX_PASSWORD_LEN`
pub const MAX_PASSWORD_LEN: usize = 128;

/// `SANE_Range`: three words, read as `Int` or `Fixed` by the enclosing
/// option's value type.
#[derive(Clone, Copy, PartialEq, Eq, Structural, Debug)]
pub struct Range {
    pub min: Word,
    pub max: Word,
    pub quant: Word,
}

/// `SANE_Word(n)`, the debug form of a word.
pub open spec fn word_debug(w: Word) -> Seq<char> {
    "SANE_Word("@ + dec_digits(w.0 as nat) + ")"@
}

/// `SANE_Int(n)`, the debug form of an integer.
pub open spec fn int_debug(v: Int) -> Seq<char> {
    "SANE_Int("@ + dec_signed(v.0 as int) + ")"@
}

impl Range {
    /// The pretty debug form at indent `k`, one field to a line.
    pub open spec fn spec_pretty(self, k: nat) -> Seq<char> {
        "SANE_Range {\n"@ + pretty_field(k, "min"@, word_debug(self.min)) + pretty_field(k, "max"@, word_debug(self.max))
            + pretty_field(k, "quant"@, word_debug(self.quant)) + spaces(k) + "}"@
    }

    pub fn push_pretty(&self, s: &mut String, k: usize)
        requires
            k + 4 <= usize::MAX,
        ensures
            final(s)@ == old(s)@ + self.spec_pretty(k as nat),
    {
        s.append("SANE_Range {\n");
        push_field(s, k, "min", self.min.to_debug_string().as_str());
        push_field(s, k, "max", self.max.to_debug_string().as_str());
        push_field(s, k, "quant", self.quant.to_debug_string().as_str());
        push_close(s, k, "}");
        assert(final(s)@ =~= old(s)@ + self.spec_pretty(k as nat));
    }

    /// `SANE_Range { min: .., max: .., quant: .. }`, one field to a line.
    pub fn to_debug_string(&self) -> (r: String)
        ensures
            r@ == self.spec_pretty(0),
    {
        let mut s = String::new();
        self.push_pretty(&mut s, 0);
        s
    }

    pub fn new() -> (r: Range)
        ensures
            r.min.0 == 0 && r.max.0 == 0 && r.quant.0 == 0,
    {
        Range { min: Word(0), max: Word(0), quant: Word(0) }
    }
}

/// `SANE_Parameters`
#[derive(Clone, Copy, PartialEq, Eq, Structural, Debug)]
pub struct Parameters {
    pub format: Frame,
    pub last_frame: Bool,
    pub bytes_per_line: Int,
    pub pixels_per_line: Int,
    pub lines: Int,
    pub depth: Int,
}

impl Parameters {
    /// The pretty debug form at indent `k`, one field to a line.
    pub open spec fn spec_pretty(self, k: nat) -> Seq<char> {
        "SANE_Parameters {\n"@ + pretty_field(k, "format"@, debug_enum(self.format.spec_name(), "SANE_Frame"@, self.format.code()))
            + pretty_field(k, "last_frame"@, if self.last_frame == Bool::TRUE { "SANE_TRUE"@ } else { "SANE_FALSE"@ })
            + pretty_field(k, "bytes_per_line"@, int_debug(self.bytes_per_line)) + pretty_field(
            k,
            "pixels_per_line"@,
            int_debug(self.pixels_per_line),
        ) + pretty_field(k, "lines"@, int_debug(self.lines)) + pretty_field(k, "depth"@, int_debug(self.depth))
            + spaces(k) + "}"@
    }

    #[verifier::spinoff_prover]
    #[verifier::rlimit(80)]
    pub fn push_pretty(&self, s: &mut String, k: usize)
        requires
            k + 4 <= usize::MAX,
        ensures
            final(s)@ == old(s)@ + self.spec_pretty(k as nat),
    {
        s.append("SANE_Parameters {\n");
        push_field(s, k, "format", self.format.to_debug_string().as_str());
        push_field(s, k, "last_frame", self.last_frame.to_debug_string().as_str());
        push_field(s, k, "bytes_per_line", self.bytes_per_line.to_debug_string().as_str());
        push_field(s, k, "pixels_per_line", self.pixels_per_line.to_debug_string().as_str());
        push_field(s, k, "lines", self.lines.to_debug_string().as_str());
        push_field(s, k, "depth", self.depth.to_debug_string().as_str());
        push_close(s, k, "}");
        assert(final(s)@ =~= old(s)@ + self.spec_pretty(k as nat));
    }

    /// `SANE_Parameters { .. }`, one field to a line.
    pub fn to_debug_string(&self) -> (r: String)
        ensures
            r@ == self.spec_pretty(0),
    {
        let mut s = String::new();
        self.push_pretty(&mut s, 0);
        s
    }

    pub fn new() -> (r: Parameters)
        ensures
            r.format == Frame::GRAY,
            r.last_frame == Bool::FALSE,
            r.bytes_per_line.0 == 0,
            r.pixels_per_line.0 == 0,
            r.lines.0 == 0,
            r.depth.0 == 0,
    {
        Parameters {
            format: Frame::GRAY,
            last_frame: Bool::FALSE,
            bytes_per_line: Int(0),
            pixels_per_line: Int(0),
            lines: Int(0),
            depth: Int(0),
        }
    }
}

impl View for Word {
    type V = Word;

    open spec fn view(&self) -> Word {
        *self
    }
}

impl View for Bool {
    type V = Bool;

    open spec fn view(&self) -> Bool {
        *self
    }
}

impl View for Int {
    type V = Int;

    open spec fn view(&self) -> Int {
        *self
    }
}

impl View for Fixed {
    type V = Fixed;

    open spec fn view(&self) -> Fixed {
        *self
    }
}

impl View for Status {
    type V = Status;

    open spec fn view(&self) -> Status {
        *self
    }
}

impl View for ValueType {
    type V = ValueType;

    open spec fn view(&self) -> ValueType {
        *self
    }
}

impl View for Unit {
    type V = Unit;

    open spec fn view(&self) -> Unit {
        *self
    }
}

impl View for ConstraintType {
    type V = ConstraintType;

    open spec fn view(&self) -> ConstraintType {
        *self
    }
}

impl View for Action {
    type V = Action;

    open spec fn view(&self) -> Action {
        *self
    }
}

impl View for Frame {
    type V = Frame;

    open spec fn view(&self) -> Frame {
        *self
    }
}

impl View for Range {
    type V = Range;

    open spec fn view(&self) -> Range {
        *self
    }
}

impl View for Parameters {
    type V = Parameters;

    open spec fn view(&self) -> Parameters {
        *self
    }
}

} // verus!
