//! The capability bits of an option.

use vstd::prelude::*;
use vstd::string::*;

use crate::debug::{digit_char, digit_str, lemma_list_lines_push, list_lines, push_close, push_spaces, spaces};

use crate::{
    Word, CAP_ADVANCED, CAP_AUTOMATIC, CAP_EMULATED, CAP_HARD_SELECT, CAP_INACTIVE, CAP_SOFT_DETECT,
    CAP_SOFT_SELECT,
};

verus! {

/// The capability word of an option descriptor.
#[derive(Clone, Copy, PartialEq, Eq, Structural, Debug)]
pub struct Capabilities {
    bits: u32,
}

impl View for Capabilities {
    type V = u32;

    closed spec fn view(&self) -> u32 {
        self.bits
    }
}

/// Whether any bit of `mask` is set in `bits`.
pub open spec fn has_bit(bits: u32, mask: u32) -> bool {
    bits & mask != 0
}

/// The word after setting or clearing the bits of `mask`.
pub open spec fn with_bit(bits: u32, mask: u32, set: bool) -> u32 {
    if set {
        bits | mask
    } else {
        bits & !mask
    }
}

/// Soft selection implies soft detection.
pub open spec fn soft_select_detects(bits: u32) -> bool {
    has_bit(bits, CAP_SOFT_SELECT) ==> has_bit(bits, CAP_SOFT_DETECT)
}

/// What setting or clearing a one-bit mask does to that bit and to the
/// others.
proof fn lemma_with_bit(b: u32, m: u32)
    requires
        m == 1u32 || m == 2u32 || m == 4u32 || m == 8u32 || m == 16u32 || m == 32u32 || m == 64u32,
    ensures
        (b | m) & m != 0,
        (b & !m) & m == 0,
        m != 1u32 ==> (b | m) & 1u32 == b & 1u32 && (b & !m) & 1u32 == b & 1u32,
        m != 4u32 ==> (b | m) & 4u32 == b & 4u32 && (b & !m) & 4u32 == b & 4u32,
{
    assert((b | m) & m != 0) by (bit_vector)
        requires
            m == 1u32 || m == 2u32 || m == 4u32 || m == 8u32 || m == 16u32 || m == 32u32 || m == 64u32,
    ;
    assert((b & !m) & m == 0) by (bit_vector);
    assert(m != 1u32 ==> (b | m) & 1u32 == b & 1u32 && (b & !m) & 1u32 == b & 1u32) by (bit_vector)
        requires
            m == 1u32 || m == 2u32 || m == 4u32 || m == 8u32 || m == 16u32 || m == 32u32 || m == 64u32,
    ;
    assert(m != 4u32 ==> (b | m) & 4u32 == b & 4u32 && (b & !m) & 4u32 == b & 4u32) by (bit_vector)
        requires
            m == 1u32 || m == 2u32 || m == 4u32 || m == 8u32 || m == 16u32 || m == 32u32 || m == 64u32,
    ;
}

/// The debug entry for capability bit `bit`: its C name, or the mask as
/// eight hexadecimal digits.
pub open spec fn cap_entry(bit: u32) -> Seq<char> {
    if bit == 0 {
        "SANE_CAP_SOFT_SELECT"@
    } else if bit == 1 {
        "SANE_CAP_HARD_SELECT"@
    } else if bit == 2 {
        "SANE_CAP_SOFT_DETECT"@
    } else if bit == 3 {
        "SANE_CAP_EMULATED"@
    } else if bit == 4 {
        "SANE_CAP_AUTOMATIC"@
    } else if bit == 5 {
        "SANE_CAP_INACTIVE"@
    } else if bit == 6 {
        "SANE_CAP_ADVANCED"@
    } else {
        seq!['0', 'x'] + Seq::new(8, |i: int| digit_char((((1u32 << bit) >> (28 - 4 * i) as u32) & 0xfu32) as nat))
    }
}

/// The entries of the set bits below `k`, lowest first.
pub open spec fn cap_entries(bits: u32, k: nat) -> Seq<Seq<char>>
    decreases k,
{
    if k == 0 {
        Seq::empty()
    } else {
        let below = cap_entries(bits, (k - 1) as nat);
        if bits & (1u32 << (k - 1) as u32) != 0 {
            below.push(cap_entry((k - 1) as u32))
        } else {
            below
        }
    }
}

/// Entries separated by a comma and a space.
pub open spec fn join_entries(es: Seq<Seq<char>>) -> Seq<char>
    decreases es.len(),
{
    if es.len() == 0 {
        Seq::empty()
    } else if es.len() == 1 {
        es[0]
    } else {
        join_entries(es.drop_last()) + ", "@ + es.last()
    }
}

/// Writes the entry for capability bit `bit`.
fn push_cap_entry(s: &mut String, bit: u32)
    requires
        bit < 32,
    ensures
        final(s)@ == old(s)@ + cap_entry(bit),
{
    match bit {
        0 => s.append("SANE_CAP_SOFT_SELECT"),
        1 => s.append("SANE_CAP_HARD_SELECT"),
        2 => s.append("SANE_CAP_SOFT_DETECT"),
        3 => s.append("SANE_CAP_EMULATED"),
        4 => s.append("SANE_CAP_AUTOMATIC"),
        5 => s.append("SANE_CAP_INACTIVE"),
        6 => s.append("SANE_CAP_ADVANCED"),
        _ => {
            proof { reveal_strlit("0x"); }
            s.append("0x");
            let mask: u32 = 1u32 << bit;
            let mut i: u32 = 0;
            while i < 8
                invariant
                    bit < 32,
                    mask == 1u32 << bit,
                    i <= 8,
                    s@ == old(s)@ + seq!['0', 'x'] + Seq::new(
                        i as nat,
                        |j: int| digit_char((((1u32 << bit) >> (28 - 4 * j) as u32) & 0xfu32) as nat),
                    ),
                decreases 8 - i,
            {
                let sh: u32 = 28 - 4 * i;
                let nibble = (mask >> sh) & 0xf;
                assert((mask >> sh) & 0xfu32 < 16u32) by (bit_vector);
                s.append(digit_str(nibble));
                assert(s@ =~= old(s)@ + seq!['0', 'x'] + Seq::new(
                    (i + 1) as nat,
                    |j: int| digit_char((((1u32 << bit) >> (28 - 4 * j) as u32) & 0xfu32) as nat),
                ));
                i = i + 1;
            }
        },
    }
}

impl Capabilities {
    /// `Capabilities {A, B}`: the set bits, lowest first, as their C names,
    /// or as `0x` and eight hexadecimal digits for bits without one.
    pub fn to_debug_string(&self) -> (r: String)
        ensures
            r@ == "Capabilities {"@ + join_entries(cap_entries(self@, 32)) + "}"@,
    {
        let mut s = String::from_str("Capabilities {");
        let mut k: u32 = 0;
        let mut empty = true;
        while k < 32
            invariant
                k <= 32,
                empty == (cap_entries(self.bits, k as nat).len() == 0),
                s@ == "Capabilities {"@ + join_entries(cap_entries(self.bits, k as nat)),
            decreases 32 - k,
        {
            let ghost es = cap_entries(self.bits, k as nat);
            if self.bits & (1u32 << k) != 0 {
                if !empty {
                    s.append(", ");
                } else {
                    proof { assert(join_entries(es) =~= Seq::<char>::empty()); }
                }
                push_cap_entry(&mut s, k);
                empty = false;
                proof {
                    let e = cap_entry(k);
                    assert(es.push(e).drop_last() =~= es);
                    assert(cap_entries(self.bits, (k + 1) as nat) == es.push(e));
                    if es.len() == 0 {
                        assert(join_entries(es.push(e)) == e);
                    }
                }
                assert(s@ =~= "Capabilities {"@ + join_entries(cap_entries(self.bits, (k + 1) as nat)));
            }
            k = k + 1;
        }
        s.append("}");
        s
    }

    /// The pretty debug form at indent `k`: one set bit to a line.
    pub open spec fn spec_pretty(self, k: nat) -> Seq<char> {
        Capabilities::spec_pretty_of(self@, k)
    }

    /// The pretty debug form of the capability word `bits`.
    pub open spec fn spec_pretty_of(bits: u32, k: nat) -> Seq<char> {
        let es = cap_entries(bits, 32);
        if es.len() == 0 {
            "Capabilities {}"@
        } else {
            "Capabilities {\n"@ + list_lines(k, es) + spaces(k) + "}"@
        }
    }

    pub fn push_pretty(&self, s: &mut String, k: usize)
        requires
            k + 4 <= usize::MAX,
        ensures
            final(s)@ == old(s)@ + self.spec_pretty(k as nat),
    {
        let mut body = String::new();
        let mut bit: u32 = 0;
        let mut empty = true;
        while bit < 32
            invariant
                bit <= 32,
                k + 4 <= usize::MAX,
                empty == (cap_entries(self.bits, bit as nat).len() == 0),
                body@ == list_lines(k as nat, cap_entries(self.bits, bit as nat)),
            decreases 32 - bit,
        {
            let ghost es = cap_entries(self.bits, bit as nat);
            if self.bits & (1u32 << bit) != 0 {
                push_spaces(&mut body, k + 4);
                push_cap_entry(&mut body, bit);
                body.append(",\n");
                empty = false;
                proof {
                    lemma_list_lines_push(k as nat, es, cap_entry(bit));
                    assert(cap_entries(self.bits, (bit + 1) as nat) == es.push(cap_entry(bit)));
                }
                assert(body@ =~= list_lines(k as nat, cap_entries(self.bits, (bit + 1) as nat)));
            }
            bit = bit + 1;
        }
        if empty {
            s.append("Capabilities {}");
        } else {
            s.append("Capabilities {\n");
            s.append(body.as_str());
            push_close(s, k, "}");
        }
        assert(final(s)@ =~= old(s)@ + self.spec_pretty(k as nat));
    }

    /// No capability.
    pub fn none() -> (r: Capabilities)
        ensures
            r@ == 0,
    {
        Capabilities { bits: 0 }
    }

    /// Settable by software; implies detectable by software.
    pub fn soft_select() -> (r: Capabilities)
        ensures
            r@ == CAP_SOFT_SELECT | CAP_SOFT_DETECT,
            has_bit(r@, CAP_SOFT_SELECT),
            has_bit(r@, CAP_SOFT_DETECT),
    {
        assert((1u32 | 4u32) & 1u32 != 0 && (1u32 | 4u32) & 4u32 != 0) by (bit_vector);
        Capabilities { bits: CAP_SOFT_SELECT | CAP_SOFT_DETECT }
    }

    /// Settable by a physical control on the device.
    pub fn hard_select() -> (r: Capabilities)
        ensures
            r@ == CAP_HARD_SELECT,
    {
        Capabilities { bits: CAP_HARD_SELECT }
    }

    pub fn as_word(self) -> (r: Word)
        ensures
            r.0 == self@,
    {
        Word(self.bits)
    }

    pub fn from_word(word: Word) -> (r: Capabilities)
        ensures
            r@ == word.0,
    {
        Capabilities { bits: word.0 }
    }

    pub fn can_soft_select(self) -> (r: bool)
        ensures
            r == has_bit(self@, CAP_SOFT_SELECT),
    {
        self.bits & CAP_SOFT_SELECT != 0
    }

    pub fn can_hard_select(self) -> (r: bool)
        ensures
            r == has_bit(self@, CAP_HARD_SELECT),
    {
        self.bits & CAP_HARD_SELECT != 0
    }

    pub fn can_soft_detect(self) -> (r: bool)
        ensures
            r == has_bit(self@, CAP_SOFT_DETECT),
    {
        self.bits & CAP_SOFT_DETECT != 0
    }

    /// Sets soft detection; does nothing while soft selection is set, which
    /// implies it.
    pub fn set_soft_detect(&mut self, soft_detect: bool)
        ensures
            has_bit(old(self)@, CAP_SOFT_SELECT) ==> *final(self) == *old(self),
            !has_bit(old(self)@, CAP_SOFT_SELECT) ==> final(self)@ == with_bit(
                old(self)@,
                CAP_SOFT_DETECT,
                soft_detect,
            ),
            !has_bit(old(self)@, CAP_SOFT_SELECT) ==> has_bit(final(self)@, CAP_SOFT_DETECT)
                == soft_detect,
            soft_select_detects(old(self)@) ==> soft_select_detects(final(self)@),
    {
        if !self.can_soft_select() {
            self.set(CAP_SOFT_DETECT, soft_detect);
            proof { lemma_with_bit(old(self).bits, CAP_SOFT_DETECT); }
        }
    }

    pub fn is_emulated(self) -> (r: bool)
        ensures
            r == has_bit(self@, CAP_EMULATED),
    {
        self.bits & CAP_EMULATED != 0
    }

    pub fn set_emulated(&mut self, emulated: bool)
        ensures
            final(self)@ == with_bit(old(self)@, CAP_EMULATED, emulated),
            has_bit(final(self)@, CAP_EMULATED) == emulated,
            soft_select_detects(old(self)@) ==> soft_select_detects(final(self)@),
    {
        self.set(CAP_EMULATED, emulated);
        proof { lemma_with_bit(old(self).bits, CAP_EMULATED); }
    }

    pub fn is_automatic(self) -> (r: bool)
        ensures
            r == has_bit(self@, CAP_AUTOMATIC),
    {
        self.bits & CAP_AUTOMATIC != 0
    }

    pub fn set_automatic(&mut self, automatic: bool)
        ensures
            final(self)@ == with_bit(old(self)@, CAP_AUTOMATIC, automatic),
            has_bit(final(self)@, CAP_AUTOMATIC) == automatic,
            soft_select_detects(old(self)@) ==> soft_select_detects(final(self)@),
    {
        self.set(CAP_AUTOMATIC, automatic);
        proof { lemma_with_bit(old(self).bits, CAP_AUTOMATIC); }
    }

    /// Active unless the inactive bit is set.
    pub fn is_active(self) -> (r: bool)
        ensures
            r == !has_bit(self@, CAP_INACTIVE),
    {
        self.bits & CAP_INACTIVE == 0
    }

    pub fn set_active(&mut self, active: bool)
        ensures
            final(self)@ == with_bit(old(self)@, CAP_INACTIVE, !active),
            has_bit(final(self)@, CAP_INACTIVE) == !active,
            soft_select_detects(old(self)@) ==> soft_select_detects(final(self)@),
    {
        self.set(CAP_INACTIVE, !active);
        proof { lemma_with_bit(old(self).bits, CAP_INACTIVE); }
    }

    pub fn is_advanced(self) -> (r: bool)
        ensures
            r == has_bit(self@, CAP_ADVANCED),
    {
        self.bits & CAP_ADVANCED != 0
    }

    pub fn set_advanced(&mut self, advanced: bool)
        ensures
            final(self)@ == with_bit(old(self)@, CAP_ADVANCED, advanced),
            has_bit(final(self)@, CAP_ADVANCED) == advanced,
            soft_select_detects(old(self)@) ==> soft_select_detects(final(self)@),
    {
        self.set(CAP_ADVANCED, advanced);
        proof { lemma_with_bit(old(self).bits, CAP_ADVANCED); }
    }

    fn set(&mut self, mask: u32, set: bool)
        ensures
            final(self)@ == with_bit(old(self)@, mask, set),
    {
        if set {
            self.bits = self.bits | mask;
        } else {
            self.bits = self.bits & !mask;
        }
    }
}

} // verus!
