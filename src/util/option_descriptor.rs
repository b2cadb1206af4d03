//! Option descriptors, their constraints, and the builders that make them.

use vstd::prelude::*;
use vstd::string::*;

use crate::cstring::{no_nul, CString};
use crate::debug::{
    debug_enum, dec_digits, pretty_field, pretty_list, push_close, push_dec, push_field, push_list, push_list_line,
    push_quoted, quoted, spaces,
};
use crate::net::io::{
    be32, lemma_range_round_trip, lemma_string_items_round_trip, lemma_string_round_trip, lemma_word_prefix,
    lemma_words_round_trip, parse_bool, parse_range, parse_string, parse_string_items, parse_word,
    parse_words, range_wire, reads, string_items_wire, string_wire, strings_fit, strings_ok, view_result,
    views, words_wire, Decode, DecodeError, Encode, EncodeError, Parsed, Reader, RoundTrip, Writer,
};
use crate::util::capabilities::Capabilities;
use crate::{bits_i32, i32_bits, int_debug, u32_from_i32, Bool, ConstraintType, Fixed, Int, Range, Unit, ValueType, Word};

verus! {

/// What an option's constraint holds: words for the numeric kinds, byte
/// strings for the string list.
pub enum ConstraintModel {
    Unconstrained,
    IntRange(Range),
    FixedRange(Range),
    IntList(Seq<u32>),
    FixedList(Seq<u32>),
    StringList(Seq<Seq<u8>>),
}

/// What an option descriptor holds.
pub struct OptionDescriptorModel {
    pub name: Seq<u8>,
    pub title: Seq<u8>,
    pub description: Seq<u8>,
    pub value_type: ValueType,
    pub unit: Unit,
    pub size: u32,
    pub capabilities: u32,
    pub constraint: ConstraintModel,
}

/// The constraint kinds that each value type allows.
pub open spec fn constraint_allowed(value_type: ValueType, c: ConstraintModel) -> bool {
    match c {
        ConstraintModel::Unconstrained => true,
        ConstraintModel::IntRange(_) => value_type == ValueType::INT,
        ConstraintModel::IntList(_) => value_type == ValueType::INT,
        ConstraintModel::FixedRange(_) => value_type == ValueType::FIXED,
        ConstraintModel::FixedList(_) => value_type == ValueType::FIXED,
        ConstraintModel::StringList(_) => value_type == ValueType::STRING,
    }
}

/// The words of a list constraint, in order.
#[derive(PartialEq, Eq, Debug)]
pub struct WordList {
    words: Vec<u32>,
}

impl View for WordList {
    type V = Seq<u32>;

    closed spec fn view(&self) -> Seq<u32> {
        self.words@
    }
}

impl WordList {
    pub(crate) fn from_words(words: Vec<u32>) -> (r: WordList)
        ensures
            r@ == words@,
    {
        WordList { words }
    }

    pub fn len(&self) -> (r: usize)
        ensures
            r == self@.len(),
    {
        self.words.len()
    }

    pub fn get(&self, i: usize) -> (r: Word)
        requires
            i < self@.len(),
        ensures
            r.0 == self@[i as int],
    {
        Word(self.words[i])
    }

    /// Walks the words in order.
    pub fn iter(&self) -> (r: WordListIter<'_>)
        ensures
            r.items() == self@,
            r.pos() == 0,
    {
        WordListIter { words: self.words.as_slice(), pos: 0 }
    }

    /// A copy with the same words.
    pub fn duplicate(&self) -> (r: WordList)
        ensures
            r@ == self@,
    {
        let mut words: Vec<u32> = Vec::new();
        let mut i: usize = 0;
        while i < self.words.len()
            invariant
                i <= self.words@.len(),
                words@ == self.words@.take(i as int),
            decreases self.words@.len() - i,
        {
            words.push(self.words[i]);
            assert(self.words@.take(i as int + 1) =~= self.words@.take(i as int).push(self.words@[i as int]));
            i = i + 1;
        }
        assert(self.words@.take(i as int) =~= self.words@);
        WordList { words }
    }
}

/// A walk over the words of a list constraint.
pub struct WordListIter<'a> {
    words: &'a [u32],
    pos: usize,
}

impl<'a> WordListIter<'a> {
    pub closed spec fn items(&self) -> Seq<u32> {
        self.words@
    }

    pub closed spec fn pos(&self) -> int {
        self.pos as int
    }

    /// The next word, if any are left.
    pub fn next(&mut self) -> (r: Option<Word>)
        ensures
            final(self).items() == old(self).items(),
            old(self).pos() < old(self).items().len() ==> r == Some(Word(old(self).items()[old(self).pos()]))
                && final(self).pos() == old(self).pos() + 1,
            old(self).pos() >= old(self).items().len() ==> r is None && final(self).pos() == old(self).pos(),
    {
        if self.pos < self.words.len() {
            let w = self.words[self.pos];
            self.pos = self.pos + 1;
            Some(Word(w))
        } else {
            None
        }
    }
}

/// The strings of a string-list constraint, in order.
#[derive(PartialEq, Eq, Debug)]
pub struct StringList {
    strings: Vec<CString>,
}

impl View for StringList {
    type V = Seq<Seq<u8>>;

    closed spec fn view(&self) -> Seq<Seq<u8>> {
        self.strings@.map_values(|s: CString| s@)
    }
}

impl StringList {
    pub(crate) fn from_strings(strings: Vec<CString>) -> (r: StringList)
        ensures
            r@ == strings@.map_values(|s: CString| s@),
    {
        StringList { strings }
    }

    pub fn len(&self) -> (r: usize)
        ensures
            r == self@.len(),
    {
        self.strings.len()
    }

    pub fn get(&self, i: usize) -> (r: &CString)
        requires
            i < self@.len(),
        ensures
            r@ == self@[i as int],
    {
        &self.strings[i]
    }

    /// Walks the strings in order.
    pub fn iter(&self) -> (r: StringListIter<'_>)
        ensures
            r.items() == self@,
            r.pos() == 0,
    {
        StringListIter { strings: self.strings.as_slice(), pos: 0 }
    }

    /// A copy with the same strings.
    pub fn duplicate(&self) -> (r: StringList)
        ensures
            r@ == self@,
    {
        let mut strings: Vec<CString> = Vec::new();
        let mut i: usize = 0;
        while i < self.strings.len()
            invariant
                i <= self.strings@.len(),
                strings@.map_values(|s: CString| s@) == self.strings@.take(i as int).map_values(
                    |s: CString| s@,
                ),
            decreases self.strings@.len() - i,
        {
            let s = self.strings[i].duplicate();
            let ghost before = strings@;
            strings.push(s);
            assert(strings@.map_values(|s: CString| s@) =~= before.map_values(|s: CString| s@).push(s@));
            assert(self.strings@.take(i as int + 1).map_values(|s: CString| s@) =~= self.strings@.take(
                i as int,
            ).map_values(|s: CString| s@).push(self.strings@[i as int]@));
            i = i + 1;
        }
        assert(self.strings@.take(i as int) =~= self.strings@);
        StringList { strings }
    }
}

/// A walk over the strings of a string-list constraint.
pub struct StringListIter<'a> {
    strings: &'a [CString],
    pos: usize,
}

impl<'a> StringListIter<'a> {
    pub closed spec fn items(&self) -> Seq<Seq<u8>> {
        self.strings@.map_values(|s: CString| s@)
    }

    pub closed spec fn pos(&self) -> int {
        self.pos as int
    }

    /// The next string, if any are left.
    pub fn next(&mut self) -> (r: Option<&'a CString>)
        ensures
            final(self).items() == old(self).items(),
            old(self).pos() < old(self).items().len() ==> r is Some && r.unwrap()@ == old(self).items()[old(
                self,
            ).pos()] && final(self).pos() == old(self).pos() + 1,
            old(self).pos() >= old(self).items().len() ==> r is None && final(self).pos() == old(self).pos(),
    {
        if self.pos < self.strings.len() {
            let s = &self.strings[self.pos];
            self.pos = self.pos + 1;
            Some(s)
        } else {
            None
        }
    }
}

/// The constraint on an option's values.
#[derive(PartialEq, Eq, Debug)]
pub enum Constraint {
    Unconstrained,
    IntRange(Range),
    FixedRange(Range),
    IntList(WordList),
    FixedList(WordList),
    StringList(StringList),
}

impl View for Constraint {
    type V = ConstraintModel;

    open spec fn view(&self) -> ConstraintModel {
        match self {
            Constraint::Unconstrained => ConstraintModel::Unconstrained,
            Constraint::IntRange(r) => ConstraintModel::IntRange(*r),
            Constraint::FixedRange(r) => ConstraintModel::FixedRange(*r),
            Constraint::IntList(l) => ConstraintModel::IntList(l@),
            Constraint::FixedList(l) => ConstraintModel::FixedList(l@),
            Constraint::StringList(l) => ConstraintModel::StringList(l@),
        }
    }
}

impl Constraint {
    /// A copy with the same contents.
    pub fn duplicate(&self) -> (r: Constraint)
        ensures
            r@ == self@,
    {
        match self {
            Constraint::Unconstrained => Constraint::Unconstrained,
            Constraint::IntRange(r) => Constraint::IntRange(*r),
            Constraint::FixedRange(r) => Constraint::FixedRange(*r),
            Constraint::IntList(l) => Constraint::IntList(l.duplicate()),
            Constraint::FixedList(l) => Constraint::FixedList(l.duplicate()),
            Constraint::StringList(l) => Constraint::StringList(l.duplicate()),
        }
    }
}

/// `SANE_Option_Descriptor`: one option of a device.
#[derive(PartialEq, Eq, Debug)]
pub struct OptionDescriptor {
    name: CString,
    title: CString,
    description: CString,
    value_type: ValueType,
    unit: Unit,
    size: u32,
    capabilities: Capabilities,
    constraint: Constraint,
}

impl View for OptionDescriptor {
    type V = OptionDescriptorModel;

    closed spec fn view(&self) -> OptionDescriptorModel {
        OptionDescriptorModel {
            name: self.name@,
            title: self.title@,
            description: self.description@,
            value_type: self.value_type,
            unit: self.unit,
            size: self.size,
            capabilities: self.capabilities@,
            constraint: self.constraint@,
        }
    }
}

impl OptionDescriptor {
    pub fn name(&self) -> (r: &CString)
        ensures
            r@ == self@.name,
    {
        &self.name
    }

    pub fn title(&self) -> (r: &CString)
        ensures
            r@ == self@.title,
    {
        &self.title
    }

    pub fn description(&self) -> (r: &CString)
        ensures
            r@ == self@.description,
    {
        &self.description
    }

    pub fn value_type(&self) -> (r: ValueType)
        ensures
            r == self@.value_type,
    {
        self.value_type
    }

    pub fn unit(&self) -> (r: Unit)
        ensures
            r == self@.unit,
    {
        self.unit
    }

    /// The size of the option's value, in bytes.
    pub fn size(&self) -> (r: usize)
        ensures
            r == self@.size,
    {
        self.size as usize
    }

    pub fn capabilities(&self) -> (r: Capabilities)
        ensures
            r@ == self@.capabilities,
    {
        self.capabilities
    }

    pub fn constraint(&self) -> (r: &Constraint)
        ensures
            r@ == self@.constraint,
    {
        &self.constraint
    }

    /// A copy with the same fields.
    pub fn duplicate(&self) -> (r: OptionDescriptor)
        ensures
            r@ == self@,
    {
        OptionDescriptor {
            name: self.name.duplicate(),
            title: self.title.duplicate(),
            description: self.description.duplicate(),
            value_type: self.value_type,
            unit: self.unit,
            size: self.size,
            capabilities: self.capabilities,
            constraint: self.constraint.duplicate(),
        }
    }
}

/// An owned option descriptor, as a builder or a decoder makes it.
#[derive(PartialEq, Eq, Debug)]
pub struct OptionDescriptorBuf {
    inner: OptionDescriptor,
}

impl View for OptionDescriptorBuf {
    type V = OptionDescriptorModel;

    closed spec fn view(&self) -> OptionDescriptorModel {
        self.inner@
    }
}

impl OptionDescriptorBuf {
    /// The descriptor this buffer holds.
    pub fn as_ref(&self) -> (r: &OptionDescriptor)
        ensures
            r@ == self@,
    {
        &self.inner
    }

    pub fn name(&self) -> (r: &CString)
        ensures
            r@ == self@.name,
    {
        &self.inner.name
    }

    pub fn title(&self) -> (r: &CString)
        ensures
            r@ == self@.title,
    {
        &self.inner.title
    }

    pub fn description(&self) -> (r: &CString)
        ensures
            r@ == self@.description,
    {
        &self.inner.description
    }

    pub fn value_type(&self) -> (r: ValueType)
        ensures
            r == self@.value_type,
    {
        self.inner.value_type
    }

    pub fn unit(&self) -> (r: Unit)
        ensures
            r == self@.unit,
    {
        self.inner.unit
    }

    pub fn size(&self) -> (r: usize)
        ensures
            r == self@.size,
    {
        self.inner.size as usize
    }

    pub fn capabilities(&self) -> (r: Capabilities)
        ensures
            r@ == self@.capabilities,
    {
        self.inner.capabilities
    }

    pub fn constraint(&self) -> (r: &Constraint)
        ensures
            r@ == self@.constraint,
    {
        &self.inner.constraint
    }

    /// A copy with the same fields.
    pub fn duplicate(&self) -> (r: OptionDescriptorBuf)
        ensures
            r@ == self@,
    {
        OptionDescriptorBuf { inner: self.inner.duplicate() }
    }
}

/// Builds the descriptor of a boolean option.
pub struct BoolOptionBuilder {
    desc: OptionDescriptor,
}

impl View for BoolOptionBuilder {
    type V = OptionDescriptorModel;

    closed spec fn view(&self) -> OptionDescriptorModel {
        self.desc@
    }
}

impl BoolOptionBuilder {
    pub fn new(name: CString) -> (r: Self)
        ensures
            r@ == (OptionDescriptorModel {
                name: name@,
                title: Seq::empty(),
                description: Seq::empty(),
                value_type: ValueType::BOOL,
                unit: Unit::NONE,
                size: 4,
                capabilities: 0,
                constraint: ConstraintModel::Unconstrained,
            }),
    {
        BoolOptionBuilder {
            desc: OptionDescriptor {
                name,
                title: CString::empty(),
                description: CString::empty(),
                value_type: ValueType::BOOL,
                unit: Unit::NONE,
                size: 4,
                capabilities: Capabilities::none(),
                constraint: Constraint::Unconstrained,
            },
        }
    }

    pub fn title(self, title: CString) -> (r: Self)
        ensures
            r@ == (OptionDescriptorModel { title: title@, ..self@ }),
    {
        let mut b = self;
        b.desc.title = title;
        b
    }

    pub fn description(self, description: CString) -> (r: Self)
        ensures
            r@ == (OptionDescriptorModel { description: description@, ..self@ }),
    {
        let mut b = self;
        b.desc.description = description;
        b
    }

    pub fn capabilities(self, capabilities: Capabilities) -> (r: Self)
        ensures
            r@ == (OptionDescriptorModel { capabilities: capabilities@, ..self@ }),
    {
        let mut b = self;
        b.desc.capabilities = capabilities;
        b
    }

    pub fn build(self) -> (r: OptionDescriptorBuf)
        ensures
            r@ == self@,
    {
        OptionDescriptorBuf { inner: self.desc }
    }
}

/// Builds the descriptor of an integer option.
pub struct IntOptionBuilder {
    desc: OptionDescriptor,
}

impl View for IntOptionBuilder {
    type V = OptionDescriptorModel;

    closed spec fn view(&self) -> OptionDescriptorModel {
        self.desc@
    }
}

/// The words whose bits are those of the given integers.
pub open spec fn i32_words(values: Seq<i32>) -> Seq<u32> {
    values.map_values(|v: i32| i32_bits(v))
}

/// The words of the given fixed-point values.
pub open spec fn fixed_words(values: Seq<Fixed>) -> Seq<u32> {
    values.map_values(|v: Fixed| i32_bits(v.0))
}

pub(crate) fn words_of_i32(values: &[i32]) -> (r: Vec<u32>)
    ensures
        r@ == i32_words(values@),
{
    let mut words: Vec<u32> = Vec::new();
    let mut i: usize = 0;
    while i < values.len()
        invariant
            i <= values@.len(),
            words@ == i32_words(values@.take(i as int)),
        decreases values@.len() - i,
    {
        words.push(u32_from_i32(values[i]));
        assert(i32_words(values@.take(i as int + 1)) =~= i32_words(values@.take(i as int)).push(
            i32_bits(values@[i as int]),
        ));
        i = i + 1;
    }
    assert(values@.take(i as int) =~= values@);
    words
}

pub(crate) fn words_of_fixed(values: &[Fixed]) -> (r: Vec<u32>)
    ensures
        r@ == fixed_words(values@),
{
    let mut words: Vec<u32> = Vec::new();
    let mut i: usize = 0;
    while i < values.len()
        invariant
            i <= values@.len(),
            words@ == fixed_words(values@.take(i as int)),
        decreases values@.len() - i,
    {
        words.push(values[i].as_word().0);
        assert(fixed_words(values@.take(i as int + 1)) =~= fixed_words(values@.take(i as int)).push(
            i32_bits(values@[i as int].0),
        ));
        i = i + 1;
    }
    assert(values@.take(i as int) =~= values@);
    words
}

impl IntOptionBuilder {
    pub fn new(name: CString) -> (r: Self)
        ensures
            r@ == (OptionDescriptorModel {
                name: name@,
                title: Seq::empty(),
                description: Seq::empty(),
                value_type: ValueType::INT,
                unit: Unit::NONE,
                size: 4,
                capabilities: 0,
                constraint: ConstraintModel::Unconstrained,
            }),
    {
        IntOptionBuilder {
            desc: OptionDescriptor {
                name,
                title: CString::empty(),
                description: CString::empty(),
                value_type: ValueType::INT,
                unit: Unit::NONE,
                size: 4,
                capabilities: Capabilities::none(),
                constraint: Constraint::Unconstrained,
            },
        }
    }

    pub fn title(self, title: CString) -> (r: Self)
        ensures
            r@ == (OptionDescriptorModel { title: title@, ..self@ }),
    {
        let mut b = self;
        b.desc.title = title;
        b
    }

    pub fn description(self, description: CString) -> (r: Self)
        ensures
            r@ == (OptionDescriptorModel { description: description@, ..self@ }),
    {
        let mut b = self;
        b.desc.description = description;
        b
    }

    pub fn unit(self, unit: Unit) -> (r: Self)
        ensures
            r@ == (OptionDescriptorModel { unit, ..self@ }),
    {
        let mut b = self;
        b.desc.unit = unit;
        b
    }

    pub fn capabilities(self, capabilities: Capabilities) -> (r: Self)
        ensures
            r@ == (OptionDescriptorModel { capabilities: capabilities@, ..self@ }),
    {
        let mut b = self;
        b.desc.capabilities = capabilities;
        b
    }

    /// The number of integers the option holds; its size is four bytes each.
    pub fn count(self, count: usize) -> (r: Self)
        requires
            count * 4 <= u32::MAX,
        ensures
            r@ == (OptionDescriptorModel { size: (count * 4) as u32, ..self@ }),
    {
        let mut b = self;
        b.desc.size = (count * 4) as u32;
        b
    }

    /// Constrains values to `min..=max` in steps of `quant`; replaces a list.
    pub fn range(self, min: i32, max: i32, quant: i32) -> (r: Self)
        ensures
            r@ == (OptionDescriptorModel {
                constraint: ConstraintModel::IntRange(
                    Range { min: Word(i32_bits(min)), max: Word(i32_bits(max)), quant: Word(i32_bits(quant)) },
                ),
                ..self@
            }),
    {
        let mut b = self;
        b.desc.constraint = Constraint::IntRange(
            Range { min: Word(u32_from_i32(min)), max: Word(u32_from_i32(max)), quant: Word(u32_from_i32(quant)) },
        );
        b
    }

    /// Constrains values to those listed; replaces a range.
    pub fn values(self, values: &[i32]) -> (r: Self)
        ensures
            r@ == (OptionDescriptorModel { constraint: ConstraintModel::IntList(i32_words(values@)), ..self@ }),
    {
        let mut b = self;
        b.desc.constraint = Constraint::IntList(WordList::from_words(words_of_i32(values)));
        b
    }

    pub fn build(self) -> (r: OptionDescriptorBuf)
        ensures
            r@ == self@,
    {
        OptionDescriptorBuf { inner: self.desc }
    }
}

/// Builds the descriptor of a fixed-point option.
pub struct FixedOptionBuilder {
    desc: OptionDescriptor,
}

impl View for FixedOptionBuilder {
    type V = OptionDescriptorModel;

    closed spec fn view(&self) -> OptionDescriptorModel {
        self.desc@
    }
}

impl FixedOptionBuilder {
    pub fn new(name: CString) -> (r: Self)
        ensures
            r@ == (OptionDescriptorModel {
                name: name@,
                title: Seq::empty(),
                description: Seq::empty(),
                value_type: ValueType::FIXED,
                unit: Unit::NONE,
                size: 4,
                capabilities: 0,
                constraint: ConstraintModel::Unconstrained,
            }),
    {
        FixedOptionBuilder {
            desc: OptionDescriptor {
                name,
                title: CString::empty(),
                description: CString::empty(),
                value_type: ValueType::FIXED,
                unit: Unit::NONE,
                size: 4,
                capabilities: Capabilities::none(),
                constraint: Constraint::Unconstrained,
            },
        }
    }

    pub fn title(self, title: CString) -> (r: Self)
        ensures
            r@ == (OptionDescriptorModel { title: title@, ..self@ }),
    {
        let mut b = self;
        b.desc.title = title;
        b
    }

    pub fn description(self, description: CString) -> (r: Self)
        ensures
            r@ == (OptionDescriptorModel { description: description@, ..self@ }),
    {
        let mut b = self;
        b.desc.description = description;
        b
    }

    pub fn unit(self, unit: Unit) -> (r: Self)
        ensures
            r@ == (OptionDescriptorModel { unit, ..self@ }),
    {
        let mut b = self;
        b.desc.unit = unit;
        b
    }

    pub fn capabilities(self, capabilities: Capabilities) -> (r: Self)
        ensures
            r@ == (OptionDescriptorModel { capabilities: capabilities@, ..self@ }),
    {
        let mut b = self;
        b.desc.capabilities = capabilities;
        b
    }

    /// The number of values the option holds; its size is four bytes each.
    pub fn count(self, count: usize) -> (r: Self)
        requires
            count * 4 <= u32::MAX,
        ensures
            r@ == (OptionDescriptorModel { size: (count * 4) as u32, ..self@ }),
    {
        let mut b = self;
        b.desc.size = (count * 4) as u32;
        b
    }

    /// Constrains values to `min..=max` in steps of `quant`; replaces a list.
    pub fn range(self, min: Fixed, max: Fixed, quant: Fixed) -> (r: Self)
        ensures
            r@ == (OptionDescriptorModel {
                constraint: ConstraintModel::FixedRange(
                    Range {
                        min: Word(i32_bits(min.0)),
                        max: Word(i32_bits(max.0)),
                        quant: Word(i32_bits(quant.0)),
                    },
                ),
                ..self@
            }),
    {
        let mut b = self;
        b.desc.constraint = Constraint::FixedRange(
            Range { min: min.as_word(), max: max.as_word(), quant: quant.as_word() },
        );
        b
    }

    /// Constrains values to those listed; replaces a range.
    pub fn values(self, values: &[Fixed]) -> (r: Self)
        ensures
            r@ == (OptionDescriptorModel {
                constraint: ConstraintModel::FixedList(fixed_words(values@)),
                ..self@
            }),
    {
        let mut b = self;
        b.desc.constraint = Constraint::FixedList(WordList::from_words(words_of_fixed(values)));
        b
    }

    pub fn build(self) -> (r: OptionDescriptorBuf)
        ensures
            r@ == self@,
    {
        OptionDescriptorBuf { inner: self.desc }
    }
}

/// Builds the descriptor of a string option.
pub struct StringOptionBuilder {
    desc: OptionDescriptor,
}

impl View for StringOptionBuilder {
    type V = OptionDescriptorModel;

    closed spec fn view(&self) -> OptionDescriptorModel {
        self.desc@
    }
}

impl StringOptionBuilder {
    /// `size` is the greatest length of the value, its NUL included.
    pub fn new(name: CString, size: u32) -> (r: Self)
        ensures
            r@ == (OptionDescriptorModel {
                name: name@,
                title: Seq::empty(),
                description: Seq::empty(),
                value_type: ValueType::STRING,
                unit: Unit::NONE,
                size,
                capabilities: 0,
                constraint: ConstraintModel::Unconstrained,
            }),
    {
        StringOptionBuilder {
            desc: OptionDescriptor {
                name,
                title: CString::empty(),
                description: CString::empty(),
                value_type: ValueType::STRING,
                unit: Unit::NONE,
                size,
                capabilities: Capabilities::none(),
                constraint: Constraint::Unconstrained,
            },
        }
    }

    pub fn title(self, title: CString) -> (r: Self)
        ensures
            r@ == (OptionDescriptorModel { title: title@, ..self@ }),
    {
        let mut b = self;
        b.desc.title = title;
        b
    }

    pub fn description(self, description: CString) -> (r: Self)
        ensures
            r@ == (OptionDescriptorModel { description: description@, ..self@ }),
    {
        let mut b = self;
        b.desc.description = description;
        b
    }

    pub fn unit(self, unit: Unit) -> (r: Self)
        ensures
            r@ == (OptionDescriptorModel { unit, ..self@ }),
    {
        let mut b = self;
        b.desc.unit = unit;
        b
    }

    pub fn capabilities(self, capabilities: Capabilities) -> (r: Self)
        ensures
            r@ == (OptionDescriptorModel { capabilities: capabilities@, ..self@ }),
    {
        let mut b = self;
        b.desc.capabilities = capabilities;
        b
    }

    /// Constrains values to those listed.
    pub fn values(self, values: Vec<CString>) -> (r: Self)
        ensures
            r@ == (OptionDescriptorModel {
                constraint: ConstraintModel::StringList(values@.map_values(|s: CString| s@)),
                ..self@
            }),
    {
        let mut b = self;
        b.desc.constraint = Constraint::StringList(StringList::from_strings(values));
        b
    }

    pub fn build(self) -> (r: OptionDescriptorBuf)
        ensures
            r@ == self@,
    {
        OptionDescriptorBuf { inner: self.desc }
    }
}

/// Builds the descriptor of a button option.
pub struct ButtonOptionBuilder {
    desc: OptionDescriptor,
}

impl View for ButtonOptionBuilder {
    type V = OptionDescriptorModel;

    closed spec fn view(&self) -> OptionDescriptorModel {
        self.desc@
    }
}

impl ButtonOptionBuilder {
    pub fn new(name: CString) -> (r: Self)
        ensures
            r@ == (OptionDescriptorModel {
                name: name@,
                title: Seq::empty(),
                description: Seq::empty(),
                value_type: ValueType::BUTTON,
                unit: Unit::NONE,
                size: 0,
                capabilities: 0,
                constraint: ConstraintModel::Unconstrained,
            }),
    {
        ButtonOptionBuilder {
            desc: OptionDescriptor {
                name,
                title: CString::empty(),
                description: CString::empty(),
                value_type: ValueType::BUTTON,
                unit: Unit::NONE,
                size: 0,
                capabilities: Capabilities::none(),
                constraint: Constraint::Unconstrained,
            },
        }
    }

    pub fn title(self, title: CString) -> (r: Self)
        ensures
            r@ == (OptionDescriptorModel { title: title@, ..self@ }),
    {
        let mut b = self;
        b.desc.title = title;
        b
    }

    pub fn description(self, description: CString) -> (r: Self)
        ensures
            r@ == (OptionDescriptorModel { description: description@, ..self@ }),
    {
        let mut b = self;
        b.desc.description = description;
        b
    }

    pub fn capabilities(self, capabilities: Capabilities) -> (r: Self)
        ensures
            r@ == (OptionDescriptorModel { capabilities: capabilities@, ..self@ }),
    {
        let mut b = self;
        b.desc.capabilities = capabilities;
        b
    }

    pub fn build(self) -> (r: OptionDescriptorBuf)
        ensures
            r@ == self@,
    {
        OptionDescriptorBuf { inner: self.desc }
    }
}

/// Builds the descriptor of an option group: a title over the options that
/// follow it.
pub struct GroupOptionBuilder {
    desc: OptionDescriptor,
}

impl View for GroupOptionBuilder {
    type V = OptionDescriptorModel;

    closed spec fn view(&self) -> OptionDescriptorModel {
        self.desc@
    }
}

impl GroupOptionBuilder {
    pub fn new() -> (r: Self)
        ensures
            r@ == (OptionDescriptorModel {
                name: Seq::empty(),
                title: Seq::empty(),
                description: Seq::empty(),
                value_type: ValueType::GROUP,
                unit: Unit::NONE,
                size: 0,
                capabilities: 0,
                constraint: ConstraintModel::Unconstrained,
            }),
    {
        GroupOptionBuilder {
            desc: OptionDescriptor {
                name: CString::empty(),
                title: CString::empty(),
                description: CString::empty(),
                value_type: ValueType::GROUP,
                unit: Unit::NONE,
                size: 0,
                capabilities: Capabilities::none(),
                constraint: Constraint::Unconstrained,
            },
        }
    }

    pub fn title(self, title: CString) -> (r: Self)
        ensures
            r@ == (OptionDescriptorModel { title: title@, ..self@ }),
    {
        let mut b = self;
        b.desc.title = title;
        b
    }

    pub fn description(self, description: CString) -> (r: Self)
        ensures
            r@ == (OptionDescriptorModel { description: description@, ..self@ }),
    {
        let mut b = self;
        b.desc.description = description;
        b
    }

    pub fn build(self) -> (r: OptionDescriptorBuf)
        ensures
            r@ == self@,
    {
        OptionDescriptorBuf { inner: self.desc }
    }
}

// Wire form

/// A constraint on the wire: its type word, then its body.
pub open spec fn constraint_wire(c: ConstraintModel) -> Seq<u8> {
    match c {
        ConstraintModel::Unconstrained => be32(0),
        ConstraintModel::IntRange(r) => be32(1) + be32(0) + range_wire(r),
        ConstraintModel::FixedRange(r) => be32(1) + be32(0) + range_wire(r),
        ConstraintModel::IntList(ws) => be32(2) + be32((ws.len() + 1) as u32) + be32(ws.len() as u32)
            + words_wire(ws),
        ConstraintModel::FixedList(ws) => be32(2) + be32((ws.len() + 1) as u32) + be32(ws.len() as u32)
            + words_wire(ws),
        ConstraintModel::StringList(ss) => be32(3) + be32((ss.len() + 1) as u32) + string_items_wire(ss),
    }
}

/// Every length in the constraint fits a word.
pub open spec fn constraint_fits(c: ConstraintModel) -> bool {
    match c {
        ConstraintModel::IntList(ws) => ws.len() + 1 <= u32::MAX,
        ConstraintModel::FixedList(ws) => ws.len() + 1 <= u32::MAX,
        ConstraintModel::StringList(ss) => ss.len() + 1 <= u32::MAX && strings_fit(ss),
        _ => true,
    }
}

/// A descriptor on the wire: name, title, description, value type, unit,
/// size, capabilities, constraint.
pub open spec fn option_descriptor_wire(m: OptionDescriptorModel) -> Seq<u8> {
    string_wire(m.name) + string_wire(m.title) + string_wire(m.description) + be32(m.value_type.code())
        + be32(m.unit.code()) + be32(m.size) + be32(m.capabilities) + constraint_wire(m.constraint)
}

/// Every length in the descriptor fits a word.
pub open spec fn option_descriptor_fits(m: OptionDescriptorModel) -> bool {
    &&& m.name.len() + 1 <= u32::MAX
    &&& m.title.len() + 1 <= u32::MAX
    &&& m.description.len() + 1 <= u32::MAX
    &&& constraint_fits(m.constraint)
}

/// A word list: the count plus one (0 for an empty list), the count again,
/// then the words.
pub open spec fn parse_word_list(d: Seq<u8>) -> Parsed<Seq<u32>> {
    match parse_word(d) {
        Err(e) => Err(e),
        Ok((n, d1)) => if n == 0 {
            Ok((Seq::empty(), d1))
        } else {
            match parse_word(d1) {
                Err(e) => Err(e),
                Ok((_, d2)) => parse_words(d2, (n - 1) as nat),
            }
        },
    }
}

/// A string list: the count plus one, then strings up to the first NULL.
pub open spec fn parse_string_list(d: Seq<u8>) -> Parsed<Seq<Seq<u8>>> {
    match parse_word(d) {
        Err(e) => Err(e),
        Ok((n, d1)) => parse_string_items(d1, n as nat),
    }
}

/// The constraint of an integer or fixed-point option.
pub open spec fn parse_number_constraint(d: Seq<u8>, is_int: bool) -> Parsed<ConstraintModel> {
    match parse_word(d) {
        Err(e) => Err(e),
        Ok((ct, d1)) => if ct == 0 {
            Ok((ConstraintModel::Unconstrained, d1))
        } else if ct == 1 {
            match parse_bool(d1) {
                Err(e) => Err(e),
                Ok((Bool::TRUE, _)) => Err(DecodeError::NullPtr),
                Ok((Bool::FALSE, d2)) => match parse_range(d2) {
                    Err(e) => Err(e),
                    Ok((r, d3)) => Ok((
                        if is_int {
                            ConstraintModel::IntRange(r)
                        } else {
                            ConstraintModel::FixedRange(r)
                        },
                        d3,
                    )),
                },
            }
        } else if ct == 2 {
            match parse_word_list(d1) {
                Err(e) => Err(e),
                Ok((ws, d2)) => Ok((
                    if is_int {
                        ConstraintModel::IntList(ws)
                    } else {
                        ConstraintModel::FixedList(ws)
                    },
                    d2,
                )),
            }
        } else {
            Err(
                DecodeError::InvalidConstraint(
                    if is_int {
                        ValueType::INT
                    } else {
                        ValueType::FIXED
                    },
                    ConstraintType::from_code(ct),
                ),
            )
        },
    }
}

/// The constraint of a string option.
pub open spec fn parse_string_constraint(d: Seq<u8>) -> Parsed<ConstraintModel> {
    match parse_word(d) {
        Err(e) => Err(e),
        Ok((ct, d1)) => if ct == 0 {
            Ok((ConstraintModel::Unconstrained, d1))
        } else if ct == 3 {
            match parse_string_list(d1) {
                Err(e) => Err(e),
                Ok((ss, d2)) => Ok((ConstraintModel::StringList(ss), d2)),
            }
        } else {
            Err(DecodeError::InvalidConstraint(ValueType::STRING, ConstraintType::from_code(ct)))
        },
    }
}

/// The constraint of an option that allows none.
pub open spec fn parse_no_constraint(d: Seq<u8>, value_type: ValueType) -> Parsed<ConstraintModel> {
    match parse_word(d) {
        Err(e) => Err(e),
        Ok((ct, d1)) => if ct == 0 {
            Ok((ConstraintModel::Unconstrained, d1))
        } else {
            Err(DecodeError::InvalidConstraint(value_type, ConstraintType::from_code(ct)))
        },
    }
}

/// What follows the fixed fields of a descriptor, by value type. Fields
/// that a value type does not use come back cleared: the unit of booleans,
/// buttons and groups, the size of buttons and groups, the name and
/// capabilities of groups.
pub open spec fn parse_option_body(
    name: Seq<u8>,
    title: Seq<u8>,
    description: Seq<u8>,
    value_type: ValueType,
    unit: Unit,
    size: u32,
    capabilities: u32,
    d: Seq<u8>,
) -> Parsed<OptionDescriptorModel> {
    let with = |unit: Unit, size: u32, constraint: ConstraintModel|
        OptionDescriptorModel { name, title, description, value_type, unit, size, capabilities, constraint };
    match value_type {
        ValueType::BOOL => match parse_no_constraint(d, value_type) {
            Err(e) => Err(e),
            Ok((c, rest)) => if size != 4 {
                Err(DecodeError::InvalidOptionType)
            } else {
                Ok((with(Unit::NONE, 4, c), rest))
            },
        },
        ValueType::INT => if size % 4 != 0 || size < 4 {
            Err(DecodeError::InvalidOptionType)
        } else {
            match parse_number_constraint(d, true) {
                Err(e) => Err(e),
                Ok((c, rest)) => Ok((with(unit, size, c), rest)),
            }
        },
        ValueType::FIXED => if size % 4 != 0 || size < 4 {
            Err(DecodeError::InvalidOptionType)
        } else {
            match parse_number_constraint(d, false) {
                Err(e) => Err(e),
                Ok((c, rest)) => Ok((with(unit, size, c), rest)),
            }
        },
        ValueType::STRING => match parse_string_constraint(d) {
            Err(e) => Err(e),
            Ok((c, rest)) => Ok((with(unit, size, c), rest)),
        },
        ValueType::BUTTON => match parse_no_constraint(d, value_type) {
            Err(e) => Err(e),
            Ok((c, rest)) => Ok((with(Unit::NONE, 0, c), rest)),
        },
        ValueType::GROUP => match parse_no_constraint(d, value_type) {
            Err(e) => Err(e),
            Ok((c, rest)) => Ok((
                OptionDescriptorModel {
                    name: Seq::empty(),
                    title,
                    description,
                    value_type,
                    unit: Unit::NONE,
                    size: 0,
                    capabilities: 0,
                    constraint: c,
                },
                rest,
            )),
        },
        ValueType::Unknown(_) => Err(DecodeError::InvalidValueType(value_type)),
    }
}

pub open spec fn parse_option_descriptor(d: Seq<u8>) -> Parsed<OptionDescriptorModel> {
    match parse_string(d) {
        Err(e) => Err(e),
        Ok((name, d1)) => match parse_string(d1) {
            Err(e) => Err(e),
            Ok((title, d2)) => match parse_string(d2) {
                Err(e) => Err(e),
                Ok((description, d3)) => match parse_word(d3) {
                    Err(e) => Err(e),
                    Ok((vt, d4)) => match parse_word(d4) {
                        Err(e) => Err(e),
                        Ok((unit, d5)) => match parse_word(d5) {
                            Err(e) => Err(e),
                            Ok((size, d6)) => match parse_word(d6) {
                                Err(e) => Err(e),
                                Ok((caps, d7)) => parse_option_body(
                                    name,
                                    title,
                                    description,
                                    ValueType::from_code(vt),
                                    Unit::from_code(unit),
                                    size,
                                    caps,
                                    d7,
                                ),
                            },
                        },
                    },
                },
            },
        },
    }
}

fn read_word_list(r: &mut Reader) -> (res: Result<Vec<u32>, DecodeError>)
    ensures
        reads(
            match res {
                Ok(v) => Ok(v@),
                Err(e) => Err(e),
            },
            parse_word_list(old(r).remaining()),
            final(r).remaining(),
        ),
{
    let n = match r.read_word() {
        Ok(n) => n,
        Err(e) => return Err(e),
    };
    if n == 0 {
        return Ok(Vec::new());
    }
    match r.read_word() {
        Ok(_) => {},
        Err(e) => return Err(e),
    }
    r.read_words((n - 1) as usize)
}

fn read_string_list(r: &mut Reader) -> (res: Result<Vec<CString>, DecodeError>)
    ensures
        reads(
            match res {
                Ok(v) => Ok(views(v@)),
                Err(e) => Err(e),
            },
            parse_string_list(old(r).remaining()),
            final(r).remaining(),
        ),
{
    let n = match r.read_word() {
        Ok(n) => n,
        Err(e) => return Err(e),
    };
    r.read_string_items(n as usize)
}

fn read_number_constraint(r: &mut Reader, is_int: bool) -> (res: Result<Constraint, DecodeError>)
    ensures
        reads(view_result(res), parse_number_constraint(old(r).remaining(), is_int), final(r).remaining()),
{
    let ct = match r.read_word() {
        Ok(ct) => ct,
        Err(e) => return Err(e),
    };
    if ct == 0 {
        Ok(Constraint::Unconstrained)
    } else if ct == 1 {
        let is_null = match r.read_bool() {
            Ok(b) => b,
            Err(e) => return Err(e),
        };
        if is_null == Bool::TRUE {
            return Err(DecodeError::NullPtr);
        }
        let range = match Range::decode(r) {
            Ok(range) => range,
            Err(e) => return Err(e),
        };
        if is_int {
            Ok(Constraint::IntRange(range))
        } else {
            Ok(Constraint::FixedRange(range))
        }
    } else if ct == 2 {
        let words = match read_word_list(r) {
            Ok(words) => words,
            Err(e) => return Err(e),
        };
        if is_int {
            Ok(Constraint::IntList(WordList::from_words(words)))
        } else {
            Ok(Constraint::FixedList(WordList::from_words(words)))
        }
    } else {
        let value_type = if is_int {
            ValueType::INT
        } else {
            ValueType::FIXED
        };
        Err(DecodeError::InvalidConstraint(value_type, ConstraintType::from_word(Word(ct))))
    }
}

fn read_string_constraint(r: &mut Reader) -> (res: Result<Constraint, DecodeError>)
    ensures
        reads(view_result(res), parse_string_constraint(old(r).remaining()), final(r).remaining()),
{
    let ct = match r.read_word() {
        Ok(ct) => ct,
        Err(e) => return Err(e),
    };
    if ct == 0 {
        Ok(Constraint::Unconstrained)
    } else if ct == 3 {
        let strings = match read_string_list(r) {
            Ok(strings) => strings,
            Err(e) => return Err(e),
        };
        Ok(Constraint::StringList(StringList::from_strings(strings)))
    } else {
        Err(DecodeError::InvalidConstraint(ValueType::STRING, ConstraintType::from_word(Word(ct))))
    }
}

fn read_no_constraint(r: &mut Reader, value_type: ValueType) -> (res: Result<Constraint, DecodeError>)
    ensures
        reads(view_result(res), parse_no_constraint(old(r).remaining(), value_type), final(r).remaining()),
{
    let ct = match r.read_word() {
        Ok(ct) => ct,
        Err(e) => return Err(e),
    };
    if ct == 0 {
        Ok(Constraint::Unconstrained)
    } else {
        Err(DecodeError::InvalidConstraint(value_type, ConstraintType::from_word(Word(ct))))
    }
}

fn write_constraint(w: &mut Writer, c: &Constraint) -> (r: Result<(), EncodeError>)
    ensures
        r is Ok <==> constraint_fits(c@),
        r is Ok ==> final(w)@ == old(w)@ + constraint_wire(c@),
{
    match c {
        Constraint::Unconstrained => {
            w.write_word(0);
            Ok(())
        },
        Constraint::IntRange(range) => {
            w.write_word(1);
            w.write_bool(Bool::FALSE);
            let _ = range.encode(w);
            assert(w@ =~= old(w)@ + constraint_wire(c@));
            Ok(())
        },
        Constraint::FixedRange(range) => {
            w.write_word(1);
            w.write_bool(Bool::FALSE);
            let _ = range.encode(w);
            assert(w@ =~= old(w)@ + constraint_wire(c@));
            Ok(())
        },
        Constraint::IntList(list) => write_word_list(w, list),
        Constraint::FixedList(list) => write_word_list(w, list),
        Constraint::StringList(list) => {
            w.write_word(3);
            match w.write_count_plus_one(list.strings.len()) {
                Ok(()) => {},
                Err(e) => return Err(e),
            }
            match w.write_string_items(list.strings.as_slice()) {
                Ok(()) => {},
                Err(e) => return Err(e),
            }
            assert(w@ =~= old(w)@ + constraint_wire(c@));
            Ok(())
        },
    }
}

fn write_word_list(w: &mut Writer, list: &WordList) -> (r: Result<(), EncodeError>)
    ensures
        r is Ok <==> list@.len() + 1 <= u32::MAX,
        r is Ok ==> final(w)@ == old(w)@ + be32(2) + be32((list@.len() + 1) as u32) + be32(list@.len() as u32)
            + words_wire(list@),
{
    w.write_word(2);
    match w.write_count_plus_one(list.words.len()) {
        Ok(()) => {},
        Err(e) => return Err(e),
    }
    w.write_word(list.words.len() as u32);
    w.write_words(list.words.as_slice());
    assert(w@ =~= old(w)@ + be32(2) + be32((list@.len() + 1) as u32) + be32(list@.len() as u32) + words_wire(
        list@,
    ));
    Ok(())
}

impl Encode for OptionDescriptor {
    open spec fn spec_wire(&self) -> Option<Seq<u8>> {
        if option_descriptor_fits(self@) {
            Some(option_descriptor_wire(self@))
        } else {
            None
        }
    }

    #[verifier::spinoff_prover]
    fn encode(&self, w: &mut Writer) -> (r: Result<(), EncodeError>) {
        match w.write_string(&self.name) {
            Ok(()) => {},
            Err(e) => return Err(e),
        }
        match w.write_string(&self.title) {
            Ok(()) => {},
            Err(e) => return Err(e),
        }
        match w.write_string(&self.description) {
            Ok(()) => {},
            Err(e) => return Err(e),
        }
        w.write_word(self.value_type.as_word().0);
        w.write_word(self.unit.as_word().0);
        w.write_word(self.size);
        w.write_word(self.capabilities.as_word().0);
        match write_constraint(w, &self.constraint) {
            Ok(()) => {},
            Err(e) => return Err(e),
        }
        assert(w@ =~= old(w)@ + option_descriptor_wire(self@));
        Ok(())
    }
}

impl Encode for OptionDescriptorBuf {
    open spec fn spec_wire(&self) -> Option<Seq<u8>> {
        if option_descriptor_fits(self@) {
            Some(option_descriptor_wire(self@))
        } else {
            None
        }
    }

    fn encode(&self, w: &mut Writer) -> (r: Result<(), EncodeError>) {
        self.inner.encode(w)
    }
}

impl Decode for OptionDescriptorBuf {
    open spec fn spec_parse(d: Seq<u8>) -> Parsed<OptionDescriptorModel> {
        parse_option_descriptor(d)
    }

    #[verifier::spinoff_prover]
    fn decode(r: &mut Reader) -> (res: Result<OptionDescriptorBuf, DecodeError>) {
        let name = match r.read_string() {
            Ok(s) => s,
            Err(e) => return Err(e),
        };
        let title = match r.read_string() {
            Ok(s) => s,
            Err(e) => return Err(e),
        };
        let description = match r.read_string() {
            Ok(s) => s,
            Err(e) => return Err(e),
        };
        let value_type = match r.read_word() {
            Ok(v) => ValueType::from_word(Word(v)),
            Err(e) => return Err(e),
        };
        let unit = match r.read_word() {
            Ok(v) => Unit::from_word(Word(v)),
            Err(e) => return Err(e),
        };
        let size = match r.read_word() {
            Ok(v) => v,
            Err(e) => return Err(e),
        };
        let capabilities = match r.read_word() {
            Ok(v) => Capabilities::from_word(Word(v)),
            Err(e) => return Err(e),
        };
        let (unit, size, constraint) = match value_type {
            ValueType::BOOL => {
                let c = match read_no_constraint(r, value_type) {
                    Ok(c) => c,
                    Err(e) => return Err(e),
                };
                if size != 4 {
                    return Err(DecodeError::InvalidOptionType);
                }
                (Unit::NONE, 4u32, c)
            },
            ValueType::INT => {
                if size % 4 != 0 || size < 4 {
                    return Err(DecodeError::InvalidOptionType);
                }
                let c = match read_number_constraint(r, true) {
                    Ok(c) => c,
                    Err(e) => return Err(e),
                };
                (unit, size, c)
            },
            ValueType::FIXED => {
                if size % 4 != 0 || size < 4 {
                    return Err(DecodeError::InvalidOptionType);
                }
                let c = match read_number_constraint(r, false) {
                    Ok(c) => c,
                    Err(e) => return Err(e),
                };
                (unit, size, c)
            },
            ValueType::STRING => {
                let c = match read_string_constraint(r) {
                    Ok(c) => c,
                    Err(e) => return Err(e),
                };
                (unit, size, c)
            },
            ValueType::BUTTON => {
                let c = match read_no_constraint(r, value_type) {
                    Ok(c) => c,
                    Err(e) => return Err(e),
                };
                (Unit::NONE, 0u32, c)
            },
            ValueType::GROUP => {
                let c = match read_no_constraint(r, value_type) {
                    Ok(c) => c,
                    Err(e) => return Err(e),
                };
                return Ok(
                    OptionDescriptorBuf {
                        inner: OptionDescriptor {
                            name: CString::empty(),
                            title,
                            description,
                            value_type,
                            unit: Unit::NONE,
                            size: 0,
                            capabilities: Capabilities::none(),
                            constraint: c,
                        },
                    },
                );
            },
            ValueType::Unknown(_) => return Err(DecodeError::InvalidValueType(value_type)),
        };
        Ok(
            OptionDescriptorBuf {
                inner: OptionDescriptor {
                    name,
                    title,
                    description,
                    value_type,
                    unit,
                    size,
                    capabilities,
                    constraint,
                },
            },
        )
    }
}

/// What a decoder can give back for a descriptor: strings without NUL,
/// canonical codes, a constraint the value type allows, and the fields a
/// value type does not use left cleared (see `parse_option_body`). Every
/// builder makes such a descriptor, except an integer or fixed-point one
/// whose count is zero.
pub open spec fn option_descriptor_valid(m: OptionDescriptorModel) -> bool {
    &&& no_nul(m.name) && no_nul(m.title) && no_nul(m.description)
    &&& m.unit.wf()
    &&& constraint_allowed(m.value_type, m.constraint)
    &&& (m.constraint matches ConstraintModel::StringList(ss) ==> strings_ok(ss))
    &&& match m.value_type {
        ValueType::BOOL => m.unit == Unit::NONE && m.size == 4,
        ValueType::INT => m.size % 4 == 0 && m.size >= 4,
        ValueType::FIXED => m.size % 4 == 0 && m.size >= 4,
        ValueType::STRING => true,
        ValueType::BUTTON => m.unit == Unit::NONE && m.size == 0,
        ValueType::GROUP => m.name.len() == 0 && m.unit == Unit::NONE && m.size == 0 && m.capabilities == 0,
        ValueType::Unknown(_) => false,
    }
}

proof fn lemma_no_constraint_round_trip(value_type: ValueType, rest: Seq<u8>)
    ensures
        parse_no_constraint(constraint_wire(ConstraintModel::Unconstrained) + rest, value_type) == Ok::<
            (ConstraintModel, Seq<u8>),
            DecodeError,
        >((ConstraintModel::Unconstrained, rest)),
        parse_number_constraint(constraint_wire(ConstraintModel::Unconstrained) + rest, true) == Ok::<
            (ConstraintModel, Seq<u8>),
            DecodeError,
        >((ConstraintModel::Unconstrained, rest)),
        parse_number_constraint(constraint_wire(ConstraintModel::Unconstrained) + rest, false) == Ok::<
            (ConstraintModel, Seq<u8>),
            DecodeError,
        >((ConstraintModel::Unconstrained, rest)),
        parse_string_constraint(constraint_wire(ConstraintModel::Unconstrained) + rest) == Ok::<
            (ConstraintModel, Seq<u8>),
            DecodeError,
        >((ConstraintModel::Unconstrained, rest)),
{
    lemma_word_prefix(0, rest);
}

#[verifier::spinoff_prover]
proof fn lemma_range_constraint_round_trip(r: Range, is_int: bool, rest: Seq<u8>)
    ensures
        ({
            let c = if is_int {
                ConstraintModel::IntRange(r)
            } else {
                ConstraintModel::FixedRange(r)
            };
            parse_number_constraint(constraint_wire(c) + rest, is_int) == Ok::<(ConstraintModel, Seq<u8>), DecodeError>(
                (c, rest),
            )
        }),
{
    let c = if is_int {
        ConstraintModel::IntRange(r)
    } else {
        ConstraintModel::FixedRange(r)
    };
    assert(constraint_wire(c) + rest =~= be32(1) + (be32(0) + (range_wire(r) + rest)));
    lemma_word_prefix(1, be32(0) + (range_wire(r) + rest));
    lemma_word_prefix(0, range_wire(r) + rest);
    lemma_range_round_trip(r, rest);
}

#[verifier::spinoff_prover]
proof fn lemma_list_constraint_round_trip(ws: Seq<u32>, is_int: bool, rest: Seq<u8>)
    requires
        ws.len() + 1 <= u32::MAX,
    ensures
        ({
            let c = if is_int {
                ConstraintModel::IntList(ws)
            } else {
                ConstraintModel::FixedList(ws)
            };
            parse_number_constraint(constraint_wire(c) + rest, is_int) == Ok::<(ConstraintModel, Seq<u8>), DecodeError>(
                (c, rest),
            )
        }),
{
    let c = if is_int {
        ConstraintModel::IntList(ws)
    } else {
        ConstraintModel::FixedList(ws)
    };
    let n = ws.len() as u32;
    let s2 = words_wire(ws) + rest;
    let s1 = be32(n) + s2;
    assert(constraint_wire(c) + rest =~= be32(2) + (be32((n + 1) as u32) + s1));
    lemma_word_prefix(2, be32((n + 1) as u32) + s1);
    lemma_word_prefix((n + 1) as u32, s1);
    lemma_word_prefix(n, s2);
    lemma_words_round_trip(ws, rest);
    assert(parse_word_list(be32((n + 1) as u32) + s1) == Ok::<(Seq<u32>, Seq<u8>), DecodeError>((ws, rest)));
}

#[verifier::spinoff_prover]
proof fn lemma_string_constraint_round_trip(ss: Seq<Seq<u8>>, rest: Seq<u8>)
    requires
        ss.len() + 1 <= u32::MAX,
        strings_ok(ss),
    ensures
        parse_string_constraint(constraint_wire(ConstraintModel::StringList(ss)) + rest) == Ok::<
            (ConstraintModel, Seq<u8>),
            DecodeError,
        >((ConstraintModel::StringList(ss), rest)),
{
    let n = (ss.len() + 1) as u32;
    assert(constraint_wire(ConstraintModel::StringList(ss)) + rest =~= be32(3) + (be32(n) + (string_items_wire(ss)
        + rest)));
    lemma_word_prefix(3, be32(n) + (string_items_wire(ss) + rest));
    lemma_word_prefix(n, string_items_wire(ss) + rest);
    lemma_string_items_round_trip(ss, rest);
}

proof fn lemma_constraint_round_trip(value_type: ValueType, c: ConstraintModel, rest: Seq<u8>)
    requires
        constraint_fits(c),
        constraint_allowed(value_type, c),
        c matches ConstraintModel::StringList(ss) ==> strings_ok(ss),
    ensures
        value_type == ValueType::INT ==> parse_number_constraint(constraint_wire(c) + rest, true) == Ok::<
            (ConstraintModel, Seq<u8>),
            DecodeError,
        >((c, rest)),
        value_type == ValueType::FIXED ==> parse_number_constraint(constraint_wire(c) + rest, false) == Ok::<
            (ConstraintModel, Seq<u8>),
            DecodeError,
        >((c, rest)),
        value_type == ValueType::STRING ==> parse_string_constraint(constraint_wire(c) + rest) == Ok::<
            (ConstraintModel, Seq<u8>),
            DecodeError,
        >((c, rest)),
        c is Unconstrained ==> parse_no_constraint(constraint_wire(c) + rest, value_type) == Ok::<
            (ConstraintModel, Seq<u8>),
            DecodeError,
        >((c, rest)),
{
    match c {
        ConstraintModel::Unconstrained => lemma_no_constraint_round_trip(value_type, rest),
        ConstraintModel::IntRange(r) => lemma_range_constraint_round_trip(r, true, rest),
        ConstraintModel::FixedRange(r) => lemma_range_constraint_round_trip(r, false, rest),
        ConstraintModel::IntList(ws) => lemma_list_constraint_round_trip(ws, true, rest),
        ConstraintModel::FixedList(ws) => lemma_list_constraint_round_trip(ws, false, rest),
        ConstraintModel::StringList(ss) => lemma_string_constraint_round_trip(ss, rest),
    }
}

/// A decodable descriptor reads back as itself, whatever follows it.
#[verifier::spinoff_prover]
pub proof fn lemma_option_descriptor_round_trip(m: OptionDescriptorModel, rest: Seq<u8>)
    requires
        option_descriptor_fits(m),
        option_descriptor_valid(m),
    ensures
        parse_option_descriptor(option_descriptor_wire(m) + rest) == Ok::<(OptionDescriptorModel, Seq<u8>), DecodeError>(
            (m, rest),
        ),
{
    let s7 = constraint_wire(m.constraint) + rest;
    let s6 = be32(m.capabilities) + s7;
    let s5 = be32(m.size) + s6;
    let s4 = be32(m.unit.code()) + s5;
    let s3 = be32(m.value_type.code()) + s4;
    let s2 = string_wire(m.description) + s3;
    let s1 = string_wire(m.title) + s2;
    let d = string_wire(m.name) + s1;
    assert(option_descriptor_wire(m) + rest =~= d);
    lemma_string_round_trip(m.name, s1);
    lemma_string_round_trip(m.title, s2);
    lemma_string_round_trip(m.description, s3);
    lemma_word_prefix(m.value_type.code(), s4);
    lemma_word_prefix(m.unit.code(), s5);
    lemma_word_prefix(m.size, s6);
    lemma_word_prefix(m.capabilities, s7);
    lemma_constraint_round_trip(m.value_type, m.constraint, rest);
    assert(ValueType::from_code(m.value_type.code()) == m.value_type);
    if m.value_type == ValueType::GROUP {
        assert(m.name =~= Seq::<u8>::empty());
    }
}

impl RoundTrip for OptionDescriptorBuf {
    open spec fn valid(&self) -> bool {
        option_descriptor_valid(self@)
    }

    proof fn lemma_round_trip(&self, rest: Seq<u8>) {
        lemma_option_descriptor_round_trip(self@, rest);
    }
}

// Debug form

/// A constraint's pretty debug form at indent `k`: `None`, a `Range` of
/// integers or fixed-point numbers, or the list of values.
pub open spec fn constraint_pretty(c: ConstraintModel, k: nat) -> Seq<char> {
    match c {
        ConstraintModel::Unconstrained => "None"@,
        ConstraintModel::IntRange(r) => "Range {\n"@ + pretty_field(k, "min"@, int_debug(Int(bits_i32(r.min.0))))
            + pretty_field(k, "max"@, int_debug(Int(bits_i32(r.max.0)))) + pretty_field(
            k,
            "quant"@,
            int_debug(Int(bits_i32(r.quant.0))),
        ) + spaces(k) + "}"@,
        ConstraintModel::FixedRange(r) => "Range {\n"@ + pretty_field(k, "min"@, Fixed(bits_i32(r.min.0)).spec_debug())
            + pretty_field(k, "max"@, Fixed(bits_i32(r.max.0)).spec_debug()) + pretty_field(
            k,
            "quant"@,
            Fixed(bits_i32(r.quant.0)).spec_debug(),
        ) + spaces(k) + "}"@,
        ConstraintModel::IntList(ws) => pretty_list(k, ws.map_values(|w: u32| int_debug(Int(bits_i32(w))))),
        ConstraintModel::FixedList(ws) => pretty_list(k, ws.map_values(|w: u32| Fixed(bits_i32(w)).spec_debug())),
        ConstraintModel::StringList(ss) => pretty_list(k, ss.map_values(|s: Seq<u8>| quoted(s))),
    }
}

fn push_word_list(s: &mut String, k: usize, words: &[u32], fixed: bool)
    requires
        k + 4 <= usize::MAX,
    ensures
        final(s)@ == old(s)@ + pretty_list(
            k as nat,
            if fixed {
                words@.map_values(|w: u32| Fixed(bits_i32(w)).spec_debug())
            } else {
                words@.map_values(|w: u32| int_debug(Int(bits_i32(w))))
            },
        ),
{
    let ghost items = if fixed {
        words@.map_values(|w: u32| Fixed(bits_i32(w)).spec_debug())
    } else {
        words@.map_values(|w: u32| int_debug(Int(bits_i32(w))))
    };
    let mut body = String::new();
    let mut i: usize = 0;
    while i < words.len()
        invariant
            i <= words@.len(),
            k + 4 <= usize::MAX,
            items == (if fixed {
                words@.map_values(|w: u32| Fixed(bits_i32(w)).spec_debug())
            } else {
                words@.map_values(|w: u32| int_debug(Int(bits_i32(w))))
            }),
            body@ == crate::debug::list_lines(k as nat, items.take(i as int)),
        decreases words@.len() - i,
    {
        let item = if fixed {
            Fixed::from_word(Word(words[i])).to_debug_string()
        } else {
            Int::from_word(Word(words[i])).to_debug_string()
        };
        assert(item@ == items[i as int]);
        push_list_line(&mut body, k, item.as_str(), Ghost(items.take(i as int)));
        assert(items.take(i as int).push(items[i as int]) =~= items.take(i as int + 1));
        i = i + 1;
    }
    assert(items.take(i as int) =~= items);
    push_list(s, k, body.as_str(), words.len(), Ghost(items));
}

fn push_string_list(s: &mut String, k: usize, strings: &[CString])
    requires
        k + 4 <= usize::MAX,
    ensures
        final(s)@ == old(s)@ + pretty_list(k as nat, views(strings@).map_values(|x: Seq<u8>| quoted(x))),
{
    let ghost items = views(strings@).map_values(|x: Seq<u8>| quoted(x));
    let mut body = String::new();
    let mut i: usize = 0;
    while i < strings.len()
        invariant
            i <= strings@.len(),
            k + 4 <= usize::MAX,
            items == views(strings@).map_values(|x: Seq<u8>| quoted(x)),
            body@ == crate::debug::list_lines(k as nat, items.take(i as int)),
        decreases strings@.len() - i,
    {
        let mut item = String::new();
        push_quoted(&mut item, strings[i].as_bytes());
        assert(item@ == items[i as int]);
        push_list_line(&mut body, k, item.as_str(), Ghost(items.take(i as int)));
        assert(items.take(i as int).push(items[i as int]) =~= items.take(i as int + 1));
        i = i + 1;
    }
    assert(items.take(i as int) =~= items);
    push_list(s, k, body.as_str(), strings.len(), Ghost(items));
}

impl Constraint {
    pub fn push_pretty(&self, s: &mut String, k: usize)
        requires
            k + 4 <= usize::MAX,
        ensures
            final(s)@ == old(s)@ + constraint_pretty(self@, k as nat),
    {
        match self {
            Constraint::Unconstrained => s.append("None"),
            Constraint::IntRange(r) => {
                s.append("Range {\n");
                push_field(s, k, "min", Int::from_word(r.min).to_debug_string().as_str());
                push_field(s, k, "max", Int::from_word(r.max).to_debug_string().as_str());
                push_field(s, k, "quant", Int::from_word(r.quant).to_debug_string().as_str());
                push_close(s, k, "}");
            },
            Constraint::FixedRange(r) => {
                s.append("Range {\n");
                push_field(s, k, "min", Fixed::from_word(r.min).to_debug_string().as_str());
                push_field(s, k, "max", Fixed::from_word(r.max).to_debug_string().as_str());
                push_field(s, k, "quant", Fixed::from_word(r.quant).to_debug_string().as_str());
                push_close(s, k, "}");
            },
            Constraint::IntList(l) => push_word_list(s, k, l.words.as_slice(), false),
            Constraint::FixedList(l) => push_word_list(s, k, l.words.as_slice(), true),
            Constraint::StringList(l) => push_string_list(s, k, l.strings.as_slice()),
        }
        assert(final(s)@ =~= old(s)@ + constraint_pretty(self@, k as nat));
    }

    /// The pretty debug form: `None`, a `Range`, or the list of values.
    pub fn to_debug_string(&self) -> (r: String)
        ensures
            r@ == constraint_pretty(self@, 0),
    {
        let mut s = String::new();
        self.push_pretty(&mut s, 0);
        s
    }
}

/// A descriptor's pretty debug form at indent `k`, one field to a line.
pub open spec fn option_descriptor_pretty(m: OptionDescriptorModel, k: nat) -> Seq<char> {
    "OptionDescriptor {\n"@ + pretty_field(k, "name"@, quoted(m.name)) + pretty_field(k, "title"@, quoted(m.title))
        + pretty_field(k, "description"@, quoted(m.description)) + pretty_field(
        k,
        "value_type"@,
        debug_enum(m.value_type.spec_name(), "SANE_Value_Type"@, m.value_type.code()),
    ) + pretty_field(k, "unit"@, debug_enum(m.unit.spec_name(), "SANE_Unit"@, m.unit.code())) + pretty_field(
        k,
        "size"@,
        dec_digits(m.size as nat),
    ) + pretty_field(k, "capabilities"@, Capabilities::spec_pretty_of(m.capabilities, k + 4)) + pretty_field(
        k,
        "constraint"@,
        constraint_pretty(m.constraint, k + 4),
    ) + spaces(k) + "}"@
}

fn push_quoted_field(s: &mut String, k: usize, name: &str, value: &CString)
    requires
        k + 4 <= usize::MAX,
    ensures
        final(s)@ == old(s)@ + pretty_field(k as nat, name@, quoted(value@)),
{
    let mut v = String::new();
    push_quoted(&mut v, value.as_bytes());
    push_field(s, k, name, v.as_str());
}

impl OptionDescriptor {
    #[verifier::spinoff_prover]
    #[verifier::rlimit(50)]
    pub fn push_pretty(&self, s: &mut String, k: usize)
        requires
            k + 8 <= usize::MAX,
        ensures
            final(s)@ == old(s)@ + option_descriptor_pretty(self@, k as nat),
    {
        s.append("OptionDescriptor {\n");
        push_quoted_field(s, k, "name", &self.name);
        push_quoted_field(s, k, "title", &self.title);
        push_quoted_field(s, k, "description", &self.description);
        push_field(s, k, "value_type", self.value_type.to_debug_string().as_str());
        push_field(s, k, "unit", self.unit.to_debug_string().as_str());
        let mut v = String::new();
        push_dec(&mut v, self.size as u64);
        push_field(s, k, "size", v.as_str());
        let mut v = String::new();
        self.capabilities.push_pretty(&mut v, k + 4);
        push_field(s, k, "capabilities", v.as_str());
        let mut v = String::new();
        self.constraint.push_pretty(&mut v, k + 4);
        push_field(s, k, "constraint", v.as_str());
        push_close(s, k, "}");
        assert(final(s)@ =~= old(s)@ + option_descriptor_pretty(self@, k as nat));
    }

    /// `OptionDescriptor { .. }`, one field to a line.
    pub fn to_debug_string(&self) -> (r: String)
        ensures
            r@ == option_descriptor_pretty(self@, 0),
    {
        let mut s = String::new();
        self.push_pretty(&mut s, 0);
        s
    }
}

impl OptionDescriptorBuf {
    /// The held descriptor's debug form.
    pub fn to_debug_string(&self) -> (r: String)
        ensures
            r@ == option_descriptor_pretty(self@, 0),
    {
        self.inner.to_debug_string()
    }
}

} // verus!
