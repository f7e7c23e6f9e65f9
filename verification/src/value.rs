//! The tagged value and its classifier.

use vstd::prelude::*;
use crate::layout::{
    RUBY_FIXNUM_FLAG, RUBY_IMMEDIATE_MASK, RUBY_QFALSE, RUBY_QNIL, RUBY_QTRUE, RUBY_QUNDEF,
    RUBY_SPECIAL_SHIFT, RUBY_SYMBOL_FLAG, RUBY_T_FLOAT, RUBY_T_MASK, RUBY_T_STRING,
};
use crate::string::StringData;

verus! {

/// The logical kind of a tagged value.
#[derive(Clone, Copy, Debug, PartialEq, Eq, Structural)]
pub enum ValueKind {
    True,
    False,
    Nil,
    Undefined,
    /// A small integer held in the word itself.
    Fixnum,
    /// An immediate symbol.
    Symbol,
    /// A float, immediate or on the heap.
    Float,
    /// A string object.
    String,
    /// Any other heap object.
    Other,
}

/// What was read from the interpreter about one value, beyond its word.
#[derive(Debug)]
pub enum HostData {
    /// Nothing was read.
    Unread,
    /// The flags word of the header of the object that the word points to.
    Object { flags: u64 },
    /// The string object that the word points to.
    String(StringData),
    /// The name that the interpreter's symbol table gives for the symbol:
    /// the bytes at the name's address, read up to any point at or behind
    /// the terminating zero.
    Symbol { name: Vec<u8> },
}

/// One value of the interpreter: its word, and what was read about it.
///
/// The word alone decides whether the value is an immediate. Only for a heap
/// pointer does anything read from the interpreter's memory count.
#[derive(Debug)]
pub struct RubyValue {
    pub word: u64,
    pub host: HostData,
}

/// The kind that a heap object's flags word gives it.
pub open spec fn heap_kind(flags: u64) -> ValueKind {
    if flags % 32 == RUBY_T_STRING {
        ValueKind::String
    } else if flags % 32 == RUBY_T_FLOAT {
        ValueKind::Float
    } else {
        ValueKind::Other
    }
}

/// The integer that a small-integer word stands for: the word, read as a
/// signed number, halved and rounded down.
pub open spec fn fixnum_value(word: u64) -> int {
    if word < 0x8000_0000_0000_0000 {
        word as int / 2
    } else {
        (word as int - 0x1_0000_0000_0000_0000) / 2
    }
}

impl RubyValue {
    /// The header flags that were read for this value, if any.
    pub open spec fn header(&self) -> Option<u64> {
        match self.host {
            HostData::Object { flags } => Some(flags),
            HostData::String(data) => Some(data.header.flags),
            _ => None,
        }
    }

    pub open spec fn spec_is_true(&self) -> bool {
        self.word == RUBY_QTRUE
    }

    pub open spec fn spec_is_false(&self) -> bool {
        self.word == RUBY_QFALSE
    }

    pub open spec fn spec_is_nil(&self) -> bool {
        self.word == RUBY_QNIL
    }

    pub open spec fn spec_is_undef(&self) -> bool {
        self.word == RUBY_QUNDEF
    }

    /// The low byte of the word is the symbol tag.
    pub open spec fn spec_is_symbol(&self) -> bool {
        self.word % 256 == RUBY_SYMBOL_FLAG
    }

    /// The word is odd.
    pub open spec fn spec_is_fixnum(&self) -> bool {
        self.word % 2 == 1
    }

    /// One of the three lowest bits of the word is set.
    pub open spec fn spec_is_immediate(&self) -> bool {
        self.word % 8 != 0
    }

    /// The word is neither `false` nor `nil`.
    pub open spec fn spec_truthy(&self) -> bool {
        self.word != RUBY_QFALSE && self.word != RUBY_QNIL
    }

    /// The word is no heap pointer.
    pub open spec fn spec_is_special_const(&self) -> bool {
        self.spec_is_immediate() || !self.spec_truthy()
    }

    /// The kind of the value. The tests are made in this order: the four
    /// singletons, the small integer, the symbol, any other immediate (an
    /// immediate float), and only then the header of the heap object.
    pub open spec fn kind(&self) -> ValueKind {
        if self.word == RUBY_QTRUE {
            ValueKind::True
        } else if self.word == RUBY_QFALSE {
            ValueKind::False
        } else if self.word == RUBY_QNIL {
            ValueKind::Nil
        } else if self.word == RUBY_QUNDEF {
            ValueKind::Undefined
        } else if self.spec_is_fixnum() {
            ValueKind::Fixnum
        } else if self.spec_is_symbol() {
            ValueKind::Symbol
        } else if self.spec_is_immediate() {
            ValueKind::Float
        } else {
            match self.header() {
                Some(flags) => heap_kind(flags),
                None => ValueKind::Other,
            }
        }
    }

    /// The type field of the heap object's header: present where the value
    /// is a heap pointer, its header was read, and the field is below the
    /// largest value that the mask lets through.
    pub open spec fn spec_builtin_type(&self) -> Option<u64> {
        if self.spec_is_special_const() {
            None
        } else {
            match self.header() {
                Some(flags) => if flags % 32 < RUBY_T_MASK {
                    Some((flags % 32) as u64)
                } else {
                    None
                },
                None => None,
            }
        }
    }

    /// What was read fits the kind: a string comes with its object, which
    /// is its header and as many bytes as the header gives, and a symbol
    /// comes with its name. A value of any other kind needs nothing more.
    pub open spec fn spec_is_fully_read(&self) -> bool {
        &&& self.kind() == ValueKind::String ==> self.host is String
            && self.host->String_0.consistent()
        &&& self.kind() == ValueKind::Symbol ==> self.host is Symbol
    }

    pub open spec fn spec_is_numeric(&self) -> bool {
        self.kind() == ValueKind::Float || self.kind() == ValueKind::Fixnum
    }

    /// A value that is its word and nothing else.
    pub fn new(word: u64) -> (value: RubyValue)
        ensures
            value.word == word,
            value.host is Unread,
    {
        RubyValue { word, host: HostData::Unread }
    }

    #[verifier::when_used_as_spec(spec_is_true)]
    pub fn is_true(&self) -> (b: bool)
        ensures
            b == self.spec_is_true(),
    {
        self.word == RUBY_QTRUE
    }

    #[verifier::when_used_as_spec(spec_is_false)]
    pub fn is_false(&self) -> (b: bool)
        ensures
            b == self.spec_is_false(),
    {
        self.word == RUBY_QFALSE
    }

    #[verifier::when_used_as_spec(spec_is_nil)]
    pub fn is_nil(&self) -> (b: bool)
        ensures
            b == self.spec_is_nil(),
    {
        self.word == RUBY_QNIL
    }

    #[verifier::when_used_as_spec(spec_is_undef)]
    pub fn is_undef(&self) -> (b: bool)
        ensures
            b == self.spec_is_undef(),
    {
        self.word == RUBY_QUNDEF
    }

    #[verifier::when_used_as_spec(spec_is_symbol)]
    pub fn is_symbol(&self) -> (b: bool)
        ensures
            b == self.spec_is_symbol(),
    {
        let word: u64 = self.word;
        assert(word & !(0xffff_ffff_ffff_ffffu64 << 8) == word % 256) by (bit_vector);
        (word & !(u64::MAX << RUBY_SPECIAL_SHIFT)) == RUBY_SYMBOL_FLAG
    }

    #[verifier::when_used_as_spec(spec_is_fixnum)]
    pub fn is_fixnum(&self) -> (b: bool)
        ensures
            b == self.spec_is_fixnum(),
    {
        let word: u64 = self.word;
        assert(word & 0x01 == word % 2) by (bit_vector);
        (word & RUBY_FIXNUM_FLAG) != 0
    }

    #[verifier::when_used_as_spec(spec_is_immediate)]
    pub fn is_immediate(&self) -> (b: bool)
        ensures
            b == self.spec_is_immediate(),
    {
        let word: u64 = self.word;
        assert(word & 0x07 == word % 8) by (bit_vector);
        (word & RUBY_IMMEDIATE_MASK) != 0
    }

    #[verifier::when_used_as_spec(spec_truthy)]
    pub fn truthy(&self) -> (b: bool)
        ensures
            b == self.spec_truthy(),
    {
        let word: u64 = self.word;
        assert((word & !0x08u64 != 0) == (word != 0 && word != 0x08)) by (bit_vector);
        (word & !RUBY_QNIL) != 0
    }

    #[verifier::when_used_as_spec(spec_is_special_const)]
    pub fn is_special_const(&self) -> (b: bool)
        ensures
            b == self.spec_is_special_const(),
    {
        self.is_immediate() || !self.truthy()
    }

    #[verifier::when_used_as_spec(spec_builtin_type)]
    pub fn builtin_type(&self) -> (tag: Option<u64>)
        ensures
            tag == self.spec_builtin_type(),
    {
        if self.is_special_const() {
            return None;
        }
        let flags: u64 = match &self.host {
            HostData::Object { flags } => *flags,
            HostData::String(data) => data.header.flags,
            _ => {
                return None;
            },
        };
        assert(flags & 0x1f == flags % 32) by (bit_vector);
        let masked: u64 = flags & RUBY_T_MASK;
        if masked < 0x1f {
            Some(masked)
        } else {
            None
        }
    }

    /// Classifies the value.
    pub fn infer_type(&self) -> (kind: ValueKind)
        ensures
            kind == self.kind(),
    {
        if !self.is_special_const() {
            match self.builtin_type() {
                Some(tag) => {
                    if tag == RUBY_T_STRING {
                        ValueKind::String
                    } else if tag == RUBY_T_FLOAT {
                        ValueKind::Float
                    } else {
                        ValueKind::Other
                    }
                },
                None => ValueKind::Other,
            }
        } else if self.is_false() {
            ValueKind::False
        } else if self.is_nil() {
            ValueKind::Nil
        } else if self.is_true() {
            ValueKind::True
        } else if self.is_undef() {
            ValueKind::Undefined
        } else if self.is_fixnum() {
            ValueKind::Fixnum
        } else if self.is_symbol() {
            ValueKind::Symbol
        } else {
            ValueKind::Float
        }
    }

    /// Whether all was read that a conversion of a value of this kind asks
    /// for.
    #[verifier::when_used_as_spec(spec_is_fully_read)]
    pub fn is_fully_read(&self) -> (b: bool)
        ensures
            b == self.spec_is_fully_read(),
    {
        match self.infer_type() {
            ValueKind::String => match &self.host {
                HostData::String(data) => data.bytes.len() == data.header.byte_length(),
                _ => false,
            },
            ValueKind::Symbol => match &self.host {
                HostData::Symbol { .. } => true,
                _ => false,
            },
            _ => true,
        }
    }

    #[verifier::when_used_as_spec(spec_is_numeric)]
    pub fn is_numeric(&self) -> (b: bool)
        ensures
            b == self.spec_is_numeric(),
    {
        match self.infer_type() {
            ValueKind::Float | ValueKind::Fixnum => true,
            _ => false,
        }
    }
}

/// The kind of an immediate lies in its word alone: whatever was read from
/// the interpreter's memory does not count.
pub proof fn lemma_kind_of_immediate(a: RubyValue, b: RubyValue)
    requires
        a.word == b.word,
        a.spec_is_special_const(),
    ensures
        a.kind() == b.kind(),
        a.kind() != ValueKind::String,
        a.kind() != ValueKind::Other,
{
}

/// The kind of a value lies in its word and in the flags word of its
/// header: two values that agree in both are of one kind, so that a value
/// which stays as it is keeps its kind however often it is classified.
pub proof fn lemma_kind_is_stable(a: RubyValue, b: RubyValue)
    requires
        a.word == b.word,
        a.header() == b.header(),
    ensures
        a.kind() == b.kind(),
{
}

/// A heap pointer is classified by the type field of its header, and by
/// nothing else: a type field that is no string's and no float's, or lies
/// beyond the known types, gives `Other`.
pub proof fn lemma_kind_of_object(value: RubyValue, flags: u64)
    requires
        !value.spec_is_special_const(),
        value.header() == Some(flags),
    ensures
        value.kind() == heap_kind(flags),
        value.kind() == ValueKind::String <==> value.spec_builtin_type() == Some(RUBY_T_STRING),
        value.kind() == ValueKind::Float <==> value.spec_builtin_type() == Some(RUBY_T_FLOAT),
        value.spec_builtin_type() is None ==> value.kind() == ValueKind::Other,
{
}

} // verus!
