//! Conversions from native values into values of the interpreter.
//!
//! Only the interpreter can make most of its values. A conversion therefore
//! gives the value where it is an immediate that this crate can make itself,
//! and else names the call that makes it.

use vstd::prelude::*;
use vstd::string::*;
use vstd::utf8::encode_utf8;
use crate::error::RubyConversionError;
use crate::layout::{RUBY_QFALSE, RUBY_QNIL, RUBY_QTRUE};
use crate::convert::TryFromRuby;
use crate::string::{lemma_text_round_trip, StringData};
use crate::value::{HostData, RubyValue, ValueKind};

verus! {

/// How a native value reaches the interpreter.
#[derive(Debug)]
pub enum Outbound {
    /// The value itself; no call is needed.
    Ready(RubyValue),
    /// The interpreter boxes a signed integer of the machine's word size.
    Int(isize),
    /// The interpreter boxes an unsigned integer of the machine's word size.
    Uint(usize),
    /// The interpreter boxes a signed integer of 64 bits.
    LongLong(i64),
    /// The interpreter boxes an unsigned integer of 64 bits.
    UnsignedLongLong(u64),
    /// The interpreter makes a string in UTF-8 that holds this text.
    Utf8String(String),
    /// The interpreter makes a runtime error with this message and raises
    /// it. Control does not come back from that; should it ever, `nil` is
    /// what the native function returns.
    Raise(String),
}

/// A native type whose values convert into values of the interpreter. The
/// conversion never fails.
pub trait IntoRuby: Sized {
    /// The ways in which the value may reach the interpreter.
    spec fn encodes(self, out: Outbound) -> bool;

    fn into_ruby(self) -> (out: Outbound)
        ensures
            self.encodes(out),
    ;
}

impl From<bool> for RubyValue {
    fn from(value: bool) -> (converted: RubyValue) {
        let word: u64 = if value {
            RUBY_QTRUE
        } else {
            RUBY_QFALSE
        };
        RubyValue { word, host: HostData::Unread }
    }
}

impl vstd::std_specs::convert::FromSpecImpl<bool> for RubyValue {
    open spec fn obeys_from_spec() -> bool {
        true
    }

    open spec fn from_spec(value: bool) -> RubyValue {
        RubyValue::boolean(value)
    }
}

impl RubyValue {
    /// `true` is the `true` singleton and `false` the `false` singleton.
    pub open spec fn boolean(value: bool) -> RubyValue {
        RubyValue {
            word: if value {
                RUBY_QTRUE
            } else {
                RUBY_QFALSE
            },
            host: HostData::Unread,
        }
    }

    /// The `nil` singleton.
    pub fn nil() -> (value: RubyValue)
        ensures
            value.word == RUBY_QNIL,
            value.host is Unread,
    {
        RubyValue { word: RUBY_QNIL, host: HostData::Unread }
    }
}

/// A boolean converts into a value of kind `True` where it is `true`, and
/// into one of kind `False` where it is `false`; converted back, it is the
/// boolean it was.
pub proof fn lemma_boolean_round_trip(b: bool)
    ensures
        RubyValue::boolean(b).kind() == ValueKind::True <==> b,
        RubyValue::boolean(b).kind() == ValueKind::False <==> !b,
        <bool as TryFromRuby>::accepts(&RubyValue::boolean(b)),
        forall|back: bool| <bool as TryFromRuby>::decodes(&RubyValue::boolean(b), back) ==> back == b,
{
}

/// A text converts into the request for a string in UTF-8 with that text,
/// and the string that the interpreter makes of it, which holds the bytes of
/// the text under the encoding UTF-8, gives the text back, whether its bytes
/// lie inside the object or outside.
pub proof fn lemma_text_round_trip_through_string(text: &str, out: Outbound, made: StringData)
    requires
        text.encodes(out),
        out matches Outbound::Utf8String(wanted) && made.bytes@ == encode_utf8(wanted@),
        made.encoding == made.encodings.utf8,
    ensures
        made.text() == Some(text@),
{
    lemma_text_round_trip(text@, made);
}

impl IntoRuby for bool {
    open spec fn encodes(self, out: Outbound) -> bool {
        out == Outbound::Ready(RubyValue::boolean(self))
    }

    fn into_ruby(self) -> (out: Outbound) {
        Outbound::Ready(RubyValue::from(self))
    }
}

impl IntoRuby for u64 {
    open spec fn encodes(self, out: Outbound) -> bool {
        out == Outbound::UnsignedLongLong(self)
    }

    fn into_ruby(self) -> (out: Outbound) {
        Outbound::UnsignedLongLong(self)
    }
}

impl IntoRuby for i64 {
    open spec fn encodes(self, out: Outbound) -> bool {
        out == Outbound::LongLong(self)
    }

    fn into_ruby(self) -> (out: Outbound) {
        Outbound::LongLong(self)
    }
}

impl IntoRuby for isize {
    open spec fn encodes(self, out: Outbound) -> bool {
        out == Outbound::Int(self)
    }

    fn into_ruby(self) -> (out: Outbound) {
        Outbound::Int(self)
    }
}

impl IntoRuby for usize {
    open spec fn encodes(self, out: Outbound) -> bool {
        out == Outbound::Uint(self)
    }

    fn into_ruby(self) -> (out: Outbound) {
        Outbound::Uint(self)
    }
}

impl IntoRuby for u32 {
    open spec fn encodes(self, out: Outbound) -> bool {
        out == Outbound::Uint(self as usize)
    }

    fn into_ruby(self) -> (out: Outbound) {
        Outbound::Uint(self as usize)
    }
}

impl IntoRuby for i32 {
    open spec fn encodes(self, out: Outbound) -> bool {
        out == Outbound::Int(self as isize)
    }

    fn into_ruby(self) -> (out: Outbound) {
        Outbound::Int(self as isize)
    }
}

impl<'a> IntoRuby for &'a str {
    open spec fn encodes(self, out: Outbound) -> bool {
        out matches Outbound::Utf8String(text) && text@ == self@
    }

    fn into_ruby(self) -> (out: Outbound) {
        Outbound::Utf8String(self.to_owned())
    }
}

impl IntoRuby for String {
    open spec fn encodes(self, out: Outbound) -> bool {
        out matches Outbound::Utf8String(text) && text@ == self@
    }

    fn into_ruby(self) -> (out: Outbound) {
        Outbound::Utf8String(self)
    }
}

/// `None` becomes `nil`; `Some` converts as what it holds.
impl<T: IntoRuby> IntoRuby for Option<T> {
    open spec fn encodes(self, out: Outbound) -> bool {
        match self {
            Some(inner) => inner.encodes(out),
            None => out == Outbound::Ready(RubyValue { word: RUBY_QNIL, host: HostData::Unread }),
        }
    }

    fn into_ruby(self) -> (out: Outbound) {
        match self {
            Some(inner) => inner.into_ruby(),
            None => Outbound::Ready(RubyValue::nil()),
        }
    }
}

/// `Ok` converts as what it holds; `Err` becomes an error of the interpreter
/// that carries the text of the native error.
impl<T: IntoRuby> IntoRuby for Result<T, RubyConversionError> {
    open spec fn encodes(self, out: Outbound) -> bool {
        match self {
            Ok(inner) => inner.encodes(out),
            Err(e) => out matches Outbound::Raise(message) && message@ == e.message(),
        }
    }

    fn into_ruby(self) -> (out: Outbound) {
        match self {
            Ok(inner) => inner.into_ruby(),
            Err(e) => Outbound::Raise(e.to_string()),
        }
    }
}

/// `Ok` converts as what it holds; `Err` becomes an error of the interpreter
/// that carries the text of the native error.
impl<T: IntoRuby, E: std::fmt::Display> IntoRuby for Result<T, E> {
    open spec fn encodes(self, out: Outbound) -> bool {
        match self {
            Ok(inner) => inner.encodes(out),
            Err(e) => out matches Outbound::Raise(message) && to_string_from_display_ensures::<E>(
                &e,
                message,
            ),
        }
    }

    fn into_ruby(self) -> (out: Outbound) {
        match self {
            Ok(inner) => inner.into_ruby(),
            Err(e) => Outbound::Raise(e.to_string()),
        }
    }
}

} // verus!
