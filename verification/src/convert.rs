//! Conversions from values of the interpreter into native values.

use vstd::prelude::*;
use vstd::string::*;
use crate::error::RubyConversionError;
use crate::string::{RubyString, RubyStringLike, RubySymbol};
use crate::value::{fixnum_value, HostData, RubyValue, ValueKind};

verus! {

/// A native type that a value of the interpreter may convert into.
pub trait TryFromRuby<'a>: Sized {
    /// The values that convert.
    spec fn accepts(value: &'a RubyValue) -> bool;

    /// What a value that converts may convert into.
    spec fn decodes(value: &'a RubyValue, native: Self) -> bool;

    /// The type that the error names where the value does not convert.
    spec fn refused_as(value: &'a RubyValue) -> Seq<char>;

    /// Converts the value, or says which type it could not become. The error
    /// never says how the refused value reads.
    fn try_from(value: &'a RubyValue) -> (native: Result<Self, RubyConversionError>)
        ensures
            match native {
                Ok(n) => Self::accepts(value) && Self::decodes(value, n),
                Err(e) => {
                    &&& !Self::accepts(value)
                    &&& e.value@ == Seq::<char>::empty()
                    &&& e.into_type@ == Self::refused_as(value)
                },
            },
    ;
}

/// The integer of a small-integer word: an arithmetic shift by one bit.
fn fixnum_to_i64(word: u64) -> (n: i64)
    ensures
        n == fixnum_value(word),
{
    assert(word < 0x8000_0000_0000_0000u64 ==> ((word as i64) >> 1) == (word / 2) as i64)
        by (bit_vector);
    assert(word >= 0x8000_0000_0000_0000u64 ==> ((word as i64) >> 1) == ((word / 2) as i64)
        - 0x8000_0000_0000_0000) by (bit_vector);
    (word as i64) >> 1
}

/// Decides whether the value converts into a 64-bit float: a float or a
/// small integer does, and then the word comes back, for the interpreter to
/// unbox; nothing else does.
pub fn try_float(value: &RubyValue) -> (word: Result<u64, RubyConversionError>)
    ensures
        match word {
            Ok(w) => value.spec_is_numeric() && w == value.word,
            Err(e) => {
                &&& !value.spec_is_numeric()
                &&& e.value@ == Seq::<char>::empty()
                &&& e.into_type@ == "64 bit float"@
            },
        },
{
    if !value.is_numeric() {
        Err(RubyConversionError::into_type("64 bit float"))
    } else {
        Ok(value.word)
    }
}

/// Only `true` and `false` convert. A value that merely counts as true does
/// not.
impl<'a> TryFromRuby<'a> for bool {
    open spec fn accepts(value: &'a RubyValue) -> bool {
        value.kind() == ValueKind::True || value.kind() == ValueKind::False
    }

    open spec fn decodes(value: &'a RubyValue, native: bool) -> bool {
        native == (value.kind() == ValueKind::True)
    }

    open spec fn refused_as(value: &'a RubyValue) -> Seq<char> {
        "bool"@
    }

    fn try_from(value: &'a RubyValue) -> (native: Result<bool, RubyConversionError>) {
        match value.infer_type() {
            ValueKind::True => Ok(true),
            ValueKind::False => Ok(false),
            _ => Err(RubyConversionError::into_type("bool")),
        }
    }
}

/// Only a small integer converts: an integer that the interpreter keeps on
/// the heap is refused, not cut down.
impl<'a> TryFromRuby<'a> for i64 {
    open spec fn accepts(value: &'a RubyValue) -> bool {
        value.kind() == ValueKind::Fixnum
    }

    open spec fn decodes(value: &'a RubyValue, native: i64) -> bool {
        native == fixnum_value(value.word)
    }

    open spec fn refused_as(value: &'a RubyValue) -> Seq<char> {
        "64-bit integer"@
    }

    fn try_from(value: &'a RubyValue) -> (native: Result<i64, RubyConversionError>) {
        if value.is_fixnum() {
            Ok(fixnum_to_i64(value.word))
        } else {
            Err(RubyConversionError::into_type("64-bit integer"))
        }
    }
}

/// `nil` converts into `None`; any other value converts as `T` does.
impl<'a, T: TryFromRuby<'a>> TryFromRuby<'a> for Option<T> {
    open spec fn accepts(value: &'a RubyValue) -> bool {
        value.kind() == ValueKind::Nil || T::accepts(value)
    }

    open spec fn decodes(value: &'a RubyValue, native: Option<T>) -> bool {
        if value.kind() == ValueKind::Nil {
            native is None
        } else {
            native matches Some(inner) && T::decodes(value, inner)
        }
    }

    open spec fn refused_as(value: &'a RubyValue) -> Seq<char> {
        T::refused_as(value)
    }

    fn try_from(value: &'a RubyValue) -> (native: Result<Option<T>, RubyConversionError>) {
        if value.is_nil() {
            Ok(None)
        } else {
            match T::try_from(value) {
                Ok(inner) => Ok(Some(inner)),
                Err(e) => Err(e),
            }
        }
    }
}

/// Only a string converts, and only where its object was read: the header
/// and, at the place that the header gives, as many bytes as it gives. Of a
/// value that was read in full, every string converts.
impl<'a> TryFromRuby<'a> for RubyString<'a> {
    open spec fn accepts(value: &'a RubyValue) -> bool {
        &&& value.kind() == ValueKind::String
        &&& value.host is String
        &&& value.host->String_0.consistent()
    }

    open spec fn decodes(value: &'a RubyValue, native: RubyString<'a>) -> bool {
        native.address == value.word && *native.data == value.host->String_0
    }

    open spec fn refused_as(value: &'a RubyValue) -> Seq<char> {
        "string"@
    }

    fn try_from(value: &'a RubyValue) -> (native: Result<RubyString<'a>, RubyConversionError>) {
        match value.infer_type() {
            ValueKind::String => match &value.host {
                HostData::String(data) => {
                    if data.bytes.len() == data.header.byte_length() {
                        Ok(RubyString { address: value.word, data })
                    } else {
                        Err(RubyConversionError::into_type("string"))
                    }
                },
                _ => Err(RubyConversionError::into_type("string")),
            },
            _ => Err(RubyConversionError::into_type("string")),
        }
    }
}

/// Only a symbol whose name was read converts. Of a value that was read in
/// full, every symbol converts.
impl<'a> TryFromRuby<'a> for RubySymbol<'a> {
    open spec fn accepts(value: &'a RubyValue) -> bool {
        value.kind() == ValueKind::Symbol && value.host is Symbol
    }

    open spec fn decodes(value: &'a RubyValue, native: RubySymbol<'a>) -> bool {
        *native.name == value.host->Symbol_name
    }

    open spec fn refused_as(value: &'a RubyValue) -> Seq<char> {
        "string"@
    }

    fn try_from(value: &'a RubyValue) -> (native: Result<RubySymbol<'a>, RubyConversionError>) {
        match value.infer_type() {
            ValueKind::Symbol => match &value.host {
                HostData::Symbol { name } => Ok(RubySymbol { name }),
                _ => Err(RubyConversionError::into_type("string")),
            },
            _ => Err(RubyConversionError::into_type("string")),
        }
    }
}

/// Only a string that has a text converts: its encoding is UTF-8 or
/// US-ASCII, and its bytes are valid UTF-8.
impl<'a> TryFromRuby<'a> for &'a str {
    open spec fn accepts(value: &'a RubyValue) -> bool {
        RubyString::accepts(value) && value.host->String_0.text() is Some
    }

    open spec fn decodes(value: &'a RubyValue, native: &'a str) -> bool {
        value.host->String_0.text() == Some(native@)
    }

    open spec fn refused_as(value: &'a RubyValue) -> Seq<char> {
        if RubyString::accepts(value) {
            "utf8 string"@
        } else {
            "string"@
        }
    }

    fn try_from(value: &'a RubyValue) -> (native: Result<&'a str, RubyConversionError>) {
        let string: Result<RubyString<'a>, RubyConversionError> = TryFromRuby::try_from(value);
        match string {
            Ok(string) => string.try_str(),
            Err(e) => Err(e),
        }
    }
}

/// Only a string converts, into its bytes, whatever its encoding.
impl<'a> TryFromRuby<'a> for &'a [u8] {
    open spec fn accepts(value: &'a RubyValue) -> bool {
        RubyString::accepts(value)
    }

    open spec fn decodes(value: &'a RubyValue, native: &'a [u8]) -> bool {
        native@ == value.host->String_0.bytes@
    }

    open spec fn refused_as(value: &'a RubyValue) -> Seq<char> {
        "string"@
    }

    fn try_from(value: &'a RubyValue) -> (native: Result<&'a [u8], RubyConversionError>) {
        let string: Result<RubyString<'a>, RubyConversionError> = TryFromRuby::try_from(value);
        match string {
            Ok(string) => Ok(string.bytes()),
            Err(e) => Err(e),
        }
    }
}

/// A string converts as a string, a symbol as a symbol, and nothing else
/// converts.
impl<'a> TryFromRuby<'a> for RubyStringLike<'a> {
    open spec fn accepts(value: &'a RubyValue) -> bool {
        RubyString::accepts(value) || RubySymbol::accepts(value)
    }

    open spec fn decodes(value: &'a RubyValue, native: RubyStringLike<'a>) -> bool {
        match native {
            RubyStringLike::String(string) => RubyString::accepts(value) && RubyString::decodes(
                value,
                string,
            ),
            RubyStringLike::Symbol(symbol) => RubySymbol::accepts(value) && RubySymbol::decodes(
                value,
                symbol,
            ),
        }
    }

    open spec fn refused_as(value: &'a RubyValue) -> Seq<char> {
        "string"@
    }

    fn try_from(value: &'a RubyValue) -> (native: Result<
        RubyStringLike<'a>,
        RubyConversionError,
    >) {
        match value.infer_type() {
            ValueKind::Symbol => {
                let symbol: Result<RubySymbol<'a>, RubyConversionError> = TryFromRuby::try_from(
                    value,
                );
                match symbol {
                    Ok(symbol) => Ok(RubyStringLike::Symbol(symbol)),
                    Err(e) => Err(e),
                }
            },
            ValueKind::String => {
                let string: Result<RubyString<'a>, RubyConversionError> = TryFromRuby::try_from(
                    value,
                );
                match string {
                    Ok(string) => Ok(RubyStringLike::String(string)),
                    Err(e) => Err(e),
                }
            },
            _ => Err(RubyConversionError::into_type("string")),
        }
    }
}

/// `nil` converts into `None`, whatever the type inside the option is.
pub proof fn lemma_nil_converts_into_none<'a, T: TryFromRuby<'a>>(
    value: &'a RubyValue,
    native: Option<T>,
)
    requires
        value.kind() == ValueKind::Nil,
    ensures
        Option::<T>::accepts(value),
        Option::<T>::decodes(value, native) <==> native is None,
{
}

/// A value other than `nil` converts into an option exactly where it
/// converts into the type inside, and then into `Some` of what it converts
/// into there.
pub proof fn lemma_some_converts_as_inner<'a, T: TryFromRuby<'a>>(
    value: &'a RubyValue,
    native: Option<T>,
)
    requires
        value.kind() != ValueKind::Nil,
    ensures
        Option::<T>::accepts(value) <==> T::accepts(value),
        Option::<T>::decodes(value, native) <==> native is Some && T::decodes(
            value,
            native->Some_0,
        ),
        Option::<T>::refused_as(value) == T::refused_as(value),
{
}

/// A string that converted has as many bytes as its length says, and its
/// byte pointer is the one that its header gives for the value's word.
pub proof fn lemma_string_view<'a>(value: &'a RubyValue, string: RubyString<'a>)
    requires
        <RubyString<'a> as TryFromRuby>::accepts(value),
        <RubyString<'a> as TryFromRuby>::decodes(value, string),
    ensures
        string.spec_len() == string.data.bytes@.len(),
        string.spec_as_ptr() == string.data.header.spec_byte_pointer(value.word),
        !value.spec_is_special_const(),
{
}

/// Of a value of which all was read that its kind asks for, the kind alone
/// decides what it converts into: every string converts into a string and
/// into bytes, every symbol into a symbol, and both are string-like.
pub proof fn lemma_kind_decides<'a>(value: &'a RubyValue)
    requires
        value.spec_is_fully_read(),
    ensures
        <RubyString<'a> as TryFromRuby>::accepts(value) <==> value.kind() == ValueKind::String,
        <&'a [u8] as TryFromRuby>::accepts(value) <==> value.kind() == ValueKind::String,
        <RubySymbol<'a> as TryFromRuby>::accepts(value) <==> value.kind() == ValueKind::Symbol,
        <RubyStringLike<'a> as TryFromRuby>::accepts(value) <==> value.kind() == ValueKind::String
            || value.kind() == ValueKind::Symbol,
        <&'a str as TryFromRuby>::accepts(value) <==> value.kind() == ValueKind::String
            && value.host->String_0.text() is Some,
        <bool as TryFromRuby>::accepts(value) <==> value.kind() == ValueKind::True || value.kind()
            == ValueKind::False,
        <i64 as TryFromRuby>::accepts(value) <==> value.kind() == ValueKind::Fixnum,
{
}

/// Which kinds convert into which native type. A value of any other kind is
/// refused.
pub proof fn lemma_kinds_that_convert<'a>(value: &'a RubyValue)
    ensures
        <bool as TryFromRuby>::accepts(value) ==> value.kind() == ValueKind::True || value.kind()
            == ValueKind::False,
        <i64 as TryFromRuby>::accepts(value) ==> value.kind() == ValueKind::Fixnum,
        <RubyString<'a> as TryFromRuby>::accepts(value) ==> value.kind() == ValueKind::String,
        <&'a str as TryFromRuby>::accepts(value) ==> value.kind() == ValueKind::String,
        <&'a [u8] as TryFromRuby>::accepts(value) ==> value.kind() == ValueKind::String,
        <RubySymbol<'a> as TryFromRuby>::accepts(value) ==> value.kind() == ValueKind::Symbol,
        <RubyStringLike<'a> as TryFromRuby>::accepts(value) ==> value.kind() == ValueKind::String
            || value.kind() == ValueKind::Symbol,
        value.spec_is_numeric() ==> value.kind() == ValueKind::Float || value.kind()
            == ValueKind::Fixnum,
{
}

/// A value of a kind that does not convert is refused under the name of
/// the type that was asked for: a string, for one, is no 64-bit integer.
pub proof fn lemma_refusal_names_the_type<'a>(value: &'a RubyValue)
    ensures
        value.kind() != ValueKind::True && value.kind() != ValueKind::False ==> !<bool as TryFromRuby>::accepts(
            value,
        ) && <bool as TryFromRuby>::refused_as(value) == "bool"@,
        value.kind() != ValueKind::Fixnum ==> !<i64 as TryFromRuby>::accepts(value) && <i64 as TryFromRuby>::refused_as(
            value,
        ) == "64-bit integer"@,
        value.kind() != ValueKind::String ==> !<RubyString<'a> as TryFromRuby>::accepts(value)
            && <RubyString<'a> as TryFromRuby>::refused_as(value) == "string"@,
        value.kind() != ValueKind::String ==> !<&'a str as TryFromRuby>::accepts(value) && <&'a str as TryFromRuby>::refused_as(
            value,
        ) == "string"@,
        value.kind() != ValueKind::String ==> !<&'a [u8] as TryFromRuby>::accepts(value)
            && <&'a [u8] as TryFromRuby>::refused_as(value) == "string"@,
        value.kind() != ValueKind::Symbol ==> !<RubySymbol<'a> as TryFromRuby>::accepts(value)
            && <RubySymbol<'a> as TryFromRuby>::refused_as(value) == "string"@,
{
}

} // verus!
