//! Strings and symbols: where their bytes lie and how they are read.

use vstd::prelude::*;
use vstd::slice::slice_subrange;
use vstd::string::*;
use vstd::utf8::{
    decode_utf8, decode_utf8_encode_utf8, encode_utf8, encode_utf8_decode_utf8,
    encode_utf8_valid_utf8, valid_utf8,
};
use crate::error::RubyConversionError;
use crate::layout::{
    RBASIC_SIZE, RSTRING_EMBED_FLAG, RSTRING_EMBED_LEN_MASK, RSTRING_EMBED_LEN_SHIFT,
};

verus! {

/// The two encodings of the interpreter's registry that this crate knows by
/// identity, each as the handle the interpreter gives for it.
#[derive(Clone, Copy, Debug, PartialEq, Eq, Structural)]
pub struct Encodings {
    pub utf8: u64,
    pub us_ascii: u64,
}

/// The encoding of a string, as far as this crate tells encodings apart.
#[derive(Clone, Copy, Debug, PartialEq, Eq, Structural)]
pub enum Encoding {
    Utf8,
    UsAscii,
    Other,
}

/// The words of a string object that say where its bytes lie.
#[derive(Clone, Copy, Debug, PartialEq, Eq, Structural)]
pub struct StringHeader {
    /// The flags word of the object's header, handed in with the embedding
    /// flag in this crate's sense: set where the bytes lie inside the
    /// object. Where the interpreter marks the strings whose bytes lie
    /// outside instead, whoever reads the header turns that bit over.
    pub flags: u64,
    /// The length field behind the header, used by a string whose bytes lie
    /// outside the object.
    pub heap_len: usize,
    /// The pointer field behind the header, used by a string whose bytes lie
    /// outside the object.
    pub heap_ptr: u64,
}

/// What the interpreter's memory and registry hold of one string object.
#[derive(Debug)]
pub struct StringData {
    pub header: StringHeader,
    /// The handle of the encoding that the registry reports for the string.
    pub encoding: u64,
    /// The registry's well-known encodings.
    pub encodings: Encodings,
    /// The bytes found at the string's byte pointer.
    pub bytes: Vec<u8>,
}

/// What it takes to own the text of a string.
#[derive(Debug)]
pub enum OwnedUtf8 {
    /// The text.
    Text(String),
    /// The string is in another encoding: the interpreter has to make a copy
    /// of it in the encoding with the handle `target`, and the text is taken
    /// from that copy.
    Reencode { target: u64 },
}

/// The position of the first zero byte, or the length where there is none.
pub open spec fn terminator(bytes: Seq<u8>) -> int
    decreases bytes.len(),
{
    if bytes.len() == 0 || bytes[0] == 0 {
        0
    } else {
        1 + terminator(bytes.drop_first())
    }
}

/// The terminator lies inside the sequence or at its end, no byte before it
/// is zero, and the byte at it, if there is one, is zero.
pub proof fn lemma_terminator(bytes: Seq<u8>)
    ensures
        0 <= terminator(bytes) <= bytes.len(),
        forall|i: int| 0 <= i < terminator(bytes) ==> bytes[i] != 0,
        terminator(bytes) < bytes.len() ==> bytes[terminator(bytes)] == 0,
    decreases bytes.len(),
{
    if bytes.len() == 0 || bytes[0] == 0 {
    } else {
        let rest = bytes.drop_first();
        lemma_terminator(rest);
        assert forall|i: int| 0 <= i < terminator(bytes) implies bytes[i] != 0 by {
            if i > 0 {
                assert(bytes[i] == rest[i - 1]);
            }
        }
        if terminator(bytes) < bytes.len() {
            assert(bytes[terminator(bytes)] == rest[terminator(rest)]);
        }
    }
}

/// Skipping bytes that are not zero moves the terminator by as many places.
proof fn lemma_terminator_skip(bytes: Seq<u8>, i: int)
    requires
        0 <= i <= bytes.len(),
        forall|j: int| 0 <= j < i ==> bytes[j] != 0,
    ensures
        terminator(bytes) == i + terminator(bytes.skip(i)),
    decreases i,
{
    if i == 0 {
        assert(bytes.skip(0) =~= bytes);
    } else {
        let rest = bytes.drop_first();
        assert forall|j: int| 0 <= j < i - 1 implies rest[j] != 0 by {
            assert(rest[j] == bytes[j + 1]);
        }
        lemma_terminator_skip(rest, i - 1);
        assert(rest.skip(i - 1) =~= bytes.skip(i));
    }
}

/// Finds the terminator by a scan from the front.
pub fn first_zero(bytes: &[u8]) -> (end: usize)
    ensures
        end == terminator(bytes@),
{
    let mut end: usize = 0;
    while end < bytes.len() && bytes[end] != 0
        invariant
            end <= bytes@.len(),
            forall|j: int| 0 <= j < end ==> bytes@[j] != 0,
        decreases bytes@.len() - end,
    {
        end = end + 1;
    }
    proof {
        lemma_terminator_skip(bytes@, end as int);
        assert(terminator(bytes@.skip(end as int)) == 0) by {
            if end < bytes@.len() {
                assert(bytes@.skip(end as int)[0] == bytes@[end as int]);
            }
        }
    }
    end
}

/// `std::str::Utf8Error`, the error of `std::str::from_utf8`. Nothing is
/// read from it.
#[verifier::external_type_specification]
#[verifier::external_body]
pub struct ExUtf8Error(std::str::Utf8Error);

/// `std::str::from_utf8`: succeeds on exactly the byte sequences that are
/// valid UTF-8, and the string it gives lies over the same bytes.
#[verifier::external_body]
fn from_utf8<'a>(bytes: &'a [u8]) -> (text: Result<&'a str, std::str::Utf8Error>)
    ensures
        text is Ok <==> valid_utf8(bytes@),
        text is Ok ==> text->Ok_0.spec_bytes() == bytes@,
{
    std::str::from_utf8(bytes)
}

impl Encodings {
    /// Which of the well-known encodings the handle stands for.
    pub open spec fn spec_classify(&self, handle: u64) -> Encoding {
        if handle == self.utf8 {
            Encoding::Utf8
        } else if handle == self.us_ascii {
            Encoding::UsAscii
        } else {
            Encoding::Other
        }
    }

    /// Which of the well-known encodings the handle stands for.
    #[verifier::when_used_as_spec(spec_classify)]
    pub fn classify(&self, handle: u64) -> (encoding: Encoding)
        ensures
            encoding == self.spec_classify(handle),
    {
        if handle == self.utf8 {
            Encoding::Utf8
        } else if handle == self.us_ascii {
            Encoding::UsAscii
        } else {
            Encoding::Other
        }
    }
}

impl StringHeader {
    /// The embedding flag of the flags word is set.
    pub open spec fn spec_is_embedded(&self) -> bool {
        (self.flags / 0x2000) % 2 == 1
    }

    /// The length that the flags word holds for an embedded string.
    pub open spec fn embedded_len(&self) -> int {
        (self.flags as int / 0x4000) % 32
    }

    /// The number of bytes of the string: for an embedded string the length
    /// held in the flags word, else the length field.
    pub open spec fn spec_byte_length(&self) -> int {
        if self.spec_is_embedded() {
            self.embedded_len()
        } else {
            self.heap_len as int
        }
    }

    /// The address of the first byte of the string, for an object at
    /// `address`: for an embedded string the address behind the object's
    /// header, else the pointer field. Addresses wrap round.
    pub open spec fn spec_byte_pointer(&self, address: u64) -> u64 {
        if self.spec_is_embedded() {
            if address + RBASIC_SIZE <= u64::MAX {
                (address + RBASIC_SIZE) as u64
            } else {
                (address + RBASIC_SIZE - 0x1_0000_0000_0000_0000) as u64
            }
        } else {
            self.heap_ptr
        }
    }

    /// Whether the bytes lie inside the object.
    #[verifier::when_used_as_spec(spec_is_embedded)]
    pub fn is_embedded(&self) -> (b: bool)
        ensures
            b == self.spec_is_embedded(),
    {
        let flags: u64 = self.flags;
        assert((flags & 0x2000 != 0) == ((flags / 0x2000) % 2 == 1)) by (bit_vector);
        (flags & RSTRING_EMBED_FLAG) != 0
    }

    /// The number of bytes of the string.
    pub fn byte_length(&self) -> (len: usize)
        ensures
            len == self.spec_byte_length(),
    {
        if self.is_embedded() {
            let flags: u64 = self.flags;
            assert((flags >> 14) & 0x1f == (flags / 0x4000) % 32) by (bit_vector);
            let len: u64 = (flags >> RSTRING_EMBED_LEN_SHIFT) & RSTRING_EMBED_LEN_MASK;
            len as usize
        } else {
            self.heap_len
        }
    }

    /// The address of the first byte of the string, for an object at
    /// `address`.
    #[verifier::when_used_as_spec(spec_byte_pointer)]
    pub fn byte_pointer(&self, address: u64) -> (pointer: u64)
        ensures
            pointer == self.spec_byte_pointer(address),
    {
        if self.is_embedded() {
            address.wrapping_add(RBASIC_SIZE)
        } else {
            self.heap_ptr
        }
    }
}

impl StringData {
    /// As many bytes were read as the header says the string has.
    pub open spec fn consistent(&self) -> bool {
        self.bytes@.len() == self.header.spec_byte_length()
    }

    /// The string's encoding is one in which every string is UTF-8 too:
    /// UTF-8 itself or US-ASCII.
    pub open spec fn is_utf8(&self) -> bool {
        self.encoding == self.encodings.utf8 || self.encoding == self.encodings.us_ascii
    }

    /// The string's encoding is US-ASCII.
    pub open spec fn is_ascii(&self) -> bool {
        self.encoding == self.encodings.us_ascii
    }

    /// The text of the string, where its encoding makes it UTF-8 and its
    /// bytes are.
    pub open spec fn text(&self) -> Option<Seq<char>> {
        if self.is_utf8() && valid_utf8(self.bytes@) {
            Some(decode_utf8(self.bytes@))
        } else {
            None
        }
    }
}

/// A string of the interpreter: the object's address, and what its memory
/// holds.
#[derive(Debug)]
pub struct RubyString<'a> {
    pub address: u64,
    pub data: &'a StringData,
}

/// A symbol of the interpreter: the bytes at the address of its name.
#[derive(Debug)]
pub struct RubySymbol<'a> {
    pub name: &'a Vec<u8>,
}

/// A string or a symbol.
#[derive(Debug)]
pub enum RubyStringLike<'a> {
    String(RubyString<'a>),
    Symbol(RubySymbol<'a>),
}

impl<'a> RubyString<'a> {
    pub open spec fn spec_is_utf8(&self) -> bool {
        self.data.is_utf8()
    }

    pub open spec fn spec_is_ascii(&self) -> bool {
        self.data.is_ascii()
    }

    pub open spec fn spec_len(&self) -> usize {
        self.data.header.spec_byte_length() as usize
    }

    pub open spec fn spec_as_ptr(&self) -> u64 {
        self.data.header.spec_byte_pointer(self.address)
    }

    pub open spec fn spec_encoding(&self) -> Encoding {
        self.data.encodings.spec_classify(self.data.encoding)
    }

    /// Whether the string's encoding is UTF-8 or US-ASCII.
    #[verifier::when_used_as_spec(spec_is_utf8)]
    pub fn is_utf8(&self) -> (b: bool)
        ensures
            b == self.data.is_utf8(),
    {
        self.data.encoding == self.data.encodings.utf8 || self.data.encoding
            == self.data.encodings.us_ascii
    }

    /// Whether the string's encoding is US-ASCII.
    #[verifier::when_used_as_spec(spec_is_ascii)]
    pub fn is_ascii(&self) -> (b: bool)
        ensures
            b == self.data.is_ascii(),
    {
        self.data.encoding == self.data.encodings.us_ascii
    }

    /// The encoding of the string.
    #[verifier::when_used_as_spec(spec_encoding)]
    pub fn encoding(&self) -> (encoding: Encoding)
        ensures
            encoding == self.data.encodings.spec_classify(self.data.encoding),
            self.data.is_utf8() <==> encoding != Encoding::Other,
    {
        self.data.encodings.classify(self.data.encoding)
    }

    /// The number of bytes of the string.
    #[verifier::when_used_as_spec(spec_len)]
    pub fn len(&self) -> (len: usize)
        ensures
            len == self.data.header.spec_byte_length(),
    {
        self.data.header.byte_length()
    }

    /// The address of the first byte of the string.
    #[verifier::when_used_as_spec(spec_as_ptr)]
    pub fn as_ptr(&self) -> (pointer: u64)
        ensures
            pointer == self.data.header.spec_byte_pointer(self.address),
    {
        self.data.header.byte_pointer(self.address)
    }

    /// The bytes of the string.
    pub fn bytes(&self) -> (bytes: &'a [u8])
        ensures
            bytes@ == self.data.bytes@,
    {
        self.data.bytes.as_slice()
    }

    /// The string as text, without a copy. This fails unless the encoding is
    /// UTF-8 or US-ASCII and the bytes are valid UTF-8.
    pub fn try_str(&self) -> (text: Result<&'a str, RubyConversionError>)
        ensures
            match text {
                Ok(s) => self.data.text() == Some(s@),
                Err(e) => self.data.text() is None && e.value@ == Seq::<char>::empty()
                    && e.into_type@ == "utf8 string"@,
            },
    {
        if self.is_utf8() {
            match from_utf8(self.bytes()) {
                Ok(s) => {
                    proof {
                        encode_utf8_decode_utf8(s@);
                    }
                    Ok(s)
                },
                Err(_) => Err(RubyConversionError::into_type("utf8 string")),
            }
        } else {
            Err(RubyConversionError::into_type("utf8 string"))
        }
    }

    /// The text of the string as an owned value, or the request to have the
    /// string re-encoded into UTF-8 first.
    pub fn to_owned(&self) -> (owned: OwnedUtf8)
        ensures
            match owned {
                OwnedUtf8::Text(s) => self.data.text() == Some(s@),
                OwnedUtf8::Reencode { target } => self.data.text() is None && target
                    == self.data.encodings.utf8,
            },
    {
        match self.try_str() {
            Ok(s) => OwnedUtf8::Text(s.to_owned()),
            Err(_) => OwnedUtf8::Reencode { target: self.data.encodings.utf8 },
        }
    }
}

impl<'a> RubySymbol<'a> {
    /// The bytes of the name: those before the first zero byte.
    pub open spec fn spec_bytes(&self) -> Seq<u8> {
        self.name@.take(terminator(self.name@))
    }

    /// The name as text, where its bytes are valid UTF-8.
    pub open spec fn text(&self) -> Option<Seq<char>> {
        if valid_utf8(self.spec_bytes()) {
            Some(decode_utf8(self.spec_bytes()))
        } else {
            None
        }
    }

    /// The bytes of the name, found by a scan for the terminating zero.
    pub fn bytes(&self) -> (bytes: &'a [u8])
        ensures
            bytes@ == self.spec_bytes(),
    {
        let name: &'a [u8] = self.name.as_slice();
        let end: usize = first_zero(name);
        proof {
            lemma_terminator(name@);
        }
        slice_subrange(name, 0, end)
    }

    /// The name as text, without a copy. This fails where the bytes are not
    /// valid UTF-8, and the error names the text that was asked for.
    pub fn try_str(&self) -> (text: Result<&'a str, RubyConversionError>)
        ensures
            match text {
                Ok(s) => self.text() == Some(s@),
                Err(e) => self.text() is None && e.value@ == Seq::<char>::empty()
                    && e.into_type@ == "utf8 string"@,
            },
    {
        match from_utf8(self.bytes()) {
            Ok(s) => {
                proof {
                    encode_utf8_decode_utf8(s@);
                }
                Ok(s)
            },
            Err(_) => Err(RubyConversionError::into_type("utf8 string")),
        }
    }

    /// The name as owned text.
    pub fn to_owned(&self) -> (text: Result<String, RubyConversionError>)
        ensures
            match text {
                Ok(s) => self.text() == Some(s@),
                Err(e) => self.text() is None && e.value@ == Seq::<char>::empty()
                    && e.into_type@ == "utf8 string"@,
            },
    {
        match self.try_str() {
            Ok(s) => Ok(s.to_owned()),
            Err(e) => Err(e),
        }
    }
}

impl<'a> RubyStringLike<'a> {
    /// The bytes of the string or of the symbol's name.
    pub open spec fn spec_bytes(&self) -> Seq<u8> {
        match self {
            RubyStringLike::String(string) => string.data.bytes@,
            RubyStringLike::Symbol(symbol) => symbol.spec_bytes(),
        }
    }

    /// The text of the string or of the symbol's name, where it has one.
    pub open spec fn text(&self) -> Option<Seq<char>> {
        match self {
            RubyStringLike::String(string) => string.data.text(),
            RubyStringLike::Symbol(symbol) => symbol.text(),
        }
    }

    /// The error that a string or a symbol without text gives: it names the
    /// text that was asked for, and knows nothing of the refused value.
    pub open spec fn refusal(&self, e: RubyConversionError) -> bool {
        e.value@ == Seq::<char>::empty() && e.into_type@ == "utf8 string"@
    }

    /// The text, without a copy.
    pub fn try_str(&self) -> (text: Result<&'a str, RubyConversionError>)
        ensures
            match text {
                Ok(s) => self.text() == Some(s@),
                Err(e) => self.text() is None && self.refusal(e),
            },
    {
        match self {
            RubyStringLike::String(string) => string.try_str(),
            RubyStringLike::Symbol(symbol) => symbol.try_str(),
        }
    }

    /// The text as an owned value. A string never fails: where it has no
    /// text yet, the request to re-encode it comes back. A symbol fails
    /// where its name is not valid UTF-8.
    pub fn to_owned(&self) -> (owned: Result<OwnedUtf8, RubyConversionError>)
        ensures
            match owned {
                Ok(OwnedUtf8::Text(s)) => self.text() == Some(s@),
                Ok(OwnedUtf8::Reencode { target }) => {
                    &&& self.text() is None
                    &&& self matches RubyStringLike::String(string)
                    &&& target == string.data.encodings.utf8
                },
                Err(e) => self.text() is None && self is Symbol && self.refusal(e),
            },
    {
        match self {
            RubyStringLike::String(string) => Ok(string.to_owned()),
            RubyStringLike::Symbol(symbol) => match symbol.to_owned() {
                Ok(s) => Ok(OwnedUtf8::Text(s)),
                Err(e) => Err(e),
            },
        }
    }

    /// The bytes of the string or of the symbol's name.
    pub fn bytes(&self) -> (bytes: &'a [u8])
        ensures
            bytes@ == self.spec_bytes(),
    {
        match self {
            RubyStringLike::String(string) => string.bytes(),
            RubyStringLike::Symbol(symbol) => symbol.bytes(),
        }
    }
}

/// A string that the interpreter made in UTF-8 from a text gives that text
/// back, wherever its bytes lie.
pub proof fn lemma_text_round_trip(text: Seq<char>, data: StringData)
    requires
        data.encoding == data.encodings.utf8,
        data.bytes@ == encode_utf8(text),
    ensures
        data.text() == Some(text),
{
    encode_utf8_valid_utf8(text);
    encode_utf8_decode_utf8(text);
}

/// The bytes of a text that the interpreter holds are the bytes of the text.
pub proof fn lemma_text_bytes(data: StringData)
    requires
        data.text() is Some,
    ensures
        encode_utf8(data.text()->Some_0) == data.bytes@,
{
    decode_utf8_encode_utf8(data.bytes@);
}

/// The length of an embedded string is below 32, whatever the length field
/// and the pointer field hold; the byte pointer of a string that is not
/// embedded is the pointer field, wherever the object lies.
pub proof fn lemma_layouts(header: StringHeader, address: u64)
    ensures
        header.spec_is_embedded() ==> 0 <= header.spec_byte_length() < 32,
        !header.spec_is_embedded() ==> header.spec_byte_length() == header.heap_len
            && header.spec_byte_pointer(address) == header.heap_ptr,
        header.spec_is_embedded() && address + RBASIC_SIZE <= u64::MAX
            ==> header.spec_byte_pointer(address) == address + RBASIC_SIZE,
{
}

} // verus!
