//! The functions that this extension itself offers to the interpreter.

use vstd::prelude::*;
use vstd::std_specs::iter::IteratorSpec;
use vstd::string::*;
use vstd::utf8::is_ascii_chars;
use crate::convert::TryFromRuby;
use crate::error::RubyConversionError;
use crate::module::{
    function_of_root, lemma_ascii_name, root, well_formed, Callback, Declaration, DeclarationView,
    Entry, Scope,
};
use crate::outbound::{IntoRuby, Outbound};
use crate::string::RubyString;
use crate::value::{HostData, RubyValue};

verus! {

/// White space as ASCII knows it: space, tab, line feed, form feed and
/// carriage return.
pub open spec fn spec_is_ascii_space(c: char) -> bool {
    let code = c as u32;
    code == 0x20 || code == 0x09 || code == 0x0a || code == 0x0c || code == 0x0d
}

/// White space as Unicode knows it.
pub open spec fn spec_is_white_space(c: char) -> bool {
    let code = c as u32;
    ||| 0x09 <= code <= 0x0d
    ||| code == 0x20
    ||| code == 0x85
    ||| code == 0xa0
    ||| code == 0x1680
    ||| 0x2000 <= code <= 0x200a
    ||| code == 0x2028
    ||| code == 0x2029
    ||| code == 0x202f
    ||| code == 0x205f
    ||| code == 0x3000
}

/// Whether the character counts as white space: among ASCII's where `ascii`
/// is set, else among Unicode's.
pub open spec fn counts_as_space(c: char, ascii: bool) -> bool {
    if ascii {
        spec_is_ascii_space(c)
    } else {
        spec_is_white_space(c)
    }
}

/// Whether a text is blank, for the text of a string as it stands: a text
/// of ASCII characters is held to ASCII's white space, any other text to
/// Unicode's. The text of a copy that the interpreter re-encoded is held to
/// Unicode's white space whatever its characters are.
pub open spec fn blank(text: Seq<char>) -> bool {
    forall|i: int| 0 <= i < text.len() ==> counts_as_space(text[i], is_ascii_chars(text))
}

#[verifier::when_used_as_spec(spec_is_ascii_space)]
pub fn is_ascii_space(c: char) -> (b: bool)
    ensures
        b == spec_is_ascii_space(c),
{
    let code: u32 = c as u32;
    code == 0x20 || code == 0x09 || code == 0x0a || code == 0x0c || code == 0x0d
}

#[verifier::when_used_as_spec(spec_is_white_space)]
pub fn is_white_space(c: char) -> (b: bool)
    ensures
        b == spec_is_white_space(c),
{
    let code: u32 = c as u32;
    (0x09 <= code && code <= 0x0d) || code == 0x20 || code == 0x85 || code == 0xa0 || code
        == 0x1680 || (0x2000 <= code && code <= 0x200a) || code == 0x2028 || code == 0x2029
        || code == 0x202f || code == 0x205f || code == 0x3000
}

/// Whether every character of the text counts as white space.
fn all_space(text: &str, ascii: bool) -> (b: bool)
    ensures
        b == forall|i: int| 0 <= i < text@.len() ==> counts_as_space(text@[i], ascii),
{
    broadcast use group_string_axioms;

    let mut chars = text.chars();
    let ghost mut seen: int = 0;
    loop
        invariant
            chars.obeys_prophetic_iter_laws(),
            0 <= seen <= text@.len(),
            chars.remaining() == text@.skip(seen),
            forall|i: int| 0 <= i < seen ==> counts_as_space(text@[i], ascii),
        decreases text@.len() - seen,
    {
        match chars.next() {
            Some(c) => {
                assert(c == text@[seen]);
                let space = if ascii {
                    is_ascii_space(c)
                } else {
                    is_white_space(c)
                };
                if !space {
                    return false;
                }
                proof {
                    assert(text@.skip(seen).drop_first() =~= text@.skip(seen + 1));
                    seen = seen + 1;
                }
            },
            None => {
                return true;
            },
        }
    }
}

/// Whether every character of the text is white space as Unicode knows it.
pub fn all_white_space(text: &str) -> (b: bool)
    ensures
        b == forall|i: int| 0 <= i < text@.len() ==> spec_is_white_space(text@[i]),
{
    all_space(text, false)
}

/// What is known of whether a value is a blank string.
#[derive(Clone, Copy, Debug, PartialEq, Eq, Structural)]
pub enum Blank {
    /// The answer: `None` for a value that is no string.
    Known(Option<bool>),
    /// The string has no text yet: the interpreter has to make a copy of it
    /// in the encoding with the handle `target`, and the answer is whether
    /// the text of that copy is all white space as Unicode knows it.
    Reencode { target: u64 },
}

/// Whether the value is a string of nothing but white space. A string
/// without bytes is blank whatever its encoding.
pub open spec fn spec_all_whitespace(arg: &RubyValue) -> Blank {
    if !<RubyString<'_> as TryFromRuby>::accepts(arg) {
        Blank::Known(None)
    } else if arg.host->String_0.header.spec_byte_length() == 0 {
        Blank::Known(Some(true))
    } else {
        match arg.host->String_0.text() {
            Some(text) => Blank::Known(Some(blank(text))),
            None => Blank::Reencode { target: arg.host->String_0.encodings.utf8 },
        }
    }
}

/// Tells whether the value is a string of nothing but white space.
pub fn ruby_str_all_whitespace(arg: &RubyValue) -> (answer: Blank)
    ensures
        answer == spec_all_whitespace(arg),
{
    let casted: Result<RubyString, RubyConversionError> = TryFromRuby::try_from(arg);
    match casted {
        Ok(string) => {
            if string.len() == 0 {
                Blank::Known(Some(true))
            } else {
                match string.try_str() {
                    Ok(utf8) => Blank::Known(Some(all_space(utf8, utf8.is_ascii()))),
                    Err(_) => Blank::Reencode { target: string.data.encodings.utf8 },
                }
            }
        },
        Err(_) => Blank::Known(None),
    }
}

/// Answers a string that has a text with a new string, and anything else
/// with `nil`.
pub fn ruby_new_string(arg: &RubyValue) -> (out: Outbound)
    ensures
        if <&str as TryFromRuby>::accepts(arg) {
            out matches Outbound::Utf8String(text) && text@ == "asd"@
        } else {
            out == Outbound::Ready(RubyValue { word: crate::layout::RUBY_QNIL, host: HostData::Unread })
        },
{
    let inp: Result<Option<&str>, RubyConversionError> = TryFromRuby::try_from(arg);
    let answer: Option<&str> = match inp {
        Ok(Some(_)) => Some("asd"),
        _ => None,
    };
    answer.into_ruby()
}

/// The plan of this extension: the module `EMERY` with the constant `EMERY`,
/// whose value is `one`, and the two functions.
pub open spec fn emery_plan(one: u64, all_whitespace: Callback, new_string: Callback) -> Seq<
    DeclarationView,
> {
    seq![
        root("EMERY"@),
        DeclarationView {
            scope: Scope::Planned(0),
            name: "EMERY"@,
            entry: Entry::Constant { value: one },
        },
        function_of_root("all_whitespace?"@, all_whitespace),
        function_of_root("new_string"@, new_string),
    ]
}

/// Plans the registration of this extension.
#[allow(non_snake_case)]
pub fn Init_libemery(one: &RubyValue, all_whitespace: Callback, new_string: Callback) -> (plan: Vec<
    Declaration,
>)
    ensures
        plan@.len() == 4,
        forall|j: int|
            0 <= j < 4 ==> plan@[j]@ == emery_plan(one.word, all_whitespace, new_string)[j],
        well_formed(emery_plan(one.word, all_whitespace, new_string)),
{
    proof {
        reveal_strlit("EMERY");
        reveal_strlit("all_whitespace?");
        reveal_strlit("new_string");
        lemma_ascii_name("EMERY"@);
        lemma_ascii_name("all_whitespace?"@);
        lemma_ascii_name("new_string"@);
    }
    let mut plan: Vec<Declaration> = Vec::new();
    plan.push(Declaration { scope: Scope::Global, name: String::from_str("EMERY"), entry: Entry::Module });
    plan.push(
        Declaration {
            scope: Scope::Planned(0),
            name: String::from_str("EMERY"),
            entry: Entry::Constant { value: one.word },
        },
    );
    plan.push(
        Declaration {
            scope: Scope::Planned(0),
            name: String::from_str("all_whitespace?"),
            entry: Entry::ModuleFunction { callback: all_whitespace },
        },
    );
    plan.push(
        Declaration {
            scope: Scope::Planned(0),
            name: String::from_str("new_string"),
            entry: Entry::ModuleFunction { callback: new_string },
        },
    );
    plan
}

} // verus!
