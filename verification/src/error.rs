//! The error of a failed conversion.

use vstd::prelude::*;
use vstd::string::*;

verus! {

/// A value of the interpreter could not be converted into a native type.
#[derive(Debug)]
pub struct RubyConversionError {
    /// How the value that was refused reads; empty where that is not known.
    pub value: String,
    /// The name of the native type that was asked for.
    pub into_type: String,
}

impl RubyConversionError {
    /// The text of the error: the refused value in quotes, then the type that
    /// was asked for.
    pub open spec fn message(&self) -> Seq<char> {
        "Invalid Conversion of \""@ + self.value@ + "\" into "@ + self.into_type@
    }

    /// An error for a value that reads as `value` and was to become an
    /// `into_type`.
    pub fn new(value: &str, into_type: &str) -> (error: RubyConversionError)
        ensures
            error.value@ == value@,
            error.into_type@ == into_type@,
    {
        RubyConversionError {
            value: String::from_str(value),
            into_type: String::from_str(into_type),
        }
    }

    /// An error that names the type asked for and knows nothing of the
    /// refused value.
    pub fn into_type(into_type: &str) -> (error: RubyConversionError)
        ensures
            error.value@ == Seq::<char>::empty(),
            error.into_type@ == into_type@,
    {
        RubyConversionError { value: String::new(), into_type: String::from_str(into_type) }
    }

    /// The text of the error.
    pub fn to_string(&self) -> (text: String)
        ensures
            text@ == self.message(),
    {
        let mut text = String::from_str("Invalid Conversion of \"");
        text.append(self.value.as_str());
        text.append("\" into ");
        text.append(self.into_type.as_str());
        text
    }
}

} // verus!
