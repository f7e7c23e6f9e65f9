//! A bridge between the tagged values of a Ruby interpreter and native Rust
//! values.
//!
//! The interpreter hands every value over as one machine word. The word is
//! either an immediate (a singleton constant, a small integer, a symbol, an
//! immediate float) or the address of a heap object. This crate decodes such
//! words, classifies them, extracts strings and symbols from what the
//! interpreter's memory holds, converts between native and interpreter
//! values, and plans the registration of native modules and functions.
//!
//! The crate touches no interpreter memory itself. Whatever has to be read
//! from the interpreter is handed in as plain values, and whatever has to be
//! done by the interpreter is handed out as a description of the call.

pub mod convert;
pub mod error;
pub mod extension;
pub mod layout;
pub mod module;
pub mod outbound;
pub mod string;
pub mod value;

pub use convert::{try_float, TryFromRuby};
pub use error::RubyConversionError;
pub use module::{
    check_name, rb_define_const, rb_define_global_const, rb_define_global_function, rb_define_method,
    rb_define_module, rb_define_module_function, rb_define_module_under, Callback, Declaration,
    Entry, NameError, RubyModule, Scope,
};
pub use outbound::{IntoRuby, Outbound};
pub use string::{
    Encoding, Encodings, OwnedUtf8, RubyString, RubyStringLike, RubySymbol, StringData, StringHeader,
};
pub use value::{HostData, RubyValue, ValueKind};
