//! Bit patterns and object layout of the 64-bit interpreter this crate
//! bridges to.

use vstd::prelude::*;

verus! {

/// The word of the `false` singleton.
pub const RUBY_QFALSE: u64 = 0x00;

/// The word of the `true` singleton.
pub const RUBY_QTRUE: u64 = 0x14;

/// The word of the `nil` singleton.
pub const RUBY_QNIL: u64 = 0x08;

/// The word of the "undefined" singleton.
pub const RUBY_QUNDEF: u64 = 0x34;

/// The low bits of a word; any of them set marks an immediate.
pub const RUBY_IMMEDIATE_MASK: u64 = 0x07;

/// The lowest bit of a word; set in every small integer.
pub const RUBY_FIXNUM_FLAG: u64 = 0x01;

/// The low byte of every immediate symbol.
pub const RUBY_SYMBOL_FLAG: u64 = 0x0c;

/// Width in bits of the tag that `RUBY_SYMBOL_FLAG` is compared with.
pub const RUBY_SPECIAL_SHIFT: u64 = 8;

/// The bits of an object header's flags word that hold the object's type.
pub const RUBY_T_MASK: u64 = 0x1f;

/// Type field of a float kept on the heap.
pub const RUBY_T_FLOAT: u64 = 0x04;

/// Type field of a string.
pub const RUBY_T_STRING: u64 = 0x05;

/// The bit of a string's flags word that tells the two layouts apart. This
/// crate reads it as set where the bytes are stored inside the object
/// itself, and takes every flags word in that sense: an interpreter that
/// sets the bit where the bytes lie outside has it turned over before the
/// word is handed in.
pub const RSTRING_EMBED_FLAG: u64 = 0x2000;

/// Position of the length of an embedded string inside the flags word.
pub const RSTRING_EMBED_LEN_SHIFT: u64 = 14;

/// Mask of the length of an embedded string, after the shift.
pub const RSTRING_EMBED_LEN_MASK: u64 = 0x1f;

/// Size in bytes of the header that every heap object starts with: the flags
/// word and the class word.
pub const RBASIC_SIZE: u64 = 16;

} // verus!
