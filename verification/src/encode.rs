//! The per-type encoder: how one field value becomes wire arguments.
//!
//! A value contributes at most one wire pair, under the name of the field
//! that holds it. What it contributes is a function of the value alone:
//! `wire_value` gives the encoded bytes, or nothing where the field is left
//! out of the record. Any type can take part by implementing the trait.

use vstd::prelude::*;
use vstd::utf8::encode_utf8;
use crate::command::{cmd_args, pair_args, write_pair};
use crate::decimal::{decimal_digits, encode_signed, encode_unsigned, signed_decimal};
use crate::list::{encode_ids, encode_texts, join_ids, join_texts};

verus! {

/// The ASCII byte `1`, the wire value of `true`.
pub const TRUE_BYTE: u8 = 49;

/// The ASCII byte `0`, the wire value of `false`.
pub const FALSE_BYTE: u8 = 48;

/// The arguments that a field adds to a command: its pair where it has a
/// value, nothing where it has none.
pub open spec fn field_args(name: Seq<char>, value: Option<Seq<u8>>) -> Seq<Seq<u8>> {
    match value {
        Some(bytes) => pair_args(name, bytes),
        None => Seq::empty(),
    }
}

/// A value that can be written as a field of a hash-style record.
pub trait ToRedisHArgs {
    /// The encoded value, or `None` where a field holding this value is
    /// omitted from the record.
    spec fn wire_value(&self) -> Option<Seq<u8>>;

    /// Appends this value to `cmd` as the field `name`: the pair
    /// `(name, wire_value)`, or nothing where there is no wire value.
    fn write_redis_hargs(&self, name: &str, cmd: &mut redis::Cmd)
        ensures
            cmd_args(*final(cmd)) == cmd_args(*old(cmd)) + field_args(name@, self.wire_value()),
    ;
}

impl ToRedisHArgs for u8 {
    open spec fn wire_value(&self) -> Option<Seq<u8>> {
        Some(decimal_digits(*self as nat))
    }

    fn write_redis_hargs(&self, name: &str, cmd: &mut redis::Cmd) {
        let text = encode_unsigned(*self as u64);
        write_pair(name, text.as_slice(), cmd);
    }
}

impl ToRedisHArgs for u16 {
    open spec fn wire_value(&self) -> Option<Seq<u8>> {
        Some(decimal_digits(*self as nat))
    }

    fn write_redis_hargs(&self, name: &str, cmd: &mut redis::Cmd) {
        let text = encode_unsigned(*self as u64);
        write_pair(name, text.as_slice(), cmd);
    }
}

impl ToRedisHArgs for u64 {
    open spec fn wire_value(&self) -> Option<Seq<u8>> {
        Some(decimal_digits(*self as nat))
    }

    fn write_redis_hargs(&self, name: &str, cmd: &mut redis::Cmd) {
        let text = encode_unsigned(*self);
        write_pair(name, text.as_slice(), cmd);
    }
}

impl ToRedisHArgs for i64 {
    open spec fn wire_value(&self) -> Option<Seq<u8>> {
        Some(signed_decimal(*self as int))
    }

    fn write_redis_hargs(&self, name: &str, cmd: &mut redis::Cmd) {
        let text = encode_signed(*self);
        write_pair(name, text.as_slice(), cmd);
    }
}

impl ToRedisHArgs for bool {
    open spec fn wire_value(&self) -> Option<Seq<u8>> {
        Some(seq![if *self { TRUE_BYTE } else { FALSE_BYTE }])
    }

    fn write_redis_hargs(&self, name: &str, cmd: &mut redis::Cmd) {
        let mut text: Vec<u8> = Vec::new();
        text.push(if *self { TRUE_BYTE } else { FALSE_BYTE });
        write_pair(name, text.as_slice(), cmd);
    }
}

impl ToRedisHArgs for String {
    open spec fn wire_value(&self) -> Option<Seq<u8>> {
        Some(encode_utf8(self@))
    }

    fn write_redis_hargs(&self, name: &str, cmd: &mut redis::Cmd) {
        write_pair(name, self.as_str().as_bytes(), cmd);
    }
}

/// An opaque byte blob is written as it is.
impl ToRedisHArgs for Vec<u8> {
    open spec fn wire_value(&self) -> Option<Seq<u8>> {
        Some(self@)
    }

    fn write_redis_hargs(&self, name: &str, cmd: &mut redis::Cmd) {
        write_pair(name, self.as_slice(), cmd);
    }
}

/// A collection of reference identifiers is written as one value, the joined
/// decimal texts of the identifiers. The empty collection is written too,
/// as the empty value.
impl ToRedisHArgs for Vec<u64> {
    open spec fn wire_value(&self) -> Option<Seq<u8>> {
        Some(join_ids(self@))
    }

    fn write_redis_hargs(&self, name: &str, cmd: &mut redis::Cmd) {
        let text = encode_ids(self);
        write_pair(name, text.as_slice(), cmd);
    }
}

/// A collection of strings is written as one value, the joined strings.
impl ToRedisHArgs for Vec<String> {
    open spec fn wire_value(&self) -> Option<Seq<u8>> {
        Some(join_texts(self@.map_values(|s: String| s@)))
    }

    fn write_redis_hargs(&self, name: &str, cmd: &mut redis::Cmd) {
        let text = encode_texts(self);
        write_pair(name, text.as_slice(), cmd);
    }
}

/// An optional value is written as its inner value where it is present and
/// is left out of the record where it is absent.
impl<T: ToRedisHArgs> ToRedisHArgs for Option<T> {
    open spec fn wire_value(&self) -> Option<Seq<u8>> {
        match self {
            Some(inner) => inner.wire_value(),
            None => None,
        }
    }

    fn write_redis_hargs(&self, name: &str, cmd: &mut redis::Cmd) {
        match self {
            Some(inner) => inner.write_redis_hargs(name, cmd),
            None => {
            },
        }
    }
}

} // verus!
