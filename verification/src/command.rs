//! The command buffer that a record is written into.
//!
//! The buffer is `redis::Cmd`, which this library does not look inside. What
//! the library relies on is stated here: a command holds a sequence of plain
//! arguments, each a byte string, and an argument given as a byte slice is
//! appended behind them as it is.

use vstd::prelude::*;
use vstd::utf8::encode_utf8;

verus! {

/// `redis::Cmd`, taken as it is: nothing inside it is visible here.
#[verifier::external_type_specification]
#[verifier::external_body]
pub struct ExCmd(redis::Cmd);

/// The byte strings of the plain arguments that a command holds, in the
/// order in which they were appended. A cursor marker is no plain argument
/// and does not appear.
pub uninterp spec fn cmd_args(cmd: redis::Cmd) -> Seq<Seq<u8>>;

/// Appends one argument holding exactly `bytes`.
///
/// Not proved: `redis::Cmd::arg`, called with a byte slice, writes the whole
/// slice as a single plain argument behind those already present and changes
/// none of them.
#[verifier::external_body]
fn push_arg(cmd: &mut redis::Cmd, bytes: &[u8])
    ensures
        cmd_args(*final(cmd)) == cmd_args(*old(cmd)).push(bytes@),
{
    cmd.arg(bytes);
}

/// The two arguments that one wire pair occupies: the key as UTF-8 text,
/// then the value.
pub open spec fn pair_args(key: Seq<char>, value: Seq<u8>) -> Seq<Seq<u8>> {
    seq![encode_utf8(key), value]
}

/// Appends the wire pair `(key, value)` to the command.
pub fn write_pair(key: &str, value: &[u8], cmd: &mut redis::Cmd)
    ensures
        cmd_args(*final(cmd)) == cmd_args(*old(cmd)) + pair_args(key@, value@),
{
    push_arg(cmd, key.as_bytes());
    push_arg(cmd, value);
}

} // verus!
