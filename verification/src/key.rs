//! Storage keys.
//!
//! The key under which an entity is stored is the namespace of its type, a
//! colon, and the entity's identifier in decimal text. It is a function of
//! namespace and identifier alone, and within one namespace two different
//! identifiers never share a key.

use vstd::prelude::*;
use vstd::string::StringExecFns;
use crate::decimal::{
    decimal_digits, encode_unsigned, is_digit, lemma_decimal_digits_injective,
    lemma_decimal_digits_shape,
};

verus! {

/// A run of ASCII bytes as characters.
pub open spec fn ascii_text(bytes: Seq<u8>) -> Seq<char> {
    bytes.map_values(|byte: u8| byte as char)
}

/// The storage key of the entity `id` in `namespace`.
pub open spec fn key_text(namespace: Seq<char>, id: u64) -> Seq<char> {
    namespace + seq![':'] + ascii_text(decimal_digits(id as nat))
}

/// Two runs of bytes that read as the same characters are the same run.
pub proof fn lemma_ascii_text_injective(a: Seq<u8>, b: Seq<u8>)
    requires
        ascii_text(a) == ascii_text(b),
    ensures
        a == b,
{
    assert(b.len() == ascii_text(b).len());
    assert forall|i: int| 0 <= i < a.len() implies a[i] == b[i] by {
        assert(ascii_text(b)[i] == b[i] as char);
    }
}

/// Within one namespace, entities with different identifiers have different
/// storage keys.
pub proof fn lemma_keys_differ(namespace: Seq<char>, a: u64, b: u64)
    requires
        a != b,
    ensures
        key_text(namespace, a) != key_text(namespace, b),
{
    let key_a = key_text(namespace, a);
    let key_b = key_text(namespace, b);
    if key_a == key_b {
        let start = namespace.len() as int + 1;
        let text_a = ascii_text(decimal_digits(a as nat));
        let text_b = ascii_text(decimal_digits(b as nat));
        assert(key_a.subrange(start, key_a.len() as int) =~= text_a);
        assert(key_b.subrange(start, key_b.len() as int) =~= text_b);
        lemma_ascii_text_injective(decimal_digits(a as nat), decimal_digits(b as nat));
        lemma_decimal_digits_injective(a as nat, b as nat);
    }
}

/// The one-character text of a digit byte.
fn digit_text(digit: u8) -> (text: &'static str)
    requires
        is_digit(digit),
    ensures
        text@ == seq![digit as char],
{
    proof {
        reveal_strlit("0");
        reveal_strlit("1");
        reveal_strlit("2");
        reveal_strlit("3");
        reveal_strlit("4");
        reveal_strlit("5");
        reveal_strlit("6");
        reveal_strlit("7");
        reveal_strlit("8");
        reveal_strlit("9");
    }
    match digit {
        48 => "0",
        49 => "1",
        50 => "2",
        51 => "3",
        52 => "4",
        53 => "5",
        54 => "6",
        55 => "7",
        56 => "8",
        _ => "9",
    }
}

/// The storage key of the entity `id` in `namespace`: `<namespace>:<id>`.
pub fn storage_key(namespace: &str, id: u64) -> (key: String)
    ensures
        key@ == key_text(namespace@, id),
{
    proof {
        reveal_strlit(":");
        lemma_decimal_digits_shape(id as nat);
    }
    let digits = encode_unsigned(id);
    let mut key = String::from_str(namespace);
    key.append(":");
    let mut i: usize = 0;
    while i < digits.len()
        invariant
            i <= digits.len(),
            forall|k: int| 0 <= k < digits.len() ==> is_digit(#[trigger] digits[k]),
            key@ == namespace@ + seq![':'] + ascii_text(digits@.take(i as int)),
        decreases digits.len() - i,
    {
        key.append(digit_text(digits[i]));
        i = i + 1;
    }
    key
}

} // verus!
