//! The wire record of an entity.
//!
//! An entity is a flat record of named fields. Each field either has a wire
//! value or is omitted. The record that reaches the cache is the sequence of
//! pairs `(name, value)` of the fields that have a value, in the order in
//! which the fields are declared, and it holds exactly one pair for each of
//! them.

use vstd::prelude::*;
use crate::command::pair_args;
use crate::encode::field_args;

verus! {

/// One declared field of an entity, as the wire sees it: its name, and its
/// encoded value where it has one.
pub struct WireField {
    pub name: Seq<char>,
    pub value: Option<Seq<u8>>,
}

/// One pair of a wire record.
pub struct WirePair {
    pub key: Seq<char>,
    pub value: Seq<u8>,
}

/// The pairs of a record: one for each field with a value, in field order.
pub open spec fn wire_pairs(fields: Seq<WireField>) -> Seq<WirePair>
    decreases fields.len(),
{
    if fields.len() == 0 {
        Seq::empty()
    } else {
        let front = wire_pairs(fields.drop_last());
        match fields.last().value {
            Some(bytes) => front.push(WirePair { key: fields.last().name, value: bytes }),
            None => front,
        }
    }
}

/// The command arguments of a sequence of pairs: key and value of each, in
/// order.
pub open spec fn pairs_args(pairs: Seq<WirePair>) -> Seq<Seq<u8>>
    decreases pairs.len(),
{
    if pairs.len() == 0 {
        Seq::empty()
    } else {
        pairs_args(pairs.drop_last()) + pair_args(pairs.last().key, pairs.last().value)
    }
}

/// The command arguments that a record adds: what each field adds, in field
/// order.
pub open spec fn record_args(fields: Seq<WireField>) -> Seq<Seq<u8>>
    decreases fields.len(),
{
    if fields.len() == 0 {
        Seq::empty()
    } else {
        record_args(fields.drop_last()) + field_args(fields.last().name, fields.last().value)
    }
}

/// Whether no two fields share a name.
pub open spec fn names_distinct(fields: Seq<WireField>) -> bool {
    forall|i: int, j: int|
        0 <= i < j < fields.len() ==> (#[trigger] fields[i]).name != (#[trigger] fields[j]).name
}

/// The pairs of `pairs` whose key is `key`, in order.
pub open spec fn pairs_under(pairs: Seq<WirePair>, key: Seq<char>) -> Seq<WirePair> {
    pairs.filter(|pair: WirePair| pair.key == key)
}

/// The arguments of a record are the arguments of its pairs.
pub proof fn lemma_record_args_are_pairs(fields: Seq<WireField>)
    ensures
        record_args(fields) == pairs_args(wire_pairs(fields)),
    decreases fields.len(),
{
    if fields.len() > 0 {
        let front = fields.drop_last();
        lemma_record_args_are_pairs(front);
        if let Some(bytes) = fields.last().value {
            let pair = WirePair { key: fields.last().name, value: bytes };
            assert(wire_pairs(front).push(pair).drop_last() =~= wire_pairs(front));
        }
    }
}

/// Writing the first `k + 1` fields is writing the first `k` and then
/// field `k`.
pub proof fn lemma_record_args_step(fields: Seq<WireField>, k: int)
    requires
        0 <= k < fields.len(),
    ensures
        record_args(fields.take(k + 1)) == record_args(fields.take(k)) + field_args(
            fields[k].name,
            fields[k].value,
        ),
{
    assert(fields.take(k + 1).drop_last() =~= fields.take(k));
}

/// Every pair of a record carries the name of one of its fields and that
/// field's value.
pub proof fn lemma_pair_has_field(fields: Seq<WireField>, p: int) -> (i: int)
    requires
        0 <= p < wire_pairs(fields).len(),
    ensures
        0 <= i < fields.len(),
        fields[i].name == wire_pairs(fields)[p].key,
        fields[i].value == Some(wire_pairs(fields)[p].value),
    decreases fields.len(),
{
    let front = fields.drop_last();
    if fields.last().value is Some && p == wire_pairs(front).len() {
        fields.len() - 1
    } else {
        lemma_pair_has_field(front, p)
    }
}

/// A name that no field bears is the key of no pair.
pub proof fn lemma_no_pair_without_field(fields: Seq<WireField>, key: Seq<char>)
    requires
        forall|i: int| 0 <= i < fields.len() ==> (#[trigger] fields[i]).name != key,
    ensures
        pairs_under(wire_pairs(fields), key) == Seq::<WirePair>::empty(),
    decreases fields.len(),
{
    let keyed = |pair: WirePair| pair.key == key;
    if fields.len() == 0 {
        reveal(Seq::filter);
    } else {
        let front = fields.drop_last();
        lemma_no_pair_without_field(front, key);
        if let Some(bytes) = fields.last().value {
            let pair = WirePair { key: fields.last().name, value: bytes };
            wire_pairs(front).lemma_filter_push(pair, keyed);
        }
    }
}

/// Completeness of a record whose field names are distinct: under the name
/// of each declared field the record holds exactly one pair, with that
/// field's value, where the field has a value, and no pair where it has
/// none. No field is written twice and none with a value is skipped.
pub proof fn lemma_one_pair_per_field(fields: Seq<WireField>, i: int)
    requires
        names_distinct(fields),
        0 <= i < fields.len(),
    ensures
        pairs_under(wire_pairs(fields), fields[i].name) == match fields[i].value {
            Some(bytes) => seq![WirePair { key: fields[i].name, value: bytes }],
            None => Seq::<WirePair>::empty(),
        },
    decreases fields.len(),
{
    let key = fields[i].name;
    let keyed = |pair: WirePair| pair.key == key;
    let front = fields.drop_last();
    let last = fields.last();
    if i < fields.len() - 1 {
        lemma_one_pair_per_field(front, i);
    } else {
        lemma_no_pair_without_field(front, key);
    }
    if let Some(bytes) = last.value {
        let pair = WirePair { key: last.name, value: bytes };
        wire_pairs(front).lemma_filter_push(pair, keyed);
    }
}

} // verus!
