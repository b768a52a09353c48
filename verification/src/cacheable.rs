//! What makes a type storable: a storage key and a wire record.

use vstd::prelude::*;
use crate::command::cmd_args;
use crate::encode::ToRedisHArgs;
use crate::list::{join_ids, lemma_split_join_ids, split_ids};
use crate::record::{
    lemma_one_pair_per_field, lemma_record_args_are_pairs, names_distinct, pairs_args,
    pairs_under, record_args, wire_pairs, WireField, WirePair,
};

verus! {

/// An entity that names the key under which it is stored.
pub trait RedisKeyProvider {
    /// The storage key, a function of the entity alone.
    spec fn key_spec(&self) -> Seq<char>;

    /// The storage key of this entity.
    fn get_key(&self) -> (key: String)
        ensures
            key@ == self.key_spec(),
    ;
}

/// An entity that writes itself into a command as a hash-style record.
pub trait RedisFieldProvider: Sized {
    /// The names of the declared fields, in declaration order. They belong
    /// to the type, not to a value of it.
    spec fn field_names() -> Seq<Seq<char>>;

    /// The declared fields of this entity with their wire values, in
    /// declaration order.
    spec fn wire_fields(&self) -> Seq<WireField>;

    /// The wire fields are the declared fields, each once and in order, and
    /// no two of them share a name.
    proof fn lemma_fields_declared(&self)
        ensures
            self.wire_fields().len() == Self::field_names().len(),
            forall|i: int|
                0 <= i < self.wire_fields().len() ==> (#[trigger] self.wire_fields()[i]).name
                    == Self::field_names()[i],
            names_distinct(self.wire_fields()),
    ;

    /// Appends the record of this entity to `cmd`: for each declared field
    /// in order, what its value contributes under the field's name.
    fn add_fields_to_cmd(self, cmd: &mut redis::Cmd)
        ensures
            cmd_args(*final(cmd)) == cmd_args(*old(cmd)) + record_args(self.wire_fields()),
    ;
}

/// An entity that can be both keyed and written: eligible for storage.
pub trait Cacheable: RedisKeyProvider + RedisFieldProvider {
}

/// Completeness: what an entity appends to a command are the arguments of
/// its pairs, and under the name of each declared field the pairs hold
/// exactly one where the field has a wire value, carrying that value, and
/// none where it has no wire value. So no field is written twice, and none
/// is skipped unless it is absent.
pub proof fn lemma_entity_one_pair_per_field<E: RedisFieldProvider>(entity: E, i: int)
    requires
        0 <= i < E::field_names().len(),
    ensures
        record_args(entity.wire_fields()) == pairs_args(wire_pairs(entity.wire_fields())),
        entity.wire_fields()[i].name == E::field_names()[i],
        pairs_under(wire_pairs(entity.wire_fields()), E::field_names()[i]) == match entity
            .wire_fields()[i].value {
            Some(bytes) => seq![WirePair { key: E::field_names()[i], value: bytes }],
            None => Seq::<WirePair>::empty(),
        },
{
    entity.lemma_fields_declared();
    lemma_record_args_are_pairs(entity.wire_fields());
    lemma_one_pair_per_field(entity.wire_fields(), i);
}

/// Optional absence: where field `i` of an entity holds the optional value
/// `value`, an absent value leaves no pair under the field's name in the
/// record, and a present one leaves exactly one pair, which carries the wire
/// value of the inner value.
pub proof fn lemma_entity_optional_field<E: RedisFieldProvider, T: ToRedisHArgs>(
    entity: E,
    i: int,
    value: Option<T>,
)
    requires
        0 <= i < E::field_names().len(),
        entity.wire_fields()[i].value == value.wire_value(),
    ensures
        value is None ==> pairs_under(wire_pairs(entity.wire_fields()), E::field_names()[i]).len()
            == 0,
        value matches Some(inner) ==> (inner.wire_value() matches Some(bytes) ==> pairs_under(
            wire_pairs(entity.wire_fields()),
            E::field_names()[i],
        ) == seq![WirePair { key: E::field_names()[i], value: bytes }]),
{
    lemma_entity_one_pair_per_field(entity, i);
}

/// Collections read back: where field `i` of an entity holds the list of
/// identifiers `ids`, the record holds exactly one pair under the field's
/// name, for the empty list too, and splitting the value of that pair gives
/// the identifiers back, in their order.
pub proof fn lemma_entity_id_list_field<E: RedisFieldProvider>(entity: E, i: int, ids: Vec<u64>)
    requires
        0 <= i < E::field_names().len(),
        entity.wire_fields()[i].value == ids.wire_value(),
    ensures
        pairs_under(wire_pairs(entity.wire_fields()), E::field_names()[i]) == seq![
            WirePair { key: E::field_names()[i], value: join_ids(ids@) },
        ],
        split_ids(join_ids(ids@)) == ids@.map_values(|id: u64| id as nat),
{
    lemma_entity_one_pair_per_field(entity, i);
    lemma_split_join_ids(ids@);
}

} // verus!
