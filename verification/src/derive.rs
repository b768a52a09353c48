//! The field-enumeration generator.
//!
//! Given the shape of a type, the generator writes the routine that puts a
//! value of that type on the wire: one call of the per-type encoder for each
//! named field, in declaration order, with the field's name as the wire key.
//! Only a struct with named fields has such a routine. Every other shape is
//! rejected before generation, so that no type ever gets a routine that
//! silently writes nothing: `check_shape` names the rejection, and the
//! generator takes shapes that pass it.
//!
//! The routine is produced as source text. It depends on the shape alone.
//! It is executable code only: a type that wants the contract of its record
//! verified states its wire fields and writes the routine by hand, as the
//! guild does.

use vstd::prelude::*;
use vstd::string::StringExecFns;

verus! {

/// The fields of a struct.
#[derive(Clone, Debug)]
pub enum Fields {
    /// Named fields, by their identifiers in declaration order.
    Named(Vec<String>),
    /// Positional fields.
    Unnamed,
    /// No field list at all.
    Unit,
}

/// The shape of a type.
#[derive(Clone, Debug)]
pub enum Data {
    Struct(Fields),
    Enum,
    Union,
}

/// A type handed to the generator: its name and its shape.
#[derive(Clone, Debug)]
pub struct DeriveInput {
    pub ident: String,
    pub data: Data,
}

/// Why a shape has no field-enumeration routine.
#[derive(Clone, Copy, Debug, PartialEq, Eq)]
pub enum ShapeError {
    /// The struct has positional fields.
    UnnamedFields,
    /// The struct has no field list.
    UnitStruct,
    /// The type is an enum.
    Enum,
    /// The type is a union.
    Union,
}

/// The diagnostic for a struct with positional fields.
pub const UNNAMED_FIELDS_MESSAGE: &'static str =
    "unsupported shape: a struct with positional fields has no named fields to write";

/// The diagnostic for a unit struct.
pub const UNIT_STRUCT_MESSAGE: &'static str =
    "unsupported shape: a unit struct has no named fields to write";

/// The diagnostic for an enum.
pub const ENUM_MESSAGE: &'static str = "unsupported shape: an enum has no named fields to write";

/// The diagnostic for a union.
pub const UNION_MESSAGE: &'static str = "unsupported shape: a union has no named fields to write";

/// A statement up to the field that it reads.
pub const STATEMENT_OPEN: &'static str =
    "::fishmael_cache::encode::ToRedisHArgs::write_redis_hargs(&self.";

/// A statement between the field and the string literal of its name.
pub const STATEMENT_KEY: &'static str = ", \"";

/// A statement behind the name.
pub const STATEMENT_CLOSE: &'static str = "\", cmd);\n";

/// An implementation up to the name of the type.
pub const IMPL_OPEN: &'static str = "impl ::fishmael_cache::cacheable::RedisFieldProvider for ";

/// An implementation between the name of the type and the statements.
pub const IMPL_BODY: &'static str = " {\nfn add_fields_to_cmd(self, cmd: &mut redis::Cmd) {\n";

/// An implementation behind the statements.
pub const IMPL_CLOSE: &'static str = "}\n}\n";

impl ShapeError {
    /// The text of the diagnostic that reports this rejection.
    pub open spec fn message_text(self) -> Seq<char> {
        match self {
            ShapeError::UnnamedFields => UNNAMED_FIELDS_MESSAGE@,
            ShapeError::UnitStruct => UNIT_STRUCT_MESSAGE@,
            ShapeError::Enum => ENUM_MESSAGE@,
            ShapeError::Union => UNION_MESSAGE@,
        }
    }

    /// The diagnostic that reports this rejection.
    pub fn message(&self) -> (text: &'static str)
        ensures
            text@ == self.message_text(),
    {
        match self {
            ShapeError::UnnamedFields => UNNAMED_FIELDS_MESSAGE,
            ShapeError::UnitStruct => UNIT_STRUCT_MESSAGE,
            ShapeError::Enum => ENUM_MESSAGE,
            ShapeError::Union => UNION_MESSAGE,
        }
    }
}

/// The rejection that a shape meets, if any. Only a struct with named
/// fields meets none.
pub open spec fn shape_error(data: Data) -> Option<ShapeError> {
    match data {
        Data::Struct(Fields::Named(_)) => None,
        Data::Struct(Fields::Unnamed) => Some(ShapeError::UnnamedFields),
        Data::Struct(Fields::Unit) => Some(ShapeError::UnitStruct),
        Data::Enum => Some(ShapeError::Enum),
        Data::Union => Some(ShapeError::Union),
    }
}

/// The names of the named fields of a shape, in declaration order; none for
/// a shape without named fields.
pub open spec fn declared_names(data: Data) -> Seq<Seq<char>> {
    match data {
        Data::Struct(Fields::Named(names)) => names@.map_values(|name: String| name@),
        _ => Seq::empty(),
    }
}

/// The statement that writes one field: a call of the encoder with the
/// field, the field's name as a string literal, and the command.
pub open spec fn statement_text(name: Seq<char>) -> Seq<char> {
    STATEMENT_OPEN@ + name + STATEMENT_KEY@ + name + STATEMENT_CLOSE@
}

/// The statements for a list of fields, one after the other.
pub open spec fn body_text(names: Seq<Seq<char>>) -> Seq<char>
    decreases names.len(),
{
    if names.len() == 0 {
        Seq::empty()
    } else {
        body_text(names.drop_last()) + statement_text(names.last())
    }
}

/// The implementation of the field provider for the type `ident` with the
/// named fields `names`.
pub open spec fn impl_text(ident: Seq<char>, names: Seq<Seq<char>>) -> Seq<char> {
    IMPL_OPEN@ + ident + IMPL_BODY@ + body_text(names) + IMPL_CLOSE@
}

/// Appends the statement that writes the field `name`.
fn push_statement(name: &str, out: &mut String)
    ensures
        final(out)@ == old(out)@ + statement_text(name@),
{
    out.append(STATEMENT_OPEN);
    out.append(name);
    out.append(STATEMENT_KEY);
    out.append(name);
    out.append(STATEMENT_CLOSE);
}

/// The rejection that a shape meets: none for a struct with named fields,
/// for every other shape the reason why it has no routine.
pub fn check_shape(data: &Data) -> (rejection: Option<ShapeError>)
    ensures
        rejection == shape_error(*data),
{
    match data {
        Data::Struct(Fields::Named(_)) => None,
        Data::Struct(Fields::Unnamed) => Some(ShapeError::UnnamedFields),
        Data::Struct(Fields::Unit) => Some(ShapeError::UnitStruct),
        Data::Enum => Some(ShapeError::Enum),
        Data::Union => Some(ShapeError::Union),
    }
}

/// The body of the field-enumeration routine for a struct with named
/// fields: one statement per field, in declaration order.
///
/// There is no routine for any other shape, and the generator is not to be
/// called on one: `check_shape` tells beforehand.
pub fn make_impl(data: &Data) -> (body: String)
    requires
        shape_error(*data) is None,
    ensures
        body@ == body_text(declared_names(*data)),
{
    match data {
        Data::Struct(Fields::Named(names)) => {
            let ghost declared = names@.map_values(|name: String| name@);
            let mut body = String::new();
            let mut i: usize = 0;
            while i < names.len()
                invariant
                    i <= names.len(),
                    declared == names@.map_values(|name: String| name@),
                    body@ == body_text(declared.take(i as int)),
                decreases names.len() - i,
            {
                push_statement(names[i].as_str(), &mut body);
                proof {
                    assert(declared.take(i + 1).drop_last() =~= declared.take(i as int));
                }
                i = i + 1;
            }
            assert(declared.take(i as int) =~= declared);
            body
        },
        _ => unreached(),
    }
}

/// The implementation of the field provider for a struct with named
/// fields: the routine that writes each of them, in declaration order.
///
/// There is no implementation for any other shape, and the generator is not
/// to be called on one: `check_shape` tells beforehand.
pub fn derive_cacheable(input: &DeriveInput) -> (text: String)
    requires
        shape_error(input.data) is None,
    ensures
        text@ == impl_text(input.ident@, declared_names(input.data)),
{
    let body = make_impl(&input.data);
    let mut text = String::from_str(IMPL_OPEN);
    text.append(input.ident.as_str());
    text.append(IMPL_BODY);
    text.append(body.as_str());
    text.append(IMPL_CLOSE);
    text
}

} // verus!
