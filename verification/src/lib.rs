//! A cache layer for flat records.
//!
//! An entity is stored as a hash-style record under a storage key. The
//! record is written into a command buffer field by field: each field value
//! is encoded by its type, under the field's name as key. The routine that
//! walks the fields of a type is generated from the type's shape.
//!
//! - `decimal`, `list`: the text forms of numbers and of lists.
//! - `command`: the command buffer.
//! - `encode`: the per-type encoder.
//! - `record`: the wire record of an entity and what holds of it.
//! - `key`: storage keys.
//! - `cacheable`: the traits of a storable entity.
//! - `derive`: the generator of field-enumeration routines.
//! - `model`, `guild`: the upstream forms of a guild and its cache form.

pub mod cacheable;
pub mod command;
pub mod decimal;
pub mod derive;
pub mod encode;
pub mod guild;
pub mod key;
pub mod list;
pub mod model;
pub mod record;
