//! The upstream forms of a guild.
//!
//! A guild arrives in one of two forms. The complete form is a full
//! snapshot: it carries the guild's own settings and the aggregate data
//! around it, such as its channels, its members and the counts derived from
//! them. The partial form carries the settings and little else. Both hold
//! their values the way the source hands them over: identifiers, flag sets,
//! timestamps and image hashes in wrappers, the entities that the guild
//! refers to as nested records. Levels are held as the numbers that the
//! source assigns to them, features by their names.

use vstd::prelude::*;

verus! {

/// The identifier of an upstream entity.
#[derive(Clone, Copy, Debug, PartialEq, Eq)]
pub struct Id {
    pub value: u64,
}

/// A set of flags, one per bit.
#[derive(Clone, Copy, Debug, PartialEq, Eq)]
pub struct Flags {
    pub bits: u64,
}

/// A point in time, counted in microseconds from the Unix epoch.
#[derive(Clone, Copy, Debug, PartialEq, Eq)]
pub struct Timestamp {
    pub micros: i64,
}

/// The hash of an image: sixteen raw bytes.
#[derive(Clone, Copy, Debug, PartialEq, Eq)]
pub struct ImageHash {
    pub bytes: [u8; 16],
}

/// A channel or thread of a guild.
#[derive(Clone, Debug)]
pub struct Channel {
    pub id: Id,
}

/// A custom emoji of a guild.
#[derive(Clone, Debug)]
pub struct Emoji {
    pub id: Id,
}

/// A user account.
#[derive(Clone, Debug)]
pub struct User {
    pub id: Id,
}

/// The membership of a user in a guild.
#[derive(Clone, Debug)]
pub struct Member {
    pub user: User,
}

/// A role of a guild.
#[derive(Clone, Debug)]
pub struct Role {
    pub id: Id,
}

/// A sticker of a guild.
#[derive(Clone, Debug)]
pub struct Sticker {
    pub id: Id,
}

/// An upstream entity that the cache keeps by reference: of the whole record
/// only the identifier is stored.
pub trait Referenced {
    /// The identifier under which this entity is referred to.
    spec fn reference(&self) -> u64;

    /// The identifier under which this entity is referred to.
    fn reference_id(&self) -> (id: u64)
        ensures
            id == self.reference(),
    ;
}

impl Referenced for Channel {
    open spec fn reference(&self) -> u64 {
        self.id.value
    }

    fn reference_id(&self) -> (id: u64) {
        self.id.value
    }
}

impl Referenced for Emoji {
    open spec fn reference(&self) -> u64 {
        self.id.value
    }

    fn reference_id(&self) -> (id: u64) {
        self.id.value
    }
}

/// A member is referred to by the identifier of its user.
impl Referenced for Member {
    open spec fn reference(&self) -> u64 {
        self.user.id.value
    }

    fn reference_id(&self) -> (id: u64) {
        self.user.id.value
    }
}

impl Referenced for Role {
    open spec fn reference(&self) -> u64 {
        self.id.value
    }

    fn reference_id(&self) -> (id: u64) {
        self.id.value
    }
}

impl Referenced for Sticker {
    open spec fn reference(&self) -> u64 {
        self.id.value
    }

    fn reference_id(&self) -> (id: u64) {
        self.id.value
    }
}

/// The identifiers of a list of entities, in the order of the list.
pub open spec fn references<E: Referenced>(entities: Seq<E>) -> Seq<u64> {
    entities.map_values(|entity: E| entity.reference())
}

/// Reduces a list of entities to the list of their identifiers.
pub fn reference_ids<E: Referenced>(entities: &Vec<E>) -> (ids: Vec<u64>)
    ensures
        ids@ == references(entities@),
{
    let mut ids: Vec<u64> = Vec::new();
    let mut i: usize = 0;
    while i < entities.len()
        invariant
            i <= entities.len(),
            ids@ == references(entities@.take(i as int)),
        decreases entities.len() - i,
    {
        ids.push(entities[i].reference_id());
        i = i + 1;
    }
    ids
}

/// The number inside an optional identifier.
pub open spec fn id_value(id: Option<Id>) -> Option<u64> {
    match id {
        Some(id) => Some(id.value),
        None => None,
    }
}

/// The bits of an optional flag set.
pub open spec fn flag_bits(flags: Option<Flags>) -> Option<u64> {
    match flags {
        Some(flags) => Some(flags.bits),
        None => None,
    }
}

/// The microseconds of an optional timestamp.
pub open spec fn timestamp_micros(time: Option<Timestamp>) -> Option<i64> {
    match time {
        Some(time) => Some(time.micros),
        None => None,
    }
}

/// The bytes of an optional image hash.
pub open spec fn hash_bytes(hash: Option<ImageHash>) -> Option<Seq<u8>> {
    match hash {
        Some(hash) => Some(hash.bytes@),
        None => None,
    }
}

/// The bytes of an optional blob.
pub open spec fn blob_bytes(blob: Option<Vec<u8>>) -> Option<Seq<u8>> {
    match blob {
        Some(bytes) => Some(bytes@),
        None => None,
    }
}

/// Unwraps an optional identifier. An absent identifier stays absent.
pub fn unwrap_id(id: Option<Id>) -> (value: Option<u64>)
    ensures
        value == id_value(id),
{
    match id {
        Some(id) => Some(id.value),
        None => None,
    }
}

/// Unwraps an optional flag set. An absent set stays absent.
pub fn unwrap_flags(flags: Option<Flags>) -> (bits: Option<u64>)
    ensures
        bits == flag_bits(flags),
{
    match flags {
        Some(flags) => Some(flags.bits),
        None => None,
    }
}

/// Unwraps an optional timestamp. An absent timestamp stays absent.
pub fn unwrap_timestamp(time: Option<Timestamp>) -> (micros: Option<i64>)
    ensures
        micros == timestamp_micros(time),
{
    match time {
        Some(time) => Some(time.micros),
        None => None,
    }
}

/// Copies the bytes of an optional image hash into a blob. An absent hash
/// gives no blob.
pub fn hash_blob(hash: Option<ImageHash>) -> (blob: Option<Vec<u8>>)
    ensures
        blob_bytes(blob) == hash_bytes(hash),
{
    match hash {
        Some(hash) => {
            let mut bytes: Vec<u8> = Vec::new();
            let mut i: usize = 0;
            while i < 16
                invariant
                    i <= 16,
                    bytes@ == hash.bytes@.take(i as int),
                decreases 16 - i,
            {
                bytes.push(hash.bytes[i]);
                i = i + 1;
            }
            Some(bytes)
        },
        None => None,
    }
}

/// The complete form of a guild.
#[derive(Clone, Debug)]
pub struct Guild {
    pub afk_timeout: u16,
    pub application_id: Option<Id>,
    pub approximate_member_count: Option<u64>,
    pub approximate_presence_count: Option<u64>,
    pub banner: Option<ImageHash>,
    pub channels: Vec<Channel>,
    pub default_message_notifications: u8,
    pub description: Option<String>,
    pub discovery_splash: Option<ImageHash>,
    pub emojis: Vec<Emoji>,
    pub explicit_content_filter: u8,
    pub features: Vec<String>,
    pub icon: Option<ImageHash>,
    pub id: Id,
    pub joined_at: Option<Timestamp>,
    pub large: bool,
    pub max_members: Option<u64>,
    pub max_presences: Option<u64>,
    pub max_video_channel_users: Option<u64>,
    pub member_count: Option<u64>,
    pub members: Vec<Member>,
    pub mfa_level: u8,
    pub name: String,
    pub nsfw_level: u8,
    pub owner_id: Id,
    pub owner: Option<bool>,
    pub permissions: Option<Flags>,
    pub preferred_locale: String,
    pub premium_progress_bar_enabled: bool,
    pub premium_subscription_count: Option<u64>,
    pub premium_tier: u8,
    pub public_updates_channel_id: Option<Id>,
    pub roles: Vec<Role>,
    pub rules_channel_id: Option<Id>,
    pub safety_alerts_channel_id: Option<Id>,
    pub splash: Option<ImageHash>,
    pub stickers: Vec<Sticker>,
    pub system_channel_flags: Flags,
    pub system_channel_id: Option<Id>,
    pub threads: Vec<Channel>,
    pub unavailable: bool,
    pub vanity_url_code: Option<String>,
    pub verification_level: u8,
    pub widget_channel_id: Option<Id>,
    pub widget_enabled: Option<bool>,
}

/// The partial form of a guild: its settings with its roles, emojis and
/// features, without the aggregate data.
#[derive(Clone, Debug)]
pub struct PartialGuild {
    pub afk_timeout: u16,
    pub application_id: Option<Id>,
    pub banner: Option<ImageHash>,
    pub default_message_notifications: u8,
    pub description: Option<String>,
    pub discovery_splash: Option<ImageHash>,
    pub emojis: Vec<Emoji>,
    pub explicit_content_filter: u8,
    pub features: Vec<String>,
    pub icon: Option<ImageHash>,
    pub id: Id,
    pub max_members: Option<u64>,
    pub max_presences: Option<u64>,
    pub member_count: Option<u64>,
    pub mfa_level: u8,
    pub name: String,
    pub nsfw_level: u8,
    pub owner_id: Id,
    pub owner: Option<bool>,
    pub permissions: Option<Flags>,
    pub preferred_locale: String,
    pub premium_progress_bar_enabled: bool,
    pub premium_subscription_count: Option<u64>,
    pub premium_tier: u8,
    pub public_updates_channel_id: Option<Id>,
    pub roles: Vec<Role>,
    pub rules_channel_id: Option<Id>,
    pub splash: Option<ImageHash>,
    pub system_channel_flags: Flags,
    pub system_channel_id: Option<Id>,
    pub vanity_url_code: Option<String>,
    pub verification_level: u8,
    pub widget_channel_id: Option<Id>,
    pub widget_enabled: Option<bool>,
}

} // verus!
