//! The cache form of a guild.
//!
//! A guild is cached as one flat record. Both upstream forms are brought
//! into it field by field: every field that a form carries is taken from
//! it, and every field that only the complete form carries gets its default
//! where the guild comes in the partial form. The record is keyed by the
//! guild's identifier in the namespace `guild` and written field by field
//! in declaration order.

use vstd::prelude::*;
use crate::cacheable::{Cacheable, RedisFieldProvider, RedisKeyProvider};
use crate::command::cmd_args;
use crate::encode::ToRedisHArgs;
use crate::key::{key_text, lemma_keys_differ, storage_key};
use crate::model::{
    blob_bytes, flag_bits, hash_blob, hash_bytes, id_value, reference_ids, references,
    timestamp_micros, unwrap_flags, unwrap_id, unwrap_timestamp, Guild, PartialGuild,
};
use crate::record::{lemma_record_args_step, record_args, WireField};

verus! {

/// The namespace of the storage keys of guilds.
pub const GUILD_NAMESPACE: &'static str = "guild";

/// A guild as the cache holds it: a flat record of scalars, optional
/// scalars, byte blobs and lists of the identifiers of the entities that the
/// guild refers to.
#[derive(Clone, Debug)]
pub struct CacheableGuild {
    pub afk_timeout: u16,
    pub application_id: Option<u64>,
    pub approximate_member_count: Option<u64>,
    pub approximate_presence_count: Option<u64>,
    pub banner: Option<Vec<u8>>,
    pub channels: Vec<u64>,
    pub default_message_notifications: u8,
    pub description: Option<String>,
    pub discovery_splash: Option<Vec<u8>>,
    pub emojis: Vec<u64>,
    pub explicit_content_filter: u8,
    pub features: Vec<String>,
    pub icon: Option<Vec<u8>>,
    pub id: u64,
    pub joined_at: Option<i64>,
    pub large: Option<bool>,
    pub max_members: Option<u64>,
    pub max_presences: Option<u64>,
    pub max_video_channel_users: Option<u64>,
    pub member_count: Option<u64>,
    pub members: Vec<u64>,
    pub mfa_level: u8,
    pub name: String,
    pub nsfw_level: u8,
    pub owner_id: u64,
    pub owner: Option<bool>,
    pub permissions: Option<u64>,
    pub preferred_locale: String,
    pub premium_progress_bar_enabled: bool,
    pub premium_subscription_count: Option<u64>,
    pub premium_tier: u8,
    pub public_updates_channel_id: Option<u64>,
    pub roles: Vec<u64>,
    pub rules_channel_id: Option<u64>,
    pub safety_alerts_channel_id: Option<u64>,
    pub splash: Option<Vec<u8>>,
    pub stickers: Vec<u64>,
    pub system_channel_flags: u64,
    pub system_channel_id: Option<u64>,
    pub threads: Vec<u64>,
    pub unavailable: bool,
    pub vanity_url_code: Option<String>,
    pub verification_level: u8,
    pub widget_channel_id: Option<u64>,
    pub widget_enabled: Option<bool>,
}

impl CacheableGuild {
    /// Whether this is the cache form of the complete guild `source`: every
    /// field holds what the source holds, wrappers taken off, hashes as
    /// blobs, nested entities reduced to their identifiers.
    pub open spec fn reflects_complete(&self, source: Guild) -> bool {
        &&& self.afk_timeout == source.afk_timeout
        &&& self.application_id == id_value(source.application_id)
        &&& self.approximate_member_count == source.approximate_member_count
        &&& self.approximate_presence_count == source.approximate_presence_count
        &&& blob_bytes(self.banner) == hash_bytes(source.banner)
        &&& self.channels@ == references(source.channels@)
        &&& self.default_message_notifications == source.default_message_notifications
        &&& self.description == source.description
        &&& blob_bytes(self.discovery_splash) == hash_bytes(source.discovery_splash)
        &&& self.emojis@ == references(source.emojis@)
        &&& self.explicit_content_filter == source.explicit_content_filter
        &&& self.features == source.features
        &&& blob_bytes(self.icon) == hash_bytes(source.icon)
        &&& self.id == source.id.value
        &&& self.joined_at == timestamp_micros(source.joined_at)
        &&& self.large == Some(source.large)
        &&& self.max_members == source.max_members
        &&& self.max_presences == source.max_presences
        &&& self.max_video_channel_users == source.max_video_channel_users
        &&& self.member_count == source.member_count
        &&& self.members@ == references(source.members@)
        &&& self.mfa_level == source.mfa_level
        &&& self.name == source.name
        &&& self.nsfw_level == source.nsfw_level
        &&& self.owner_id == source.owner_id.value
        &&& self.owner == source.owner
        &&& self.permissions == flag_bits(source.permissions)
        &&& self.preferred_locale == source.preferred_locale
        &&& self.premium_progress_bar_enabled == source.premium_progress_bar_enabled
        &&& self.premium_subscription_count == source.premium_subscription_count
        &&& self.premium_tier == source.premium_tier
        &&& self.public_updates_channel_id == id_value(source.public_updates_channel_id)
        &&& self.roles@ == references(source.roles@)
        &&& self.rules_channel_id == id_value(source.rules_channel_id)
        &&& self.safety_alerts_channel_id == id_value(source.safety_alerts_channel_id)
        &&& blob_bytes(self.splash) == hash_bytes(source.splash)
        &&& self.stickers@ == references(source.stickers@)
        &&& self.system_channel_flags == source.system_channel_flags.bits
        &&& self.system_channel_id == id_value(source.system_channel_id)
        &&& self.threads@ == references(source.threads@)
        &&& self.unavailable == source.unavailable
        &&& self.vanity_url_code == source.vanity_url_code
        &&& self.verification_level == source.verification_level
        &&& self.widget_channel_id == id_value(source.widget_channel_id)
        &&& self.widget_enabled == source.widget_enabled
    }

    /// Whether this holds every field that the partial guild `source`
    /// carries, as it would hold that of a complete guild.
    pub open spec fn reflects_partial(&self, source: PartialGuild) -> bool {
        &&& self.afk_timeout == source.afk_timeout
        &&& self.application_id == id_value(source.application_id)
        &&& blob_bytes(self.banner) == hash_bytes(source.banner)
        &&& self.default_message_notifications == source.default_message_notifications
        &&& self.description == source.description
        &&& blob_bytes(self.discovery_splash) == hash_bytes(source.discovery_splash)
        &&& self.emojis@ == references(source.emojis@)
        &&& self.explicit_content_filter == source.explicit_content_filter
        &&& self.features == source.features
        &&& blob_bytes(self.icon) == hash_bytes(source.icon)
        &&& self.id == source.id.value
        &&& self.max_members == source.max_members
        &&& self.max_presences == source.max_presences
        &&& self.member_count == source.member_count
        &&& self.mfa_level == source.mfa_level
        &&& self.name == source.name
        &&& self.nsfw_level == source.nsfw_level
        &&& self.owner_id == source.owner_id.value
        &&& self.owner == source.owner
        &&& self.permissions == flag_bits(source.permissions)
        &&& self.preferred_locale == source.preferred_locale
        &&& self.premium_progress_bar_enabled == source.premium_progress_bar_enabled
        &&& self.premium_subscription_count == source.premium_subscription_count
        &&& self.premium_tier == source.premium_tier
        &&& self.public_updates_channel_id == id_value(source.public_updates_channel_id)
        &&& self.roles@ == references(source.roles@)
        &&& self.rules_channel_id == id_value(source.rules_channel_id)
        &&& blob_bytes(self.splash) == hash_bytes(source.splash)
        &&& self.system_channel_flags == source.system_channel_flags.bits
        &&& self.system_channel_id == id_value(source.system_channel_id)
        &&& self.vanity_url_code == source.vanity_url_code
        &&& self.verification_level == source.verification_level
        &&& self.widget_channel_id == id_value(source.widget_channel_id)
        &&& self.widget_enabled == source.widget_enabled
    }

    /// Whether every aggregate field, which only the complete form carries,
    /// holds its default: lists are empty, optional values absent, the
    /// unavailability flag off.
    pub open spec fn aggregates_defaulted(&self) -> bool {
        &&& self.approximate_member_count is None
        &&& self.approximate_presence_count is None
        &&& self.channels@.len() == 0
        &&& self.joined_at is None
        &&& self.large is None
        &&& self.max_video_channel_users is None
        &&& self.members@.len() == 0
        &&& self.safety_alerts_channel_id is None
        &&& self.stickers@.len() == 0
        &&& self.threads@.len() == 0
        &&& !self.unavailable
    }
}

/// The conversion of the complete form. Its result is stated by
/// `reflects_complete`.
impl From<Guild> for CacheableGuild {
    fn from(value: Guild) -> (result: Self)
        ensures
            result.reflects_complete(value),
    {
        Self {
            afk_timeout: value.afk_timeout,
            application_id: unwrap_id(value.application_id),
            approximate_member_count: value.approximate_member_count,
            approximate_presence_count: value.approximate_presence_count,
            banner: hash_blob(value.banner),
            channels: reference_ids(&value.channels),
            default_message_notifications: value.default_message_notifications,
            description: value.description,
            discovery_splash: hash_blob(value.discovery_splash),
            emojis: reference_ids(&value.emojis),
            explicit_content_filter: value.explicit_content_filter,
            features: value.features,
            icon: hash_blob(value.icon),
            id: value.id.value,
            joined_at: unwrap_timestamp(value.joined_at),
            large: Some(value.large),
            max_members: value.max_members,
            max_presences: value.max_presences,
            max_video_channel_users: value.max_video_channel_users,
            member_count: value.member_count,
            members: reference_ids(&value.members),
            mfa_level: value.mfa_level,
            name: value.name,
            nsfw_level: value.nsfw_level,
            owner_id: value.owner_id.value,
            owner: value.owner,
            permissions: unwrap_flags(value.permissions),
            preferred_locale: value.preferred_locale,
            premium_progress_bar_enabled: value.premium_progress_bar_enabled,
            premium_subscription_count: value.premium_subscription_count,
            premium_tier: value.premium_tier,
            public_updates_channel_id: unwrap_id(value.public_updates_channel_id),
            roles: reference_ids(&value.roles),
            rules_channel_id: unwrap_id(value.rules_channel_id),
            safety_alerts_channel_id: unwrap_id(value.safety_alerts_channel_id),
            splash: hash_blob(value.splash),
            stickers: reference_ids(&value.stickers),
            system_channel_flags: value.system_channel_flags.bits,
            system_channel_id: unwrap_id(value.system_channel_id),
            threads: reference_ids(&value.threads),
            unavailable: value.unavailable,
            vanity_url_code: value.vanity_url_code,
            verification_level: value.verification_level,
            widget_channel_id: unwrap_id(value.widget_channel_id),
            widget_enabled: value.widget_enabled,
        }
    }
}

/// The cache form holds growable buffers, which have no value in
/// specifications that `from_spec` could return: the contract of `from`
/// states the result instead.
impl vstd::std_specs::convert::FromSpecImpl<Guild> for CacheableGuild {
    open spec fn obeys_from_spec() -> bool {
        false
    }

    open spec fn from_spec(value: Guild) -> Self {
        arbitrary()
    }
}

/// The conversion of the partial form. Every field that the partial form
/// carries is taken over as from the complete form. Every aggregate field,
/// which the partial form does not carry, gets its default.
impl From<PartialGuild> for CacheableGuild {
    fn from(value: PartialGuild) -> (result: Self)
        ensures
            result.reflects_partial(value),
            result.aggregates_defaulted(),
    {
        Self {
            afk_timeout: value.afk_timeout,
            application_id: unwrap_id(value.application_id),
            approximate_member_count: None,
            approximate_presence_count: None,
            banner: hash_blob(value.banner),
            channels: Vec::new(),
            default_message_notifications: value.default_message_notifications,
            description: value.description,
            discovery_splash: hash_blob(value.discovery_splash),
            emojis: reference_ids(&value.emojis),
            explicit_content_filter: value.explicit_content_filter,
            features: value.features,
            icon: hash_blob(value.icon),
            id: value.id.value,
            joined_at: None,
            large: None,
            max_members: value.max_members,
            max_presences: value.max_presences,
            max_video_channel_users: None,
            member_count: value.member_count,
            members: Vec::new(),
            mfa_level: value.mfa_level,
            name: value.name,
            nsfw_level: value.nsfw_level,
            owner_id: value.owner_id.value,
            owner: value.owner,
            permissions: unwrap_flags(value.permissions),
            preferred_locale: value.preferred_locale,
            premium_progress_bar_enabled: value.premium_progress_bar_enabled,
            premium_subscription_count: value.premium_subscription_count,
            premium_tier: value.premium_tier,
            public_updates_channel_id: unwrap_id(value.public_updates_channel_id),
            roles: reference_ids(&value.roles),
            rules_channel_id: unwrap_id(value.rules_channel_id),
            safety_alerts_channel_id: None,
            splash: hash_blob(value.splash),
            stickers: Vec::new(),
            system_channel_flags: value.system_channel_flags.bits,
            system_channel_id: unwrap_id(value.system_channel_id),
            threads: Vec::new(),
            unavailable: false,
            vanity_url_code: value.vanity_url_code,
            verification_level: value.verification_level,
            widget_channel_id: unwrap_id(value.widget_channel_id),
            widget_enabled: value.widget_enabled,
        }
    }
}

/// As for the complete form, the contract of `from` states the result.
impl vstd::std_specs::convert::FromSpecImpl<PartialGuild> for CacheableGuild {
    open spec fn obeys_from_spec() -> bool {
        false
    }

    open spec fn from_spec(value: PartialGuild) -> Self {
        arbitrary()
    }
}

/// Writes field `k` of a record whose earlier fields are written already.
fn write_field<T: ToRedisHArgs>(
    value: &T,
    name: &str,
    cmd: &mut redis::Cmd,
    Ghost(base): Ghost<Seq<Seq<u8>>>,
    Ghost(fields): Ghost<Seq<WireField>>,
    Ghost(k): Ghost<int>,
)
    requires
        0 <= k < fields.len(),
        fields[k] == (WireField { name: name@, value: value.wire_value() }),
        cmd_args(*old(cmd)) == base + record_args(fields.take(k)),
    ensures
        cmd_args(*final(cmd)) == base + record_args(fields.take(k + 1)),
{
    value.write_redis_hargs(name, cmd);
    proof {
        lemma_record_args_step(fields, k);
    }
}

impl RedisFieldProvider for CacheableGuild {
    open spec fn field_names() -> Seq<Seq<char>> {
        seq![
            "afk_timeout"@,
            "application_id"@,
            "approximate_member_count"@,
            "approximate_presence_count"@,
            "banner"@,
            "channels"@,
            "default_message_notifications"@,
            "description"@,
            "discovery_splash"@,
            "emojis"@,
            "explicit_content_filter"@,
            "features"@,
            "icon"@,
            "id"@,
            "joined_at"@,
            "large"@,
            "max_members"@,
            "max_presences"@,
            "max_video_channel_users"@,
            "member_count"@,
            "members"@,
            "mfa_level"@,
            "name"@,
            "nsfw_level"@,
            "owner_id"@,
            "owner"@,
            "permissions"@,
            "preferred_locale"@,
            "premium_progress_bar_enabled"@,
            "premium_subscription_count"@,
            "premium_tier"@,
            "public_updates_channel_id"@,
            "roles"@,
            "rules_channel_id"@,
            "safety_alerts_channel_id"@,
            "splash"@,
            "stickers"@,
            "system_channel_flags"@,
            "system_channel_id"@,
            "threads"@,
            "unavailable"@,
            "vanity_url_code"@,
            "verification_level"@,
            "widget_channel_id"@,
            "widget_enabled"@,
        ]
    }

    open spec fn wire_fields(&self) -> Seq<WireField> {
        seq![
            WireField { name: "afk_timeout"@, value: self.afk_timeout.wire_value() },
            WireField { name: "application_id"@, value: self.application_id.wire_value() },
            WireField { name: "approximate_member_count"@, value: self.approximate_member_count.wire_value() },
            WireField { name: "approximate_presence_count"@, value: self.approximate_presence_count.wire_value() },
            WireField { name: "banner"@, value: self.banner.wire_value() },
            WireField { name: "channels"@, value: self.channels.wire_value() },
            WireField { name: "default_message_notifications"@, value: self.default_message_notifications.wire_value() },
            WireField { name: "description"@, value: self.description.wire_value() },
            WireField { name: "discovery_splash"@, value: self.discovery_splash.wire_value() },
            WireField { name: "emojis"@, value: self.emojis.wire_value() },
            WireField { name: "explicit_content_filter"@, value: self.explicit_content_filter.wire_value() },
            WireField { name: "features"@, value: self.features.wire_value() },
            WireField { name: "icon"@, value: self.icon.wire_value() },
            WireField { name: "id"@, value: self.id.wire_value() },
            WireField { name: "joined_at"@, value: self.joined_at.wire_value() },
            WireField { name: "large"@, value: self.large.wire_value() },
            WireField { name: "max_members"@, value: self.max_members.wire_value() },
            WireField { name: "max_presences"@, value: self.max_presences.wire_value() },
            WireField { name: "max_video_channel_users"@, value: self.max_video_channel_users.wire_value() },
            WireField { name: "member_count"@, value: self.member_count.wire_value() },
            WireField { name: "members"@, value: self.members.wire_value() },
            WireField { name: "mfa_level"@, value: self.mfa_level.wire_value() },
            WireField { name: "name"@, value: self.name.wire_value() },
            WireField { name: "nsfw_level"@, value: self.nsfw_level.wire_value() },
            WireField { name: "owner_id"@, value: self.owner_id.wire_value() },
            WireField { name: "owner"@, value: self.owner.wire_value() },
            WireField { name: "permissions"@, value: self.permissions.wire_value() },
            WireField { name: "preferred_locale"@, value: self.preferred_locale.wire_value() },
            WireField { name: "premium_progress_bar_enabled"@, value: self.premium_progress_bar_enabled.wire_value() },
            WireField { name: "premium_subscription_count"@, value: self.premium_subscription_count.wire_value() },
            WireField { name: "premium_tier"@, value: self.premium_tier.wire_value() },
            WireField { name: "public_updates_channel_id"@, value: self.public_updates_channel_id.wire_value() },
            WireField { name: "roles"@, value: self.roles.wire_value() },
            WireField { name: "rules_channel_id"@, value: self.rules_channel_id.wire_value() },
            WireField { name: "safety_alerts_channel_id"@, value: self.safety_alerts_channel_id.wire_value() },
            WireField { name: "splash"@, value: self.splash.wire_value() },
            WireField { name: "stickers"@, value: self.stickers.wire_value() },
            WireField { name: "system_channel_flags"@, value: self.system_channel_flags.wire_value() },
            WireField { name: "system_channel_id"@, value: self.system_channel_id.wire_value() },
            WireField { name: "threads"@, value: self.threads.wire_value() },
            WireField { name: "unavailable"@, value: self.unavailable.wire_value() },
            WireField { name: "vanity_url_code"@, value: self.vanity_url_code.wire_value() },
            WireField { name: "verification_level"@, value: self.verification_level.wire_value() },
            WireField { name: "widget_channel_id"@, value: self.widget_channel_id.wire_value() },
            WireField { name: "widget_enabled"@, value: self.widget_enabled.wire_value() },
        ]
    }

    /// Length and first letter tell any two field names apart.
    proof fn lemma_fields_declared(&self) {
        let fields = self.wire_fields();
        reveal_strlit("afk_timeout");
        assert(fields[0].name.len() == 11 && fields[0].name[0] == 'a');
        reveal_strlit("application_id");
        assert(fields[1].name.len() == 14 && fields[1].name[0] == 'a');
        reveal_strlit("approximate_member_count");
        assert(fields[2].name.len() == 24 && fields[2].name[0] == 'a');
        reveal_strlit("approximate_presence_count");
        assert(fields[3].name.len() == 26 && fields[3].name[0] == 'a');
        reveal_strlit("banner");
        assert(fields[4].name.len() == 6 && fields[4].name[0] == 'b');
        reveal_strlit("channels");
        assert(fields[5].name.len() == 8 && fields[5].name[0] == 'c');
        reveal_strlit("default_message_notifications");
        assert(fields[6].name.len() == 29 && fields[6].name[0] == 'd');
        reveal_strlit("description");
        assert(fields[7].name.len() == 11 && fields[7].name[0] == 'd');
        reveal_strlit("discovery_splash");
        assert(fields[8].name.len() == 16 && fields[8].name[0] == 'd');
        reveal_strlit("emojis");
        assert(fields[9].name.len() == 6 && fields[9].name[0] == 'e');
        reveal_strlit("explicit_content_filter");
        assert(fields[10].name.len() == 23 && fields[10].name[0] == 'e');
        reveal_strlit("features");
        assert(fields[11].name.len() == 8 && fields[11].name[0] == 'f');
        reveal_strlit("icon");
        assert(fields[12].name.len() == 4 && fields[12].name[0] == 'i');
        reveal_strlit("id");
        assert(fields[13].name.len() == 2 && fields[13].name[0] == 'i');
        reveal_strlit("joined_at");
        assert(fields[14].name.len() == 9 && fields[14].name[0] == 'j');
        reveal_strlit("large");
        assert(fields[15].name.len() == 5 && fields[15].name[0] == 'l');
        reveal_strlit("max_members");
        assert(fields[16].name.len() == 11 && fields[16].name[0] == 'm');
        reveal_strlit("max_presences");
        assert(fields[17].name.len() == 13 && fields[17].name[0] == 'm');
        reveal_strlit("max_video_channel_users");
        assert(fields[18].name.len() == 23 && fields[18].name[0] == 'm');
        reveal_strlit("member_count");
        assert(fields[19].name.len() == 12 && fields[19].name[0] == 'm');
        reveal_strlit("members");
        assert(fields[20].name.len() == 7 && fields[20].name[0] == 'm');
        reveal_strlit("mfa_level");
        assert(fields[21].name.len() == 9 && fields[21].name[0] == 'm');
        reveal_strlit("name");
        assert(fields[22].name.len() == 4 && fields[22].name[0] == 'n');
        reveal_strlit("nsfw_level");
        assert(fields[23].name.len() == 10 && fields[23].name[0] == 'n');
        reveal_strlit("owner_id");
        assert(fields[24].name.len() == 8 && fields[24].name[0] == 'o');
        reveal_strlit("owner");
        assert(fields[25].name.len() == 5 && fields[25].name[0] == 'o');
        reveal_strlit("permissions");
        assert(fields[26].name.len() == 11 && fields[26].name[0] == 'p');
        reveal_strlit("preferred_locale");
        assert(fields[27].name.len() == 16 && fields[27].name[0] == 'p');
        reveal_strlit("premium_progress_bar_enabled");
        assert(fields[28].name.len() == 28 && fields[28].name[0] == 'p');
        reveal_strlit("premium_subscription_count");
        assert(fields[29].name.len() == 26 && fields[29].name[0] == 'p');
        reveal_strlit("premium_tier");
        assert(fields[30].name.len() == 12 && fields[30].name[0] == 'p');
        reveal_strlit("public_updates_channel_id");
        assert(fields[31].name.len() == 25 && fields[31].name[0] == 'p');
        reveal_strlit("roles");
        assert(fields[32].name.len() == 5 && fields[32].name[0] == 'r');
        reveal_strlit("rules_channel_id");
        assert(fields[33].name.len() == 16 && fields[33].name[0] == 'r');
        reveal_strlit("safety_alerts_channel_id");
        assert(fields[34].name.len() == 24 && fields[34].name[0] == 's');
        reveal_strlit("splash");
        assert(fields[35].name.len() == 6 && fields[35].name[0] == 's');
        reveal_strlit("stickers");
        assert(fields[36].name.len() == 8 && fields[36].name[0] == 's');
        reveal_strlit("system_channel_flags");
        assert(fields[37].name.len() == 20 && fields[37].name[0] == 's');
        reveal_strlit("system_channel_id");
        assert(fields[38].name.len() == 17 && fields[38].name[0] == 's');
        reveal_strlit("threads");
        assert(fields[39].name.len() == 7 && fields[39].name[0] == 't');
        reveal_strlit("unavailable");
        assert(fields[40].name.len() == 11 && fields[40].name[0] == 'u');
        reveal_strlit("vanity_url_code");
        assert(fields[41].name.len() == 15 && fields[41].name[0] == 'v');
        reveal_strlit("verification_level");
        assert(fields[42].name.len() == 18 && fields[42].name[0] == 'v');
        reveal_strlit("widget_channel_id");
        assert(fields[43].name.len() == 17 && fields[43].name[0] == 'w');
        reveal_strlit("widget_enabled");
        assert(fields[44].name.len() == 14 && fields[44].name[0] == 'w');
    }

    fn add_fields_to_cmd(self, cmd: &mut redis::Cmd) {
        let ghost base = cmd_args(*cmd);
        let ghost fields = self.wire_fields();
        write_field(&self.afk_timeout, "afk_timeout", cmd, Ghost(base), Ghost(fields), Ghost(0));
        write_field(&self.application_id, "application_id", cmd, Ghost(base), Ghost(fields), Ghost(1));
        write_field(&self.approximate_member_count, "approximate_member_count", cmd, Ghost(base), Ghost(fields), Ghost(2));
        write_field(&self.approximate_presence_count, "approximate_presence_count", cmd, Ghost(base), Ghost(fields), Ghost(3));
        write_field(&self.banner, "banner", cmd, Ghost(base), Ghost(fields), Ghost(4));
        write_field(&self.channels, "channels", cmd, Ghost(base), Ghost(fields), Ghost(5));
        write_field(&self.default_message_notifications, "default_message_notifications", cmd, Ghost(base), Ghost(fields), Ghost(6));
        write_field(&self.description, "description", cmd, Ghost(base), Ghost(fields), Ghost(7));
        write_field(&self.discovery_splash, "discovery_splash", cmd, Ghost(base), Ghost(fields), Ghost(8));
        write_field(&self.emojis, "emojis", cmd, Ghost(base), Ghost(fields), Ghost(9));
        write_field(&self.explicit_content_filter, "explicit_content_filter", cmd, Ghost(base), Ghost(fields), Ghost(10));
        write_field(&self.features, "features", cmd, Ghost(base), Ghost(fields), Ghost(11));
        write_field(&self.icon, "icon", cmd, Ghost(base), Ghost(fields), Ghost(12));
        write_field(&self.id, "id", cmd, Ghost(base), Ghost(fields), Ghost(13));
        write_field(&self.joined_at, "joined_at", cmd, Ghost(base), Ghost(fields), Ghost(14));
        write_field(&self.large, "large", cmd, Ghost(base), Ghost(fields), Ghost(15));
        write_field(&self.max_members, "max_members", cmd, Ghost(base), Ghost(fields), Ghost(16));
        write_field(&self.max_presences, "max_presences", cmd, Ghost(base), Ghost(fields), Ghost(17));
        write_field(&self.max_video_channel_users, "max_video_channel_users", cmd, Ghost(base), Ghost(fields), Ghost(18));
        write_field(&self.member_count, "member_count", cmd, Ghost(base), Ghost(fields), Ghost(19));
        write_field(&self.members, "members", cmd, Ghost(base), Ghost(fields), Ghost(20));
        write_field(&self.mfa_level, "mfa_level", cmd, Ghost(base), Ghost(fields), Ghost(21));
        write_field(&self.name, "name", cmd, Ghost(base), Ghost(fields), Ghost(22));
        write_field(&self.nsfw_level, "nsfw_level", cmd, Ghost(base), Ghost(fields), Ghost(23));
        write_field(&self.owner_id, "owner_id", cmd, Ghost(base), Ghost(fields), Ghost(24));
        write_field(&self.owner, "owner", cmd, Ghost(base), Ghost(fields), Ghost(25));
        write_field(&self.permissions, "permissions", cmd, Ghost(base), Ghost(fields), Ghost(26));
        write_field(&self.preferred_locale, "preferred_locale", cmd, Ghost(base), Ghost(fields), Ghost(27));
        write_field(&self.premium_progress_bar_enabled, "premium_progress_bar_enabled", cmd, Ghost(base), Ghost(fields), Ghost(28));
        write_field(&self.premium_subscription_count, "premium_subscription_count", cmd, Ghost(base), Ghost(fields), Ghost(29));
        write_field(&self.premium_tier, "premium_tier", cmd, Ghost(base), Ghost(fields), Ghost(30));
        write_field(&self.public_updates_channel_id, "public_updates_channel_id", cmd, Ghost(base), Ghost(fields), Ghost(31));
        write_field(&self.roles, "roles", cmd, Ghost(base), Ghost(fields), Ghost(32));
        write_field(&self.rules_channel_id, "rules_channel_id", cmd, Ghost(base), Ghost(fields), Ghost(33));
        write_field(&self.safety_alerts_channel_id, "safety_alerts_channel_id", cmd, Ghost(base), Ghost(fields), Ghost(34));
        write_field(&self.splash, "splash", cmd, Ghost(base), Ghost(fields), Ghost(35));
        write_field(&self.stickers, "stickers", cmd, Ghost(base), Ghost(fields), Ghost(36));
        write_field(&self.system_channel_flags, "system_channel_flags", cmd, Ghost(base), Ghost(fields), Ghost(37));
        write_field(&self.system_channel_id, "system_channel_id", cmd, Ghost(base), Ghost(fields), Ghost(38));
        write_field(&self.threads, "threads", cmd, Ghost(base), Ghost(fields), Ghost(39));
        write_field(&self.unavailable, "unavailable", cmd, Ghost(base), Ghost(fields), Ghost(40));
        write_field(&self.vanity_url_code, "vanity_url_code", cmd, Ghost(base), Ghost(fields), Ghost(41));
        write_field(&self.verification_level, "verification_level", cmd, Ghost(base), Ghost(fields), Ghost(42));
        write_field(&self.widget_channel_id, "widget_channel_id", cmd, Ghost(base), Ghost(fields), Ghost(43));
        write_field(&self.widget_enabled, "widget_enabled", cmd, Ghost(base), Ghost(fields), Ghost(44));
        assert(fields.take(45) =~= fields);
    }
}

impl RedisKeyProvider for CacheableGuild {
    open spec fn key_spec(&self) -> Seq<char> {
        key_text(GUILD_NAMESPACE@, self.id)
    }

    fn get_key(&self) -> (key: String) {
        storage_key(GUILD_NAMESPACE, self.id)
    }
}

impl Cacheable for CacheableGuild {
}

/// Two cached guilds have the same storage key exactly when they have the
/// same identifier.
pub proof fn lemma_guild_keys(a: CacheableGuild, b: CacheableGuild)
    ensures
        a.key_spec() == b.key_spec() <==> a.id == b.id,
{
    if a.id != b.id {
        lemma_keys_differ(GUILD_NAMESPACE@, a.id, b.id);
    }
}

} // verus!
