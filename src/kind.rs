use crate::event::{kind_of, Event};
use vstd::prelude::*;

verus! {

/// The number of event kinds.
pub const EVENT_KIND_COUNT: usize = 79;

/// The kinds of gateway events, in the gateway library's order.
#[derive(Clone, Copy, Debug, PartialEq, Eq, Hash, Structural)]
pub enum EventKind {
    CommandPermissionsUpdate,
    AutoModRuleCreate,
    AutoModRuleUpdate,
    AutoModRuleDelete,
    AutoModActionExecution,
    CacheReady,
    ShardsReady,
    ChannelCreate,
    CategoryCreate,
    CategoryDelete,
    ChannelDelete,
    ChannelPinsUpdate,
    ChannelUpdate,
    GuildAuditLogEntryCreate,
    GuildBanAddition,
    GuildBanRemoval,
    GuildCreate,
    GuildDelete,
    GuildEmojisUpdate,
    GuildIntegrationsUpdate,
    GuildMemberAddition,
    GuildMemberRemoval,
    GuildMemberUpdate,
    GuildMembersChunk,
    GuildRoleCreate,
    GuildRoleDelete,
    GuildRoleUpdate,
    GuildStickersUpdate,
    GuildUpdate,
    InviteCreate,
    InviteDelete,
    Message,
    MessageDelete,
    MessageDeleteBulk,
    MessageUpdate,
    ReactionAdd,
    ReactionRemove,
    ReactionRemoveAll,
    ReactionRemoveEmoji,
    PresenceReplace,
    PresenceUpdate,
    Ready,
    Resume,
    ShardStageUpdate,
    SoundboardSounds,
    SoundboardSoundCreate,
    SoundboardSoundUpdate,
    SoundboardSoundsUpdate,
    SoundboardSoundDelete,
    TypingStart,
    UserUpdate,
    VoiceServerUpdate,
    VoiceStateUpdate,
    VoiceChannelStatusUpdate,
    WebhookUpdate,
    InteractionCreate,
    IntegrationCreate,
    IntegrationUpdate,
    IntegrationDelete,
    StageInstanceCreate,
    StageInstanceUpdate,
    StageInstanceDelete,
    ThreadCreate,
    ThreadUpdate,
    ThreadDelete,
    ThreadListSync,
    ThreadMemberUpdate,
    ThreadMembersUpdate,
    GuildScheduledEventCreate,
    GuildScheduledEventUpdate,
    GuildScheduledEventDelete,
    GuildScheduledEventUserAdd,
    GuildScheduledEventUserRemove,
    EntitlementCreate,
    EntitlementUpdate,
    EntitlementDelete,
    MessagePollVoteAdd,
    MessagePollVoteRemove,
    Ratelimit,
}

/// The kind at position `i` of the registry.
pub open spec fn kind_at(i: int) -> EventKind {
    if i <= 0 {
        EventKind::CommandPermissionsUpdate
    } else if i == 1 {
        EventKind::AutoModRuleCreate
    } else if i == 2 {
        EventKind::AutoModRuleUpdate
    } else if i == 3 {
        EventKind::AutoModRuleDelete
    } else if i == 4 {
        EventKind::AutoModActionExecution
    } else if i == 5 {
        EventKind::CacheReady
    } else if i == 6 {
        EventKind::ShardsReady
    } else if i == 7 {
        EventKind::ChannelCreate
    } else if i == 8 {
        EventKind::CategoryCreate
    } else if i == 9 {
        EventKind::CategoryDelete
    } else if i == 10 {
        EventKind::ChannelDelete
    } else if i == 11 {
        EventKind::ChannelPinsUpdate
    } else if i == 12 {
        EventKind::ChannelUpdate
    } else if i == 13 {
        EventKind::GuildAuditLogEntryCreate
    } else if i == 14 {
        EventKind::GuildBanAddition
    } else if i == 15 {
        EventKind::GuildBanRemoval
    } else if i == 16 {
        EventKind::GuildCreate
    } else if i == 17 {
        EventKind::GuildDelete
    } else if i == 18 {
        EventKind::GuildEmojisUpdate
    } else if i == 19 {
        EventKind::GuildIntegrationsUpdate
    } else if i == 20 {
        EventKind::GuildMemberAddition
    } else if i == 21 {
        EventKind::GuildMemberRemoval
    } else if i == 22 {
        EventKind::GuildMemberUpdate
    } else if i == 23 {
        EventKind::GuildMembersChunk
    } else if i == 24 {
        EventKind::GuildRoleCreate
    } else if i == 25 {
        EventKind::GuildRoleDelete
    } else if i == 26 {
        EventKind::GuildRoleUpdate
    } else if i == 27 {
        EventKind::GuildStickersUpdate
    } else if i == 28 {
        EventKind::GuildUpdate
    } else if i == 29 {
        EventKind::InviteCreate
    } else if i == 30 {
        EventKind::InviteDelete
    } else if i == 31 {
        EventKind::Message
    } else if i == 32 {
        EventKind::MessageDelete
    } else if i == 33 {
        EventKind::MessageDeleteBulk
    } else if i == 34 {
        EventKind::MessageUpdate
    } else if i == 35 {
        EventKind::ReactionAdd
    } else if i == 36 {
        EventKind::ReactionRemove
    } else if i == 37 {
        EventKind::ReactionRemoveAll
    } else if i == 38 {
        EventKind::ReactionRemoveEmoji
    } else if i == 39 {
        EventKind::PresenceReplace
    } else if i == 40 {
        EventKind::PresenceUpdate
    } else if i == 41 {
        EventKind::Ready
    } else if i == 42 {
        EventKind::Resume
    } else if i == 43 {
        EventKind::ShardStageUpdate
    } else if i == 44 {
        EventKind::SoundboardSounds
    } else if i == 45 {
        EventKind::SoundboardSoundCreate
    } else if i == 46 {
        EventKind::SoundboardSoundUpdate
    } else if i == 47 {
        EventKind::SoundboardSoundsUpdate
    } else if i == 48 {
        EventKind::SoundboardSoundDelete
    } else if i == 49 {
        EventKind::TypingStart
    } else if i == 50 {
        EventKind::UserUpdate
    } else if i == 51 {
        EventKind::VoiceServerUpdate
    } else if i == 52 {
        EventKind::VoiceStateUpdate
    } else if i == 53 {
        EventKind::VoiceChannelStatusUpdate
    } else if i == 54 {
        EventKind::WebhookUpdate
    } else if i == 55 {
        EventKind::InteractionCreate
    } else if i == 56 {
        EventKind::IntegrationCreate
    } else if i == 57 {
        EventKind::IntegrationUpdate
    } else if i == 58 {
        EventKind::IntegrationDelete
    } else if i == 59 {
        EventKind::StageInstanceCreate
    } else if i == 60 {
        EventKind::StageInstanceUpdate
    } else if i == 61 {
        EventKind::StageInstanceDelete
    } else if i == 62 {
        EventKind::ThreadCreate
    } else if i == 63 {
        EventKind::ThreadUpdate
    } else if i == 64 {
        EventKind::ThreadDelete
    } else if i == 65 {
        EventKind::ThreadListSync
    } else if i == 66 {
        EventKind::ThreadMemberUpdate
    } else if i == 67 {
        EventKind::ThreadMembersUpdate
    } else if i == 68 {
        EventKind::GuildScheduledEventCreate
    } else if i == 69 {
        EventKind::GuildScheduledEventUpdate
    } else if i == 70 {
        EventKind::GuildScheduledEventDelete
    } else if i == 71 {
        EventKind::GuildScheduledEventUserAdd
    } else if i == 72 {
        EventKind::GuildScheduledEventUserRemove
    } else if i == 73 {
        EventKind::EntitlementCreate
    } else if i == 74 {
        EventKind::EntitlementUpdate
    } else if i == 75 {
        EventKind::EntitlementDelete
    } else if i == 76 {
        EventKind::MessagePollVoteAdd
    } else if i == 77 {
        EventKind::MessagePollVoteRemove
    } else {
        EventKind::Ratelimit
    }
}

/// The position of a kind in the registry.
pub open spec fn kind_index(k: EventKind) -> int {
    match k {
        EventKind::CommandPermissionsUpdate => 0,
        EventKind::AutoModRuleCreate => 1,
        EventKind::AutoModRuleUpdate => 2,
        EventKind::AutoModRuleDelete => 3,
        EventKind::AutoModActionExecution => 4,
        EventKind::CacheReady => 5,
        EventKind::ShardsReady => 6,
        EventKind::ChannelCreate => 7,
        EventKind::CategoryCreate => 8,
        EventKind::CategoryDelete => 9,
        EventKind::ChannelDelete => 10,
        EventKind::ChannelPinsUpdate => 11,
        EventKind::ChannelUpdate => 12,
        EventKind::GuildAuditLogEntryCreate => 13,
        EventKind::GuildBanAddition => 14,
        EventKind::GuildBanRemoval => 15,
        EventKind::GuildCreate => 16,
        EventKind::GuildDelete => 17,
        EventKind::GuildEmojisUpdate => 18,
        EventKind::GuildIntegrationsUpdate => 19,
        EventKind::GuildMemberAddition => 20,
        EventKind::GuildMemberRemoval => 21,
        EventKind::GuildMemberUpdate => 22,
        EventKind::GuildMembersChunk => 23,
        EventKind::GuildRoleCreate => 24,
        EventKind::GuildRoleDelete => 25,
        EventKind::GuildRoleUpdate => 26,
        EventKind::GuildStickersUpdate => 27,
        EventKind::GuildUpdate => 28,
        EventKind::InviteCreate => 29,
        EventKind::InviteDelete => 30,
        EventKind::Message => 31,
        EventKind::MessageDelete => 32,
        EventKind::MessageDeleteBulk => 33,
        EventKind::MessageUpdate => 34,
        EventKind::ReactionAdd => 35,
        EventKind::ReactionRemove => 36,
        EventKind::ReactionRemoveAll => 37,
        EventKind::ReactionRemoveEmoji => 38,
        EventKind::PresenceReplace => 39,
        EventKind::PresenceUpdate => 40,
        EventKind::Ready => 41,
        EventKind::Resume => 42,
        EventKind::ShardStageUpdate => 43,
        EventKind::SoundboardSounds => 44,
        EventKind::SoundboardSoundCreate => 45,
        EventKind::SoundboardSoundUpdate => 46,
        EventKind::SoundboardSoundsUpdate => 47,
        EventKind::SoundboardSoundDelete => 48,
        EventKind::TypingStart => 49,
        EventKind::UserUpdate => 50,
        EventKind::VoiceServerUpdate => 51,
        EventKind::VoiceStateUpdate => 52,
        EventKind::VoiceChannelStatusUpdate => 53,
        EventKind::WebhookUpdate => 54,
        EventKind::InteractionCreate => 55,
        EventKind::IntegrationCreate => 56,
        EventKind::IntegrationUpdate => 57,
        EventKind::IntegrationDelete => 58,
        EventKind::StageInstanceCreate => 59,
        EventKind::StageInstanceUpdate => 60,
        EventKind::StageInstanceDelete => 61,
        EventKind::ThreadCreate => 62,
        EventKind::ThreadUpdate => 63,
        EventKind::ThreadDelete => 64,
        EventKind::ThreadListSync => 65,
        EventKind::ThreadMemberUpdate => 66,
        EventKind::ThreadMembersUpdate => 67,
        EventKind::GuildScheduledEventCreate => 68,
        EventKind::GuildScheduledEventUpdate => 69,
        EventKind::GuildScheduledEventDelete => 70,
        EventKind::GuildScheduledEventUserAdd => 71,
        EventKind::GuildScheduledEventUserRemove => 72,
        EventKind::EntitlementCreate => 73,
        EventKind::EntitlementUpdate => 74,
        EventKind::EntitlementDelete => 75,
        EventKind::MessagePollVoteAdd => 76,
        EventKind::MessagePollVoteRemove => 77,
        EventKind::Ratelimit => 78,
    }
}

/// The name of a kind: the name of its variant.
pub open spec fn kind_name(k: EventKind) -> Seq<char> {
    match k {
        EventKind::CommandPermissionsUpdate => "CommandPermissionsUpdate"@,
        EventKind::AutoModRuleCreate => "AutoModRuleCreate"@,
        EventKind::AutoModRuleUpdate => "AutoModRuleUpdate"@,
        EventKind::AutoModRuleDelete => "AutoModRuleDelete"@,
        EventKind::AutoModActionExecution => "AutoModActionExecution"@,
        EventKind::CacheReady => "CacheReady"@,
        EventKind::ShardsReady => "ShardsReady"@,
        EventKind::ChannelCreate => "ChannelCreate"@,
        EventKind::CategoryCreate => "CategoryCreate"@,
        EventKind::CategoryDelete => "CategoryDelete"@,
        EventKind::ChannelDelete => "ChannelDelete"@,
        EventKind::ChannelPinsUpdate => "ChannelPinsUpdate"@,
        EventKind::ChannelUpdate => "ChannelUpdate"@,
        EventKind::GuildAuditLogEntryCreate => "GuildAuditLogEntryCreate"@,
        EventKind::GuildBanAddition => "GuildBanAddition"@,
        EventKind::GuildBanRemoval => "GuildBanRemoval"@,
        EventKind::GuildCreate => "GuildCreate"@,
        EventKind::GuildDelete => "GuildDelete"@,
        EventKind::GuildEmojisUpdate => "GuildEmojisUpdate"@,
        EventKind::GuildIntegrationsUpdate => "GuildIntegrationsUpdate"@,
        EventKind::GuildMemberAddition => "GuildMemberAddition"@,
        EventKind::GuildMemberRemoval => "GuildMemberRemoval"@,
        EventKind::GuildMemberUpdate => "GuildMemberUpdate"@,
        EventKind::GuildMembersChunk => "GuildMembersChunk"@,
        EventKind::GuildRoleCreate => "GuildRoleCreate"@,
        EventKind::GuildRoleDelete => "GuildRoleDelete"@,
        EventKind::GuildRoleUpdate => "GuildRoleUpdate"@,
        EventKind::GuildStickersUpdate => "GuildStickersUpdate"@,
        EventKind::GuildUpdate => "GuildUpdate"@,
        EventKind::InviteCreate => "InviteCreate"@,
        EventKind::InviteDelete => "InviteDelete"@,
        EventKind::Message => "Message"@,
        EventKind::MessageDelete => "MessageDelete"@,
        EventKind::MessageDeleteBulk => "MessageDeleteBulk"@,
        EventKind::MessageUpdate => "MessageUpdate"@,
        EventKind::ReactionAdd => "ReactionAdd"@,
        EventKind::ReactionRemove => "ReactionRemove"@,
        EventKind::ReactionRemoveAll => "ReactionRemoveAll"@,
        EventKind::ReactionRemoveEmoji => "ReactionRemoveEmoji"@,
        EventKind::PresenceReplace => "PresenceReplace"@,
        EventKind::PresenceUpdate => "PresenceUpdate"@,
        EventKind::Ready => "Ready"@,
        EventKind::Resume => "Resume"@,
        EventKind::ShardStageUpdate => "ShardStageUpdate"@,
        EventKind::SoundboardSounds => "SoundboardSounds"@,
        EventKind::SoundboardSoundCreate => "SoundboardSoundCreate"@,
        EventKind::SoundboardSoundUpdate => "SoundboardSoundUpdate"@,
        EventKind::SoundboardSoundsUpdate => "SoundboardSoundsUpdate"@,
        EventKind::SoundboardSoundDelete => "SoundboardSoundDelete"@,
        EventKind::TypingStart => "TypingStart"@,
        EventKind::UserUpdate => "UserUpdate"@,
        EventKind::VoiceServerUpdate => "VoiceServerUpdate"@,
        EventKind::VoiceStateUpdate => "VoiceStateUpdate"@,
        EventKind::VoiceChannelStatusUpdate => "VoiceChannelStatusUpdate"@,
        EventKind::WebhookUpdate => "WebhookUpdate"@,
        EventKind::InteractionCreate => "InteractionCreate"@,
        EventKind::IntegrationCreate => "IntegrationCreate"@,
        EventKind::IntegrationUpdate => "IntegrationUpdate"@,
        EventKind::IntegrationDelete => "IntegrationDelete"@,
        EventKind::StageInstanceCreate => "StageInstanceCreate"@,
        EventKind::StageInstanceUpdate => "StageInstanceUpdate"@,
        EventKind::StageInstanceDelete => "StageInstanceDelete"@,
        EventKind::ThreadCreate => "ThreadCreate"@,
        EventKind::ThreadUpdate => "ThreadUpdate"@,
        EventKind::ThreadDelete => "ThreadDelete"@,
        EventKind::ThreadListSync => "ThreadListSync"@,
        EventKind::ThreadMemberUpdate => "ThreadMemberUpdate"@,
        EventKind::ThreadMembersUpdate => "ThreadMembersUpdate"@,
        EventKind::GuildScheduledEventCreate => "GuildScheduledEventCreate"@,
        EventKind::GuildScheduledEventUpdate => "GuildScheduledEventUpdate"@,
        EventKind::GuildScheduledEventDelete => "GuildScheduledEventDelete"@,
        EventKind::GuildScheduledEventUserAdd => "GuildScheduledEventUserAdd"@,
        EventKind::GuildScheduledEventUserRemove => "GuildScheduledEventUserRemove"@,
        EventKind::EntitlementCreate => "EntitlementCreate"@,
        EventKind::EntitlementUpdate => "EntitlementUpdate"@,
        EventKind::EntitlementDelete => "EntitlementDelete"@,
        EventKind::MessagePollVoteAdd => "MessagePollVoteAdd"@,
        EventKind::MessagePollVoteRemove => "MessagePollVoteRemove"@,
        EventKind::Ratelimit => "Ratelimit"@,
    }
}

/// The registry: every kind, in order.
pub open spec fn all_kinds() -> Seq<EventKind> {
    Seq::new(EVENT_KIND_COUNT as nat, |i: int| kind_at(i))
}

/// The registry's names, in order.
pub open spec fn event_names() -> Seq<Seq<char>> {
    all_kinds().map_values(|k: EventKind| kind_name(k))
}

impl EventKind {
    /// The kind at position `i` of the registry.
    pub fn from_index(i: usize) -> (r: EventKind)
        requires
            i < EVENT_KIND_COUNT,
        ensures
            r == kind_at(i as int),
    {
        if i == 0 {
            EventKind::CommandPermissionsUpdate
        } else if i == 1 {
            EventKind::AutoModRuleCreate
        } else if i == 2 {
            EventKind::AutoModRuleUpdate
        } else if i == 3 {
            EventKind::AutoModRuleDelete
        } else if i == 4 {
            EventKind::AutoModActionExecution
        } else if i == 5 {
            EventKind::CacheReady
        } else if i == 6 {
            EventKind::ShardsReady
        } else if i == 7 {
            EventKind::ChannelCreate
        } else if i == 8 {
            EventKind::CategoryCreate
        } else if i == 9 {
            EventKind::CategoryDelete
        } else if i == 10 {
            EventKind::ChannelDelete
        } else if i == 11 {
            EventKind::ChannelPinsUpdate
        } else if i == 12 {
            EventKind::ChannelUpdate
        } else if i == 13 {
            EventKind::GuildAuditLogEntryCreate
        } else if i == 14 {
            EventKind::GuildBanAddition
        } else if i == 15 {
            EventKind::GuildBanRemoval
        } else if i == 16 {
            EventKind::GuildCreate
        } else if i == 17 {
            EventKind::GuildDelete
        } else if i == 18 {
            EventKind::GuildEmojisUpdate
        } else if i == 19 {
            EventKind::GuildIntegrationsUpdate
        } else if i == 20 {
            EventKind::GuildMemberAddition
        } else if i == 21 {
            EventKind::GuildMemberRemoval
        } else if i == 22 {
            EventKind::GuildMemberUpdate
        } else if i == 23 {
            EventKind::GuildMembersChunk
        } else if i == 24 {
            EventKind::GuildRoleCreate
        } else if i == 25 {
            EventKind::GuildRoleDelete
        } else if i == 26 {
            EventKind::GuildRoleUpdate
        } else if i == 27 {
            EventKind::GuildStickersUpdate
        } else if i == 28 {
            EventKind::GuildUpdate
        } else if i == 29 {
            EventKind::InviteCreate
        } else if i == 30 {
            EventKind::InviteDelete
        } else if i == 31 {
            EventKind::Message
        } else if i == 32 {
            EventKind::MessageDelete
        } else if i == 33 {
            EventKind::MessageDeleteBulk
        } else if i == 34 {
            EventKind::MessageUpdate
        } else if i == 35 {
            EventKind::ReactionAdd
        } else if i == 36 {
            EventKind::ReactionRemove
        } else if i == 37 {
            EventKind::ReactionRemoveAll
        } else if i == 38 {
            EventKind::ReactionRemoveEmoji
        } else if i == 39 {
            EventKind::PresenceReplace
        } else if i == 40 {
            EventKind::PresenceUpdate
        } else if i == 41 {
            EventKind::Ready
        } else if i == 42 {
            EventKind::Resume
        } else if i == 43 {
            EventKind::ShardStageUpdate
        } else if i == 44 {
            EventKind::SoundboardSounds
        } else if i == 45 {
            EventKind::SoundboardSoundCreate
        } else if i == 46 {
            EventKind::SoundboardSoundUpdate
        } else if i == 47 {
            EventKind::SoundboardSoundsUpdate
        } else if i == 48 {
            EventKind::SoundboardSoundDelete
        } else if i == 49 {
            EventKind::TypingStart
        } else if i == 50 {
            EventKind::UserUpdate
        } else if i == 51 {
            EventKind::VoiceServerUpdate
        } else if i == 52 {
            EventKind::VoiceStateUpdate
        } else if i == 53 {
            EventKind::VoiceChannelStatusUpdate
        } else if i == 54 {
            EventKind::WebhookUpdate
        } else if i == 55 {
            EventKind::InteractionCreate
        } else if i == 56 {
            EventKind::IntegrationCreate
        } else if i == 57 {
            EventKind::IntegrationUpdate
        } else if i == 58 {
            EventKind::IntegrationDelete
        } else if i == 59 {
            EventKind::StageInstanceCreate
        } else if i == 60 {
            EventKind::StageInstanceUpdate
        } else if i == 61 {
            EventKind::StageInstanceDelete
        } else if i == 62 {
            EventKind::ThreadCreate
        } else if i == 63 {
            EventKind::ThreadUpdate
        } else if i == 64 {
            EventKind::ThreadDelete
        } else if i == 65 {
            EventKind::ThreadListSync
        } else if i == 66 {
            EventKind::ThreadMemberUpdate
        } else if i == 67 {
            EventKind::ThreadMembersUpdate
        } else if i == 68 {
            EventKind::GuildScheduledEventCreate
        } else if i == 69 {
            EventKind::GuildScheduledEventUpdate
        } else if i == 70 {
            EventKind::GuildScheduledEventDelete
        } else if i == 71 {
            EventKind::GuildScheduledEventUserAdd
        } else if i == 72 {
            EventKind::GuildScheduledEventUserRemove
        } else if i == 73 {
            EventKind::EntitlementCreate
        } else if i == 74 {
            EventKind::EntitlementUpdate
        } else if i == 75 {
            EventKind::EntitlementDelete
        } else if i == 76 {
            EventKind::MessagePollVoteAdd
        } else if i == 77 {
            EventKind::MessagePollVoteRemove
        } else {
            EventKind::Ratelimit
        }
    }

    /// The name of this kind.
    pub fn name(&self) -> (r: &'static str)
        ensures
            r@ == kind_name(*self),
    {
        match self {
            EventKind::CommandPermissionsUpdate => "CommandPermissionsUpdate",
            EventKind::AutoModRuleCreate => "AutoModRuleCreate",
            EventKind::AutoModRuleUpdate => "AutoModRuleUpdate",
            EventKind::AutoModRuleDelete => "AutoModRuleDelete",
            EventKind::AutoModActionExecution => "AutoModActionExecution",
            EventKind::CacheReady => "CacheReady",
            EventKind::ShardsReady => "ShardsReady",
            EventKind::ChannelCreate => "ChannelCreate",
            EventKind::CategoryCreate => "CategoryCreate",
            EventKind::CategoryDelete => "CategoryDelete",
            EventKind::ChannelDelete => "ChannelDelete",
            EventKind::ChannelPinsUpdate => "ChannelPinsUpdate",
            EventKind::ChannelUpdate => "ChannelUpdate",
            EventKind::GuildAuditLogEntryCreate => "GuildAuditLogEntryCreate",
            EventKind::GuildBanAddition => "GuildBanAddition",
            EventKind::GuildBanRemoval => "GuildBanRemoval",
            EventKind::GuildCreate => "GuildCreate",
            EventKind::GuildDelete => "GuildDelete",
            EventKind::GuildEmojisUpdate => "GuildEmojisUpdate",
            EventKind::GuildIntegrationsUpdate => "GuildIntegrationsUpdate",
            EventKind::GuildMemberAddition => "GuildMemberAddition",
            EventKind::GuildMemberRemoval => "GuildMemberRemoval",
            EventKind::GuildMemberUpdate => "GuildMemberUpdate",
            EventKind::GuildMembersChunk => "GuildMembersChunk",
            EventKind::GuildRoleCreate => "GuildRoleCreate",
            EventKind::GuildRoleDelete => "GuildRoleDelete",
            EventKind::GuildRoleUpdate => "GuildRoleUpdate",
            EventKind::GuildStickersUpdate => "GuildStickersUpdate",
            EventKind::GuildUpdate => "GuildUpdate",
            EventKind::InviteCreate => "InviteCreate",
            EventKind::InviteDelete => "InviteDelete",
            EventKind::Message => "Message",
            EventKind::MessageDelete => "MessageDelete",
            EventKind::MessageDeleteBulk => "MessageDeleteBulk",
            EventKind::MessageUpdate => "MessageUpdate",
            EventKind::ReactionAdd => "ReactionAdd",
            EventKind::ReactionRemove => "ReactionRemove",
            EventKind::ReactionRemoveAll => "ReactionRemoveAll",
            EventKind::ReactionRemoveEmoji => "ReactionRemoveEmoji",
            EventKind::PresenceReplace => "PresenceReplace",
            EventKind::PresenceUpdate => "PresenceUpdate",
            EventKind::Ready => "Ready",
            EventKind::Resume => "Resume",
            EventKind::ShardStageUpdate => "ShardStageUpdate",
            EventKind::SoundboardSounds => "SoundboardSounds",
            EventKind::SoundboardSoundCreate => "SoundboardSoundCreate",
            EventKind::SoundboardSoundUpdate => "SoundboardSoundUpdate",
            EventKind::SoundboardSoundsUpdate => "SoundboardSoundsUpdate",
            EventKind::SoundboardSoundDelete => "SoundboardSoundDelete",
            EventKind::TypingStart => "TypingStart",
            EventKind::UserUpdate => "UserUpdate",
            EventKind::VoiceServerUpdate => "VoiceServerUpdate",
            EventKind::VoiceStateUpdate => "VoiceStateUpdate",
            EventKind::VoiceChannelStatusUpdate => "VoiceChannelStatusUpdate",
            EventKind::WebhookUpdate => "WebhookUpdate",
            EventKind::InteractionCreate => "InteractionCreate",
            EventKind::IntegrationCreate => "IntegrationCreate",
            EventKind::IntegrationUpdate => "IntegrationUpdate",
            EventKind::IntegrationDelete => "IntegrationDelete",
            EventKind::StageInstanceCreate => "StageInstanceCreate",
            EventKind::StageInstanceUpdate => "StageInstanceUpdate",
            EventKind::StageInstanceDelete => "StageInstanceDelete",
            EventKind::ThreadCreate => "ThreadCreate",
            EventKind::ThreadUpdate => "ThreadUpdate",
            EventKind::ThreadDelete => "ThreadDelete",
            EventKind::ThreadListSync => "ThreadListSync",
            EventKind::ThreadMemberUpdate => "ThreadMemberUpdate",
            EventKind::ThreadMembersUpdate => "ThreadMembersUpdate",
            EventKind::GuildScheduledEventCreate => "GuildScheduledEventCreate",
            EventKind::GuildScheduledEventUpdate => "GuildScheduledEventUpdate",
            EventKind::GuildScheduledEventDelete => "GuildScheduledEventDelete",
            EventKind::GuildScheduledEventUserAdd => "GuildScheduledEventUserAdd",
            EventKind::GuildScheduledEventUserRemove => "GuildScheduledEventUserRemove",
            EventKind::EntitlementCreate => "EntitlementCreate",
            EventKind::EntitlementUpdate => "EntitlementUpdate",
            EventKind::EntitlementDelete => "EntitlementDelete",
            EventKind::MessagePollVoteAdd => "MessagePollVoteAdd",
            EventKind::MessagePollVoteRemove => "MessagePollVoteRemove",
            EventKind::Ratelimit => "Ratelimit",
        }
    }
}

/// The names of all event kinds, in the registry's order.
pub fn event_list() -> (r: Vec<&'static str>)
    ensures
        r@.len() == event_names().len(),
        forall|i: int| 0 <= i < r@.len() ==> (#[trigger] r@[i])@ == event_names()[i],
{
    let mut r: Vec<&'static str> = Vec::new();
    let mut i: usize = 0;
    while i < EVENT_KIND_COUNT
        invariant
            i <= EVENT_KIND_COUNT,
            r@.len() == i,
            forall|j: int| 0 <= j < i ==> (#[trigger] r@[j])@ == kind_name(kind_at(j)),
        decreases EVENT_KIND_COUNT - i,
    {
        let k = EventKind::from_index(i);
        r.push(k.name());
        i = i + 1;
    }
    r
}

/// Every kind stands in the registry, at the position `kind_index` gives.
pub proof fn lemma_kind_listed(k: EventKind)
    ensures
        0 <= kind_index(k) < EVENT_KIND_COUNT,
        kind_at(kind_index(k)) == k,
        all_kinds().contains(k),
{
    assert(all_kinds()[kind_index(k)] == k);
}

/// No kind stands twice in the registry.
pub proof fn lemma_kinds_distinct(i: int, j: int)
    requires
        0 <= i < EVENT_KIND_COUNT,
        0 <= j < EVENT_KIND_COUNT,
        i != j,
    ensures
        kind_at(i) != kind_at(j),
        kind_index(kind_at(i)) == i,
{
}

/// The kind of every event, and its name, stand in the registry.
pub proof fn lemma_event_listed(e: Event)
    ensures
        all_kinds().contains(kind_of(e)),
        event_names().contains(kind_name(kind_of(e))),
{
    lemma_kind_listed(kind_of(e));
    let i = kind_index(kind_of(e));
    assert(event_names()[i] == kind_name(kind_of(e)));
}

} // verus!
