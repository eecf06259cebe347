use crate::ids::{GuildId, UserId};
use crate::kind::EventKind;
use vstd::prelude::*;

verus! {

/// An interaction, reduced to its kind and the guild it was invoked in.
#[derive(Clone, Copy, Debug, PartialEq, Eq)]
pub enum Interaction {
    /// An acknowledgement ping: it is never tied to a guild.
    Ping,
    Command { guild_id: Option<GuildId> },
    Autocomplete { guild_id: Option<GuildId> },
    Component { guild_id: Option<GuildId> },
    Modal { guild_id: Option<GuildId> },
    /// A kind of interaction that this library does not know.
    Unknown,
}

/// A gateway event, one variant per kind of notification.
///
/// Each variant keeps the identifiers that scope and actor resolution read:
/// - `guild_id`: the guild of the event's main payload;
/// - `user_id`, `creator_id`, `owner_id`, `inviter_id`, `author_id`: the user
///   that the payload records in that role;
/// - `previous_*`: the same field in the state before an update, when the
///   gateway had it;
/// - `new_author_id` (message update): the author of the new message
///   snapshot, absent when no snapshot came with the event.
#[derive(Clone, Copy, Debug, PartialEq, Eq)]
pub enum Event {
    CommandPermissionsUpdate { guild_id: GuildId },
    AutoModRuleCreate { guild_id: GuildId, creator_id: UserId },
    AutoModRuleUpdate { guild_id: GuildId, creator_id: UserId },
    AutoModRuleDelete { guild_id: GuildId, creator_id: UserId },
    AutoModActionExecution { guild_id: GuildId, user_id: UserId },
    CacheReady,
    ShardsReady,
    ChannelCreate { guild_id: GuildId },
    CategoryCreate { guild_id: GuildId },
    CategoryDelete { guild_id: GuildId },
    ChannelDelete { guild_id: GuildId },
    ChannelPinsUpdate { guild_id: Option<GuildId> },
    ChannelUpdate { previous_guild_id: Option<GuildId>, guild_id: GuildId },
    GuildAuditLogEntryCreate { guild_id: GuildId, user_id: Option<UserId> },
    GuildBanAddition { guild_id: GuildId, user_id: UserId },
    GuildBanRemoval { guild_id: GuildId, user_id: UserId },
    GuildCreate { guild_id: GuildId, owner_id: UserId },
    GuildDelete { guild_id: GuildId },
    GuildEmojisUpdate { guild_id: GuildId },
    GuildIntegrationsUpdate { guild_id: GuildId },
    GuildMemberAddition { guild_id: GuildId, user_id: UserId },
    GuildMemberRemoval { guild_id: GuildId, user_id: UserId },
    GuildMemberUpdate { guild_id: GuildId, user_id: UserId },
    GuildMembersChunk { guild_id: GuildId },
    GuildRoleCreate { guild_id: GuildId },
    GuildRoleDelete { guild_id: GuildId },
    GuildRoleUpdate { previous_guild_id: Option<GuildId>, guild_id: GuildId },
    GuildStickersUpdate { guild_id: GuildId },
    GuildUpdate { previous_guild_id: Option<GuildId>, guild_id: GuildId },
    InviteCreate { guild_id: Option<GuildId>, inviter_id: Option<UserId> },
    InviteDelete { guild_id: Option<GuildId> },
    Message { guild_id: Option<GuildId>, author_id: UserId },
    MessageDelete { guild_id: Option<GuildId> },
    MessageDeleteBulk { guild_id: Option<GuildId> },
    MessageUpdate { guild_id: Option<GuildId>, author_id: Option<UserId>, new_author_id: Option<UserId>, previous_author_id: Option<UserId> },
    ReactionAdd { guild_id: Option<GuildId>, user_id: Option<UserId> },
    ReactionRemove { guild_id: Option<GuildId>, user_id: Option<UserId> },
    ReactionRemoveAll,
    ReactionRemoveEmoji { guild_id: Option<GuildId>, user_id: Option<UserId> },
    PresenceReplace,
    PresenceUpdate { guild_id: Option<GuildId>, user_id: UserId },
    Ready,
    Resume,
    ShardStageUpdate,
    SoundboardSounds,
    SoundboardSoundCreate,
    SoundboardSoundUpdate,
    SoundboardSoundsUpdate,
    SoundboardSoundDelete,
    TypingStart { guild_id: Option<GuildId>, user_id: UserId },
    UserUpdate { user_id: UserId },
    VoiceServerUpdate { guild_id: Option<GuildId> },
    VoiceStateUpdate { guild_id: Option<GuildId>, user_id: UserId },
    VoiceChannelStatusUpdate { guild_id: GuildId },
    WebhookUpdate { guild_id: GuildId },
    InteractionCreate { interaction: Interaction },
    IntegrationCreate { guild_id: Option<GuildId>, user_id: Option<UserId> },
    IntegrationUpdate { guild_id: Option<GuildId>, user_id: Option<UserId> },
    IntegrationDelete { guild_id: GuildId },
    StageInstanceCreate { guild_id: GuildId },
    StageInstanceUpdate { guild_id: GuildId },
    StageInstanceDelete { guild_id: GuildId },
    ThreadCreate { guild_id: GuildId, owner_id: Option<UserId> },
    ThreadUpdate { previous_guild_id: Option<GuildId>, previous_owner_id: Option<UserId>, guild_id: GuildId, owner_id: Option<UserId> },
    ThreadDelete { guild_id: GuildId },
    ThreadListSync { guild_id: GuildId },
    ThreadMemberUpdate { guild_id: Option<GuildId>, user_id: UserId },
    ThreadMembersUpdate { guild_id: GuildId },
    GuildScheduledEventCreate { guild_id: GuildId, creator_id: Option<UserId> },
    GuildScheduledEventUpdate { guild_id: GuildId, creator_id: Option<UserId> },
    GuildScheduledEventDelete { guild_id: GuildId, creator_id: Option<UserId> },
    GuildScheduledEventUserAdd { guild_id: GuildId, user_id: UserId },
    GuildScheduledEventUserRemove { guild_id: GuildId, user_id: UserId },
    EntitlementCreate { guild_id: Option<GuildId>, user_id: Option<UserId> },
    EntitlementUpdate { guild_id: Option<GuildId>, user_id: Option<UserId> },
    EntitlementDelete { guild_id: Option<GuildId>, user_id: Option<UserId> },
    MessagePollVoteAdd { guild_id: Option<GuildId>, user_id: UserId },
    MessagePollVoteRemove { guild_id: Option<GuildId>, user_id: UserId },
    Ratelimit,
}

/// The kind of an event.
pub open spec fn kind_of(e: Event) -> EventKind {
    match e {
        Event::CommandPermissionsUpdate { .. } => EventKind::CommandPermissionsUpdate,
        Event::AutoModRuleCreate { .. } => EventKind::AutoModRuleCreate,
        Event::AutoModRuleUpdate { .. } => EventKind::AutoModRuleUpdate,
        Event::AutoModRuleDelete { .. } => EventKind::AutoModRuleDelete,
        Event::AutoModActionExecution { .. } => EventKind::AutoModActionExecution,
        Event::CacheReady => EventKind::CacheReady,
        Event::ShardsReady => EventKind::ShardsReady,
        Event::ChannelCreate { .. } => EventKind::ChannelCreate,
        Event::CategoryCreate { .. } => EventKind::CategoryCreate,
        Event::CategoryDelete { .. } => EventKind::CategoryDelete,
        Event::ChannelDelete { .. } => EventKind::ChannelDelete,
        Event::ChannelPinsUpdate { .. } => EventKind::ChannelPinsUpdate,
        Event::ChannelUpdate { .. } => EventKind::ChannelUpdate,
        Event::GuildAuditLogEntryCreate { .. } => EventKind::GuildAuditLogEntryCreate,
        Event::GuildBanAddition { .. } => EventKind::GuildBanAddition,
        Event::GuildBanRemoval { .. } => EventKind::GuildBanRemoval,
        Event::GuildCreate { .. } => EventKind::GuildCreate,
        Event::GuildDelete { .. } => EventKind::GuildDelete,
        Event::GuildEmojisUpdate { .. } => EventKind::GuildEmojisUpdate,
        Event::GuildIntegrationsUpdate { .. } => EventKind::GuildIntegrationsUpdate,
        Event::GuildMemberAddition { .. } => EventKind::GuildMemberAddition,
        Event::GuildMemberRemoval { .. } => EventKind::GuildMemberRemoval,
        Event::GuildMemberUpdate { .. } => EventKind::GuildMemberUpdate,
        Event::GuildMembersChunk { .. } => EventKind::GuildMembersChunk,
        Event::GuildRoleCreate { .. } => EventKind::GuildRoleCreate,
        Event::GuildRoleDelete { .. } => EventKind::GuildRoleDelete,
        Event::GuildRoleUpdate { .. } => EventKind::GuildRoleUpdate,
        Event::GuildStickersUpdate { .. } => EventKind::GuildStickersUpdate,
        Event::GuildUpdate { .. } => EventKind::GuildUpdate,
        Event::InviteCreate { .. } => EventKind::InviteCreate,
        Event::InviteDelete { .. } => EventKind::InviteDelete,
        Event::Message { .. } => EventKind::Message,
        Event::MessageDelete { .. } => EventKind::MessageDelete,
        Event::MessageDeleteBulk { .. } => EventKind::MessageDeleteBulk,
        Event::MessageUpdate { .. } => EventKind::MessageUpdate,
        Event::ReactionAdd { .. } => EventKind::ReactionAdd,
        Event::ReactionRemove { .. } => EventKind::ReactionRemove,
        Event::ReactionRemoveAll => EventKind::ReactionRemoveAll,
        Event::ReactionRemoveEmoji { .. } => EventKind::ReactionRemoveEmoji,
        Event::PresenceReplace => EventKind::PresenceReplace,
        Event::PresenceUpdate { .. } => EventKind::PresenceUpdate,
        Event::Ready => EventKind::Ready,
        Event::Resume => EventKind::Resume,
        Event::ShardStageUpdate => EventKind::ShardStageUpdate,
        Event::SoundboardSounds => EventKind::SoundboardSounds,
        Event::SoundboardSoundCreate => EventKind::SoundboardSoundCreate,
        Event::SoundboardSoundUpdate => EventKind::SoundboardSoundUpdate,
        Event::SoundboardSoundsUpdate => EventKind::SoundboardSoundsUpdate,
        Event::SoundboardSoundDelete => EventKind::SoundboardSoundDelete,
        Event::TypingStart { .. } => EventKind::TypingStart,
        Event::UserUpdate { .. } => EventKind::UserUpdate,
        Event::VoiceServerUpdate { .. } => EventKind::VoiceServerUpdate,
        Event::VoiceStateUpdate { .. } => EventKind::VoiceStateUpdate,
        Event::VoiceChannelStatusUpdate { .. } => EventKind::VoiceChannelStatusUpdate,
        Event::WebhookUpdate { .. } => EventKind::WebhookUpdate,
        Event::InteractionCreate { .. } => EventKind::InteractionCreate,
        Event::IntegrationCreate { .. } => EventKind::IntegrationCreate,
        Event::IntegrationUpdate { .. } => EventKind::IntegrationUpdate,
        Event::IntegrationDelete { .. } => EventKind::IntegrationDelete,
        Event::StageInstanceCreate { .. } => EventKind::StageInstanceCreate,
        Event::StageInstanceUpdate { .. } => EventKind::StageInstanceUpdate,
        Event::StageInstanceDelete { .. } => EventKind::StageInstanceDelete,
        Event::ThreadCreate { .. } => EventKind::ThreadCreate,
        Event::ThreadUpdate { .. } => EventKind::ThreadUpdate,
        Event::ThreadDelete { .. } => EventKind::ThreadDelete,
        Event::ThreadListSync { .. } => EventKind::ThreadListSync,
        Event::ThreadMemberUpdate { .. } => EventKind::ThreadMemberUpdate,
        Event::ThreadMembersUpdate { .. } => EventKind::ThreadMembersUpdate,
        Event::GuildScheduledEventCreate { .. } => EventKind::GuildScheduledEventCreate,
        Event::GuildScheduledEventUpdate { .. } => EventKind::GuildScheduledEventUpdate,
        Event::GuildScheduledEventDelete { .. } => EventKind::GuildScheduledEventDelete,
        Event::GuildScheduledEventUserAdd { .. } => EventKind::GuildScheduledEventUserAdd,
        Event::GuildScheduledEventUserRemove { .. } => EventKind::GuildScheduledEventUserRemove,
        Event::EntitlementCreate { .. } => EventKind::EntitlementCreate,
        Event::EntitlementUpdate { .. } => EventKind::EntitlementUpdate,
        Event::EntitlementDelete { .. } => EventKind::EntitlementDelete,
        Event::MessagePollVoteAdd { .. } => EventKind::MessagePollVoteAdd,
        Event::MessagePollVoteRemove { .. } => EventKind::MessagePollVoteRemove,
        Event::Ratelimit => EventKind::Ratelimit,
    }
}

impl Event {
    /// The kind of this event.
    pub fn kind(&self) -> (r: EventKind)
        ensures
            r == kind_of(*self),
    {
        match self {
            Event::CommandPermissionsUpdate { .. } => EventKind::CommandPermissionsUpdate,
            Event::AutoModRuleCreate { .. } => EventKind::AutoModRuleCreate,
            Event::AutoModRuleUpdate { .. } => EventKind::AutoModRuleUpdate,
            Event::AutoModRuleDelete { .. } => EventKind::AutoModRuleDelete,
            Event::AutoModActionExecution { .. } => EventKind::AutoModActionExecution,
            Event::CacheReady => EventKind::CacheReady,
            Event::ShardsReady => EventKind::ShardsReady,
            Event::ChannelCreate { .. } => EventKind::ChannelCreate,
            Event::CategoryCreate { .. } => EventKind::CategoryCreate,
            Event::CategoryDelete { .. } => EventKind::CategoryDelete,
            Event::ChannelDelete { .. } => EventKind::ChannelDelete,
            Event::ChannelPinsUpdate { .. } => EventKind::ChannelPinsUpdate,
            Event::ChannelUpdate { .. } => EventKind::ChannelUpdate,
            Event::GuildAuditLogEntryCreate { .. } => EventKind::GuildAuditLogEntryCreate,
            Event::GuildBanAddition { .. } => EventKind::GuildBanAddition,
            Event::GuildBanRemoval { .. } => EventKind::GuildBanRemoval,
            Event::GuildCreate { .. } => EventKind::GuildCreate,
            Event::GuildDelete { .. } => EventKind::GuildDelete,
            Event::GuildEmojisUpdate { .. } => EventKind::GuildEmojisUpdate,
            Event::GuildIntegrationsUpdate { .. } => EventKind::GuildIntegrationsUpdate,
            Event::GuildMemberAddition { .. } => EventKind::GuildMemberAddition,
            Event::GuildMemberRemoval { .. } => EventKind::GuildMemberRemoval,
            Event::GuildMemberUpdate { .. } => EventKind::GuildMemberUpdate,
            Event::GuildMembersChunk { .. } => EventKind::GuildMembersChunk,
            Event::GuildRoleCreate { .. } => EventKind::GuildRoleCreate,
            Event::GuildRoleDelete { .. } => EventKind::GuildRoleDelete,
            Event::GuildRoleUpdate { .. } => EventKind::GuildRoleUpdate,
            Event::GuildStickersUpdate { .. } => EventKind::GuildStickersUpdate,
            Event::GuildUpdate { .. } => EventKind::GuildUpdate,
            Event::InviteCreate { .. } => EventKind::InviteCreate,
            Event::InviteDelete { .. } => EventKind::InviteDelete,
            Event::Message { .. } => EventKind::Message,
            Event::MessageDelete { .. } => EventKind::MessageDelete,
            Event::MessageDeleteBulk { .. } => EventKind::MessageDeleteBulk,
            Event::MessageUpdate { .. } => EventKind::MessageUpdate,
            Event::ReactionAdd { .. } => EventKind::ReactionAdd,
            Event::ReactionRemove { .. } => EventKind::ReactionRemove,
            Event::ReactionRemoveAll => EventKind::ReactionRemoveAll,
            Event::ReactionRemoveEmoji { .. } => EventKind::ReactionRemoveEmoji,
            Event::PresenceReplace => EventKind::PresenceReplace,
            Event::PresenceUpdate { .. } => EventKind::PresenceUpdate,
            Event::Ready => EventKind::Ready,
            Event::Resume => EventKind::Resume,
            Event::ShardStageUpdate => EventKind::ShardStageUpdate,
            Event::SoundboardSounds => EventKind::SoundboardSounds,
            Event::SoundboardSoundCreate => EventKind::SoundboardSoundCreate,
            Event::SoundboardSoundUpdate => EventKind::SoundboardSoundUpdate,
            Event::SoundboardSoundsUpdate => EventKind::SoundboardSoundsUpdate,
            Event::SoundboardSoundDelete => EventKind::SoundboardSoundDelete,
            Event::TypingStart { .. } => EventKind::TypingStart,
            Event::UserUpdate { .. } => EventKind::UserUpdate,
            Event::VoiceServerUpdate { .. } => EventKind::VoiceServerUpdate,
            Event::VoiceStateUpdate { .. } => EventKind::VoiceStateUpdate,
            Event::VoiceChannelStatusUpdate { .. } => EventKind::VoiceChannelStatusUpdate,
            Event::WebhookUpdate { .. } => EventKind::WebhookUpdate,
            Event::InteractionCreate { .. } => EventKind::InteractionCreate,
            Event::IntegrationCreate { .. } => EventKind::IntegrationCreate,
            Event::IntegrationUpdate { .. } => EventKind::IntegrationUpdate,
            Event::IntegrationDelete { .. } => EventKind::IntegrationDelete,
            Event::StageInstanceCreate { .. } => EventKind::StageInstanceCreate,
            Event::StageInstanceUpdate { .. } => EventKind::StageInstanceUpdate,
            Event::StageInstanceDelete { .. } => EventKind::StageInstanceDelete,
            Event::ThreadCreate { .. } => EventKind::ThreadCreate,
            Event::ThreadUpdate { .. } => EventKind::ThreadUpdate,
            Event::ThreadDelete { .. } => EventKind::ThreadDelete,
            Event::ThreadListSync { .. } => EventKind::ThreadListSync,
            Event::ThreadMemberUpdate { .. } => EventKind::ThreadMemberUpdate,
            Event::ThreadMembersUpdate { .. } => EventKind::ThreadMembersUpdate,
            Event::GuildScheduledEventCreate { .. } => EventKind::GuildScheduledEventCreate,
            Event::GuildScheduledEventUpdate { .. } => EventKind::GuildScheduledEventUpdate,
            Event::GuildScheduledEventDelete { .. } => EventKind::GuildScheduledEventDelete,
            Event::GuildScheduledEventUserAdd { .. } => EventKind::GuildScheduledEventUserAdd,
            Event::GuildScheduledEventUserRemove { .. } => EventKind::GuildScheduledEventUserRemove,
            Event::EntitlementCreate { .. } => EventKind::EntitlementCreate,
            Event::EntitlementUpdate { .. } => EventKind::EntitlementUpdate,
            Event::EntitlementDelete { .. } => EventKind::EntitlementDelete,
            Event::MessagePollVoteAdd { .. } => EventKind::MessagePollVoteAdd,
            Event::MessagePollVoteRemove { .. } => EventKind::MessagePollVoteRemove,
            Event::Ratelimit => EventKind::Ratelimit,
        }
    }
}

} // verus!
