use crate::event::{kind_of, Event, Interaction};
use crate::ids::{GuildId, UserId};
use crate::kind::EventKind;
use vstd::prelude::*;

verus! {

/// The kinds that resolution deliberately leaves alone: presence, typing,
/// reaction, voice state and voice server, stage instance and soundboard
/// events, connection and shard lifecycle, rate limits and profile updates of
/// the current user. They have neither a scope nor an actor.
pub open spec fn is_unhandled_kind(k: EventKind) -> bool {
        ||| k == EventKind::CacheReady
        ||| k == EventKind::ShardsReady
        ||| k == EventKind::ReactionAdd
        ||| k == EventKind::ReactionRemove
        ||| k == EventKind::ReactionRemoveAll
        ||| k == EventKind::ReactionRemoveEmoji
        ||| k == EventKind::PresenceReplace
        ||| k == EventKind::PresenceUpdate
        ||| k == EventKind::Ready
        ||| k == EventKind::Resume
        ||| k == EventKind::ShardStageUpdate
        ||| k == EventKind::SoundboardSounds
        ||| k == EventKind::SoundboardSoundCreate
        ||| k == EventKind::SoundboardSoundUpdate
        ||| k == EventKind::SoundboardSoundsUpdate
        ||| k == EventKind::SoundboardSoundDelete
        ||| k == EventKind::TypingStart
        ||| k == EventKind::UserUpdate
        ||| k == EventKind::VoiceServerUpdate
        ||| k == EventKind::VoiceStateUpdate
        ||| k == EventKind::StageInstanceCreate
        ||| k == EventKind::StageInstanceUpdate
        ||| k == EventKind::StageInstanceDelete
        ||| k == EventKind::Ratelimit
}

/// The guild an interaction was invoked in; none for a ping.
pub open spec fn interaction_scope(i: Interaction) -> Option<GuildId> {
    match i {
        Interaction::Ping => None,
        Interaction::Command { guild_id } => guild_id,
        Interaction::Autocomplete { guild_id } => guild_id,
        Interaction::Component { guild_id } => guild_id,
        Interaction::Modal { guild_id } => guild_id,
        Interaction::Unknown => None,
    }
}

/// The guild scope of an event.
///
/// It is the guild of the event itself or of its main payload; for an update,
/// that of the new state. Where the payload ties the event to a guild only
/// optionally, the scope is that optional guild. Unhandled kinds have none.
pub open spec fn scope_of(e: Event) -> Option<GuildId> {
    match e {
        Event::CommandPermissionsUpdate { guild_id } => Some(guild_id),
        Event::AutoModRuleCreate { guild_id, .. } => Some(guild_id),
        Event::AutoModRuleUpdate { guild_id, .. } => Some(guild_id),
        Event::AutoModRuleDelete { guild_id, .. } => Some(guild_id),
        Event::AutoModActionExecution { guild_id, .. } => Some(guild_id),
        Event::CacheReady => None,
        Event::ShardsReady => None,
        Event::ChannelCreate { guild_id } => Some(guild_id),
        Event::CategoryCreate { guild_id } => Some(guild_id),
        Event::CategoryDelete { guild_id } => Some(guild_id),
        Event::ChannelDelete { guild_id } => Some(guild_id),
        Event::ChannelPinsUpdate { guild_id } => guild_id,
        Event::ChannelUpdate { guild_id, .. } => Some(guild_id),
        Event::GuildAuditLogEntryCreate { guild_id, .. } => Some(guild_id),
        Event::GuildBanAddition { guild_id, .. } => Some(guild_id),
        Event::GuildBanRemoval { guild_id, .. } => Some(guild_id),
        Event::GuildCreate { guild_id, .. } => Some(guild_id),
        Event::GuildDelete { guild_id } => Some(guild_id),
        Event::GuildEmojisUpdate { guild_id } => Some(guild_id),
        Event::GuildIntegrationsUpdate { guild_id } => Some(guild_id),
        Event::GuildMemberAddition { guild_id, .. } => Some(guild_id),
        Event::GuildMemberRemoval { guild_id, .. } => Some(guild_id),
        Event::GuildMemberUpdate { guild_id, .. } => Some(guild_id),
        Event::GuildMembersChunk { guild_id } => Some(guild_id),
        Event::GuildRoleCreate { guild_id } => Some(guild_id),
        Event::GuildRoleDelete { guild_id } => Some(guild_id),
        Event::GuildRoleUpdate { guild_id, .. } => Some(guild_id),
        Event::GuildStickersUpdate { guild_id } => Some(guild_id),
        Event::GuildUpdate { guild_id, .. } => Some(guild_id),
        Event::InviteCreate { guild_id, .. } => guild_id,
        Event::InviteDelete { guild_id } => guild_id,
        Event::Message { guild_id, .. } => guild_id,
        Event::MessageDelete { guild_id } => guild_id,
        Event::MessageDeleteBulk { guild_id } => guild_id,
        Event::MessageUpdate { guild_id, .. } => guild_id,
        Event::ReactionAdd { .. } => None,
        Event::ReactionRemove { .. } => None,
        Event::ReactionRemoveAll => None,
        Event::ReactionRemoveEmoji { .. } => None,
        Event::PresenceReplace => None,
        Event::PresenceUpdate { .. } => None,
        Event::Ready => None,
        Event::Resume => None,
        Event::ShardStageUpdate => None,
        Event::SoundboardSounds => None,
        Event::SoundboardSoundCreate => None,
        Event::SoundboardSoundUpdate => None,
        Event::SoundboardSoundsUpdate => None,
        Event::SoundboardSoundDelete => None,
        Event::TypingStart { .. } => None,
        Event::UserUpdate { .. } => None,
        Event::VoiceServerUpdate { .. } => None,
        Event::VoiceStateUpdate { .. } => None,
        Event::VoiceChannelStatusUpdate { guild_id } => Some(guild_id),
        Event::WebhookUpdate { guild_id } => Some(guild_id),
        Event::InteractionCreate { interaction } => interaction_scope(interaction),
        Event::IntegrationCreate { guild_id, .. } => guild_id,
        Event::IntegrationUpdate { guild_id, .. } => guild_id,
        Event::IntegrationDelete { guild_id } => Some(guild_id),
        Event::StageInstanceCreate { .. } => None,
        Event::StageInstanceUpdate { .. } => None,
        Event::StageInstanceDelete { .. } => None,
        Event::ThreadCreate { guild_id, .. } => Some(guild_id),
        Event::ThreadUpdate { guild_id, .. } => Some(guild_id),
        Event::ThreadDelete { guild_id } => Some(guild_id),
        Event::ThreadListSync { guild_id } => Some(guild_id),
        Event::ThreadMemberUpdate { guild_id, .. } => guild_id,
        Event::ThreadMembersUpdate { guild_id } => Some(guild_id),
        Event::GuildScheduledEventCreate { guild_id, .. } => Some(guild_id),
        Event::GuildScheduledEventUpdate { guild_id, .. } => Some(guild_id),
        Event::GuildScheduledEventDelete { guild_id, .. } => Some(guild_id),
        Event::GuildScheduledEventUserAdd { guild_id, .. } => Some(guild_id),
        Event::GuildScheduledEventUserRemove { guild_id, .. } => Some(guild_id),
        Event::EntitlementCreate { guild_id, .. } => guild_id,
        Event::EntitlementUpdate { guild_id, .. } => guild_id,
        Event::EntitlementDelete { guild_id, .. } => guild_id,
        Event::MessagePollVoteAdd { guild_id, .. } => guild_id,
        Event::MessagePollVoteRemove { guild_id, .. } => guild_id,
        Event::Ratelimit => None,
    }
}

/// The actor of an event: the user that the payload records as responsible
/// for it or as its subject.
///
/// For a message update it is the author of the new message snapshot, else
/// the author recorded on the event, else none. Structural events that record
/// no responsible user, interactions and unhandled kinds have none.
pub open spec fn actor_of(e: Event) -> Option<UserId> {
    match e {
        Event::CommandPermissionsUpdate { .. } => None,
        Event::AutoModRuleCreate { creator_id, .. } => Some(creator_id),
        Event::AutoModRuleUpdate { creator_id, .. } => Some(creator_id),
        Event::AutoModRuleDelete { creator_id, .. } => Some(creator_id),
        Event::AutoModActionExecution { user_id, .. } => Some(user_id),
        Event::CacheReady => None,
        Event::ShardsReady => None,
        Event::ChannelCreate { .. } => None,
        Event::CategoryCreate { .. } => None,
        Event::CategoryDelete { .. } => None,
        Event::ChannelDelete { .. } => None,
        Event::ChannelPinsUpdate { .. } => None,
        Event::ChannelUpdate { .. } => None,
        Event::GuildAuditLogEntryCreate { user_id, .. } => user_id,
        Event::GuildBanAddition { user_id, .. } => Some(user_id),
        Event::GuildBanRemoval { user_id, .. } => Some(user_id),
        Event::GuildCreate { owner_id, .. } => Some(owner_id),
        Event::GuildDelete { .. } => None,
        Event::GuildEmojisUpdate { .. } => None,
        Event::GuildIntegrationsUpdate { .. } => None,
        Event::GuildMemberAddition { user_id, .. } => Some(user_id),
        Event::GuildMemberRemoval { user_id, .. } => Some(user_id),
        Event::GuildMemberUpdate { user_id, .. } => Some(user_id),
        Event::GuildMembersChunk { .. } => None,
        Event::GuildRoleCreate { .. } => None,
        Event::GuildRoleDelete { .. } => None,
        Event::GuildRoleUpdate { .. } => None,
        Event::GuildStickersUpdate { .. } => None,
        Event::GuildUpdate { .. } => None,
        Event::InviteCreate { inviter_id, .. } => inviter_id,
        Event::InviteDelete { .. } => None,
        Event::Message { author_id, .. } => Some(author_id),
        Event::MessageDelete { .. } => None,
        Event::MessageDeleteBulk { .. } => None,
        Event::MessageUpdate { author_id, new_author_id, .. } => match new_author_id {
                Some(a) => Some(a),
                None => author_id,
            },
        Event::ReactionAdd { .. } => None,
        Event::ReactionRemove { .. } => None,
        Event::ReactionRemoveAll => None,
        Event::ReactionRemoveEmoji { .. } => None,
        Event::PresenceReplace => None,
        Event::PresenceUpdate { .. } => None,
        Event::Ready => None,
        Event::Resume => None,
        Event::ShardStageUpdate => None,
        Event::SoundboardSounds => None,
        Event::SoundboardSoundCreate => None,
        Event::SoundboardSoundUpdate => None,
        Event::SoundboardSoundsUpdate => None,
        Event::SoundboardSoundDelete => None,
        Event::TypingStart { .. } => None,
        Event::UserUpdate { .. } => None,
        Event::VoiceServerUpdate { .. } => None,
        Event::VoiceStateUpdate { .. } => None,
        Event::VoiceChannelStatusUpdate { .. } => None,
        Event::WebhookUpdate { .. } => None,
        Event::InteractionCreate { .. } => None,
        Event::IntegrationCreate { user_id, .. } => user_id,
        Event::IntegrationUpdate { user_id, .. } => user_id,
        Event::IntegrationDelete { .. } => None,
        Event::StageInstanceCreate { .. } => None,
        Event::StageInstanceUpdate { .. } => None,
        Event::StageInstanceDelete { .. } => None,
        Event::ThreadCreate { owner_id, .. } => owner_id,
        Event::ThreadUpdate { owner_id, .. } => owner_id,
        Event::ThreadDelete { .. } => None,
        Event::ThreadListSync { .. } => None,
        Event::ThreadMemberUpdate { user_id, .. } => Some(user_id),
        Event::ThreadMembersUpdate { .. } => None,
        Event::GuildScheduledEventCreate { creator_id, .. } => creator_id,
        Event::GuildScheduledEventUpdate { creator_id, .. } => creator_id,
        Event::GuildScheduledEventDelete { creator_id, .. } => creator_id,
        Event::GuildScheduledEventUserAdd { user_id, .. } => Some(user_id),
        Event::GuildScheduledEventUserRemove { user_id, .. } => Some(user_id),
        Event::EntitlementCreate { user_id, .. } => user_id,
        Event::EntitlementUpdate { user_id, .. } => user_id,
        Event::EntitlementDelete { user_id, .. } => user_id,
        Event::MessagePollVoteAdd { user_id, .. } => Some(user_id),
        Event::MessagePollVoteRemove { user_id, .. } => Some(user_id),
        Event::Ratelimit => None,
    }
}

/// Whether resolving the scope of `e` meets a condition worth a warning: a
/// rate limit.
pub open spec fn scope_warning_of(e: Event) -> bool {
    e is Ratelimit
}

/// Whether resolving the actor of `e` meets a condition worth a warning: a
/// rate limit, or a message update with no author at all.
pub open spec fn actor_warning_of(e: Event) -> bool {
    ||| e is Ratelimit
    ||| (e matches Event::MessageUpdate { author_id, new_author_id, .. } && author_id is None
        && new_author_id is None)
}

impl Interaction {
    /// The guild this interaction was invoked in; none for a ping.
    pub fn guild_id(&self) -> (r: Option<GuildId>)
        ensures
            r == interaction_scope(*self),
    {
        match self {
            Interaction::Ping => None,
            Interaction::Command { guild_id } => *guild_id,
            Interaction::Autocomplete { guild_id } => *guild_id,
            Interaction::Component { guild_id } => *guild_id,
            Interaction::Modal { guild_id } => *guild_id,
            Interaction::Unknown => None,
        }
    }
}

/// The guild an event belongs to, if it belongs to one.
pub fn get_event_guild_id(event: &Event) -> (r: Option<GuildId>)
    ensures
        r == scope_of(*event),
        is_unhandled_kind(kind_of(*event)) ==> r is None,
{
    match event {
        Event::CommandPermissionsUpdate { guild_id } => Some(*guild_id),
        Event::AutoModRuleCreate { guild_id, .. } => Some(*guild_id),
        Event::AutoModRuleUpdate { guild_id, .. } => Some(*guild_id),
        Event::AutoModRuleDelete { guild_id, .. } => Some(*guild_id),
        Event::AutoModActionExecution { guild_id, .. } => Some(*guild_id),
        Event::CacheReady => None,
        Event::ShardsReady => None,
        Event::ChannelCreate { guild_id } => Some(*guild_id),
        Event::CategoryCreate { guild_id } => Some(*guild_id),
        Event::CategoryDelete { guild_id } => Some(*guild_id),
        Event::ChannelDelete { guild_id } => Some(*guild_id),
        Event::ChannelPinsUpdate { guild_id } => *guild_id,
        Event::ChannelUpdate { guild_id, .. } => Some(*guild_id),
        Event::GuildAuditLogEntryCreate { guild_id, .. } => Some(*guild_id),
        Event::GuildBanAddition { guild_id, .. } => Some(*guild_id),
        Event::GuildBanRemoval { guild_id, .. } => Some(*guild_id),
        Event::GuildCreate { guild_id, .. } => Some(*guild_id),
        Event::GuildDelete { guild_id } => Some(*guild_id),
        Event::GuildEmojisUpdate { guild_id } => Some(*guild_id),
        Event::GuildIntegrationsUpdate { guild_id } => Some(*guild_id),
        Event::GuildMemberAddition { guild_id, .. } => Some(*guild_id),
        Event::GuildMemberRemoval { guild_id, .. } => Some(*guild_id),
        Event::GuildMemberUpdate { guild_id, .. } => Some(*guild_id),
        Event::GuildMembersChunk { guild_id } => Some(*guild_id),
        Event::GuildRoleCreate { guild_id } => Some(*guild_id),
        Event::GuildRoleDelete { guild_id } => Some(*guild_id),
        Event::GuildRoleUpdate { guild_id, .. } => Some(*guild_id),
        Event::GuildStickersUpdate { guild_id } => Some(*guild_id),
        Event::GuildUpdate { guild_id, .. } => Some(*guild_id),
        Event::InviteCreate { guild_id, .. } => *guild_id,
        Event::InviteDelete { guild_id } => *guild_id,
        Event::Message { guild_id, .. } => *guild_id,
        Event::MessageDelete { guild_id } => *guild_id,
        Event::MessageDeleteBulk { guild_id } => *guild_id,
        Event::MessageUpdate { guild_id, .. } => *guild_id,
        Event::ReactionAdd { .. } => None,
        Event::ReactionRemove { .. } => None,
        Event::ReactionRemoveAll => None,
        Event::ReactionRemoveEmoji { .. } => None,
        Event::PresenceReplace => None,
        Event::PresenceUpdate { .. } => None,
        Event::Ready => None,
        Event::Resume => None,
        Event::ShardStageUpdate => None,
        Event::SoundboardSounds => None,
        Event::SoundboardSoundCreate => None,
        Event::SoundboardSoundUpdate => None,
        Event::SoundboardSoundsUpdate => None,
        Event::SoundboardSoundDelete => None,
        Event::TypingStart { .. } => None,
        Event::UserUpdate { .. } => None,
        Event::VoiceServerUpdate { .. } => None,
        Event::VoiceStateUpdate { .. } => None,
        Event::VoiceChannelStatusUpdate { guild_id } => Some(*guild_id),
        Event::WebhookUpdate { guild_id } => Some(*guild_id),
        Event::InteractionCreate { interaction } => interaction.guild_id(),
        Event::IntegrationCreate { guild_id, .. } => *guild_id,
        Event::IntegrationUpdate { guild_id, .. } => *guild_id,
        Event::IntegrationDelete { guild_id } => Some(*guild_id),
        Event::StageInstanceCreate { .. } => None,
        Event::StageInstanceUpdate { .. } => None,
        Event::StageInstanceDelete { .. } => None,
        Event::ThreadCreate { guild_id, .. } => Some(*guild_id),
        Event::ThreadUpdate { guild_id, .. } => Some(*guild_id),
        Event::ThreadDelete { guild_id } => Some(*guild_id),
        Event::ThreadListSync { guild_id } => Some(*guild_id),
        Event::ThreadMemberUpdate { guild_id, .. } => *guild_id,
        Event::ThreadMembersUpdate { guild_id } => Some(*guild_id),
        Event::GuildScheduledEventCreate { guild_id, .. } => Some(*guild_id),
        Event::GuildScheduledEventUpdate { guild_id, .. } => Some(*guild_id),
        Event::GuildScheduledEventDelete { guild_id, .. } => Some(*guild_id),
        Event::GuildScheduledEventUserAdd { guild_id, .. } => Some(*guild_id),
        Event::GuildScheduledEventUserRemove { guild_id, .. } => Some(*guild_id),
        Event::EntitlementCreate { guild_id, .. } => *guild_id,
        Event::EntitlementUpdate { guild_id, .. } => *guild_id,
        Event::EntitlementDelete { guild_id, .. } => *guild_id,
        Event::MessagePollVoteAdd { guild_id, .. } => *guild_id,
        Event::MessagePollVoteRemove { guild_id, .. } => *guild_id,
        Event::Ratelimit => None,
    }
}

/// The user responsible for an event, if the event names one.
pub fn get_event_user_id(event: &Event) -> (r: Option<UserId>)
    ensures
        r == actor_of(*event),
        is_unhandled_kind(kind_of(*event)) ==> r is None,
{
    match event {
        Event::CommandPermissionsUpdate { .. } => None,
        Event::AutoModRuleCreate { creator_id, .. } => Some(*creator_id),
        Event::AutoModRuleUpdate { creator_id, .. } => Some(*creator_id),
        Event::AutoModRuleDelete { creator_id, .. } => Some(*creator_id),
        Event::AutoModActionExecution { user_id, .. } => Some(*user_id),
        Event::CacheReady => None,
        Event::ShardsReady => None,
        Event::ChannelCreate { .. } => None,
        Event::CategoryCreate { .. } => None,
        Event::CategoryDelete { .. } => None,
        Event::ChannelDelete { .. } => None,
        Event::ChannelPinsUpdate { .. } => None,
        Event::ChannelUpdate { .. } => None,
        Event::GuildAuditLogEntryCreate { user_id, .. } => *user_id,
        Event::GuildBanAddition { user_id, .. } => Some(*user_id),
        Event::GuildBanRemoval { user_id, .. } => Some(*user_id),
        Event::GuildCreate { owner_id, .. } => Some(*owner_id),
        Event::GuildDelete { .. } => None,
        Event::GuildEmojisUpdate { .. } => None,
        Event::GuildIntegrationsUpdate { .. } => None,
        Event::GuildMemberAddition { user_id, .. } => Some(*user_id),
        Event::GuildMemberRemoval { user_id, .. } => Some(*user_id),
        Event::GuildMemberUpdate { user_id, .. } => Some(*user_id),
        Event::GuildMembersChunk { .. } => None,
        Event::GuildRoleCreate { .. } => None,
        Event::GuildRoleDelete { .. } => None,
        Event::GuildRoleUpdate { .. } => None,
        Event::GuildStickersUpdate { .. } => None,
        Event::GuildUpdate { .. } => None,
        Event::InviteCreate { inviter_id, .. } => *inviter_id,
        Event::InviteDelete { .. } => None,
        Event::Message { author_id, .. } => Some(*author_id),
        Event::MessageDelete { .. } => None,
        Event::MessageDeleteBulk { .. } => None,
        Event::MessageUpdate { author_id, new_author_id, .. } => match new_author_id {
                Some(a) => Some(*a),
                None => *author_id,
            },
        Event::ReactionAdd { .. } => None,
        Event::ReactionRemove { .. } => None,
        Event::ReactionRemoveAll => None,
        Event::ReactionRemoveEmoji { .. } => None,
        Event::PresenceReplace => None,
        Event::PresenceUpdate { .. } => None,
        Event::Ready => None,
        Event::Resume => None,
        Event::ShardStageUpdate => None,
        Event::SoundboardSounds => None,
        Event::SoundboardSoundCreate => None,
        Event::SoundboardSoundUpdate => None,
        Event::SoundboardSoundsUpdate => None,
        Event::SoundboardSoundDelete => None,
        Event::TypingStart { .. } => None,
        Event::UserUpdate { .. } => None,
        Event::VoiceServerUpdate { .. } => None,
        Event::VoiceStateUpdate { .. } => None,
        Event::VoiceChannelStatusUpdate { .. } => None,
        Event::WebhookUpdate { .. } => None,
        Event::InteractionCreate { .. } => None,
        Event::IntegrationCreate { user_id, .. } => *user_id,
        Event::IntegrationUpdate { user_id, .. } => *user_id,
        Event::IntegrationDelete { .. } => None,
        Event::StageInstanceCreate { .. } => None,
        Event::StageInstanceUpdate { .. } => None,
        Event::StageInstanceDelete { .. } => None,
        Event::ThreadCreate { owner_id, .. } => *owner_id,
        Event::ThreadUpdate { owner_id, .. } => *owner_id,
        Event::ThreadDelete { .. } => None,
        Event::ThreadListSync { .. } => None,
        Event::ThreadMemberUpdate { user_id, .. } => Some(*user_id),
        Event::ThreadMembersUpdate { .. } => None,
        Event::GuildScheduledEventCreate { creator_id, .. } => *creator_id,
        Event::GuildScheduledEventUpdate { creator_id, .. } => *creator_id,
        Event::GuildScheduledEventDelete { creator_id, .. } => *creator_id,
        Event::GuildScheduledEventUserAdd { user_id, .. } => Some(*user_id),
        Event::GuildScheduledEventUserRemove { user_id, .. } => Some(*user_id),
        Event::EntitlementCreate { user_id, .. } => *user_id,
        Event::EntitlementUpdate { user_id, .. } => *user_id,
        Event::EntitlementDelete { user_id, .. } => *user_id,
        Event::MessagePollVoteAdd { user_id, .. } => Some(*user_id),
        Event::MessagePollVoteRemove { user_id, .. } => Some(*user_id),
        Event::Ratelimit => None,
    }
}

/// Whether resolving the scope of `event` should be reported as a warning.
pub fn scope_warning(event: &Event) -> (r: bool)
    ensures
        r == scope_warning_of(*event),
{
    match event {
        Event::Ratelimit => true,
        _ => false,
    }
}

/// Whether resolving the actor of `event` should be reported as a warning.
pub fn actor_warning(event: &Event) -> (r: bool)
    ensures
        r == actor_warning_of(*event),
{
    match event {
        Event::Ratelimit => true,
        Event::MessageUpdate { author_id: None, new_author_id: None, .. } => true,
        _ => false,
    }
}

} // verus!
