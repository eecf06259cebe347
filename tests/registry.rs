use event_scope::event::{Event, Interaction};
use event_scope::ids::{GuildId, UserId};
use event_scope::kind::{event_list, EventKind, EVENT_KIND_COUNT};
use event_scope::resolve::{get_event_guild_id, get_event_user_id};

/// An event of the given kind whose every identifier field is set (guild 7,
/// user 9), with the scope and actor that resolution owes it.
fn sample(kind: EventKind) -> (Event, Option<GuildId>, Option<UserId>) {
    match kind {
        EventKind::CommandPermissionsUpdate => (
            Event::CommandPermissionsUpdate { guild_id: GuildId(7) },
            Some(GuildId(7)),
            None,
        ),
        EventKind::AutoModRuleCreate => (
            Event::AutoModRuleCreate { guild_id: GuildId(7), creator_id: UserId(9) },
            Some(GuildId(7)),
            Some(UserId(9)),
        ),
        EventKind::AutoModRuleUpdate => (
            Event::AutoModRuleUpdate { guild_id: GuildId(7), creator_id: UserId(9) },
            Some(GuildId(7)),
            Some(UserId(9)),
        ),
        EventKind::AutoModRuleDelete => (
            Event::AutoModRuleDelete { guild_id: GuildId(7), creator_id: UserId(9) },
            Some(GuildId(7)),
            Some(UserId(9)),
        ),
        EventKind::AutoModActionExecution => (
            Event::AutoModActionExecution { guild_id: GuildId(7), user_id: UserId(9) },
            Some(GuildId(7)),
            Some(UserId(9)),
        ),
        EventKind::CacheReady => (
            Event::CacheReady,
            None,
            None,
        ),
        EventKind::ShardsReady => (
            Event::ShardsReady,
            None,
            None,
        ),
        EventKind::ChannelCreate => (
            Event::ChannelCreate { guild_id: GuildId(7) },
            Some(GuildId(7)),
            None,
        ),
        EventKind::CategoryCreate => (
            Event::CategoryCreate { guild_id: GuildId(7) },
            Some(GuildId(7)),
            None,
        ),
        EventKind::CategoryDelete => (
            Event::CategoryDelete { guild_id: GuildId(7) },
            Some(GuildId(7)),
            None,
        ),
        EventKind::ChannelDelete => (
            Event::ChannelDelete { guild_id: GuildId(7) },
            Some(GuildId(7)),
            None,
        ),
        EventKind::ChannelPinsUpdate => (
            Event::ChannelPinsUpdate { guild_id: Some(GuildId(7)) },
            Some(GuildId(7)),
            None,
        ),
        EventKind::ChannelUpdate => (
            Event::ChannelUpdate { previous_guild_id: Some(GuildId(7)), guild_id: GuildId(7) },
            Some(GuildId(7)),
            None,
        ),
        EventKind::GuildAuditLogEntryCreate => (
            Event::GuildAuditLogEntryCreate { guild_id: GuildId(7), user_id: Some(UserId(9)) },
            Some(GuildId(7)),
            Some(UserId(9)),
        ),
        EventKind::GuildBanAddition => (
            Event::GuildBanAddition { guild_id: GuildId(7), user_id: UserId(9) },
            Some(GuildId(7)),
            Some(UserId(9)),
        ),
        EventKind::GuildBanRemoval => (
            Event::GuildBanRemoval { guild_id: GuildId(7), user_id: UserId(9) },
            Some(GuildId(7)),
            Some(UserId(9)),
        ),
        EventKind::GuildCreate => (
            Event::GuildCreate { guild_id: GuildId(7), owner_id: UserId(9) },
            Some(GuildId(7)),
            Some(UserId(9)),
        ),
        EventKind::GuildDelete => (
            Event::GuildDelete { guild_id: GuildId(7) },
            Some(GuildId(7)),
            None,
        ),
        EventKind::GuildEmojisUpdate => (
            Event::GuildEmojisUpdate { guild_id: GuildId(7) },
            Some(GuildId(7)),
            None,
        ),
        EventKind::GuildIntegrationsUpdate => (
            Event::GuildIntegrationsUpdate { guild_id: GuildId(7) },
            Some(GuildId(7)),
            None,
        ),
        EventKind::GuildMemberAddition => (
            Event::GuildMemberAddition { guild_id: GuildId(7), user_id: UserId(9) },
            Some(GuildId(7)),
            Some(UserId(9)),
        ),
        EventKind::GuildMemberRemoval => (
            Event::GuildMemberRemoval { guild_id: GuildId(7), user_id: UserId(9) },
            Some(GuildId(7)),
            Some(UserId(9)),
        ),
        EventKind::GuildMemberUpdate => (
            Event::GuildMemberUpdate { guild_id: GuildId(7), user_id: UserId(9) },
            Some(GuildId(7)),
            Some(UserId(9)),
        ),
        EventKind::GuildMembersChunk => (
            Event::GuildMembersChunk { guild_id: GuildId(7) },
            Some(GuildId(7)),
            None,
        ),
        EventKind::GuildRoleCreate => (
            Event::GuildRoleCreate { guild_id: GuildId(7) },
            Some(GuildId(7)),
            None,
        ),
        EventKind::GuildRoleDelete => (
            Event::GuildRoleDelete { guild_id: GuildId(7) },
            Some(GuildId(7)),
            None,
        ),
        EventKind::GuildRoleUpdate => (
            Event::GuildRoleUpdate { previous_guild_id: Some(GuildId(7)), guild_id: GuildId(7) },
            Some(GuildId(7)),
            None,
        ),
        EventKind::GuildStickersUpdate => (
            Event::GuildStickersUpdate { guild_id: GuildId(7) },
            Some(GuildId(7)),
            None,
        ),
        EventKind::GuildUpdate => (
            Event::GuildUpdate { previous_guild_id: Some(GuildId(7)), guild_id: GuildId(7) },
            Some(GuildId(7)),
            None,
        ),
        EventKind::InviteCreate => (
            Event::InviteCreate { guild_id: Some(GuildId(7)), inviter_id: Some(UserId(9)) },
            Some(GuildId(7)),
            Some(UserId(9)),
        ),
        EventKind::InviteDelete => (
            Event::InviteDelete { guild_id: Some(GuildId(7)) },
            Some(GuildId(7)),
            None,
        ),
        EventKind::Message => (
            Event::Message { guild_id: Some(GuildId(7)), author_id: UserId(9) },
            Some(GuildId(7)),
            Some(UserId(9)),
        ),
        EventKind::MessageDelete => (
            Event::MessageDelete { guild_id: Some(GuildId(7)) },
            Some(GuildId(7)),
            None,
        ),
        EventKind::MessageDeleteBulk => (
            Event::MessageDeleteBulk { guild_id: Some(GuildId(7)) },
            Some(GuildId(7)),
            None,
        ),
        EventKind::MessageUpdate => (
            Event::MessageUpdate { guild_id: Some(GuildId(7)), author_id: Some(UserId(9)), new_author_id: Some(UserId(9)), previous_author_id: Some(UserId(9)) },
            Some(GuildId(7)),
            Some(UserId(9)),
        ),
        EventKind::ReactionAdd => (
            Event::ReactionAdd { guild_id: Some(GuildId(7)), user_id: Some(UserId(9)) },
            None,
            None,
        ),
        EventKind::ReactionRemove => (
            Event::ReactionRemove { guild_id: Some(GuildId(7)), user_id: Some(UserId(9)) },
            None,
            None,
        ),
        EventKind::ReactionRemoveAll => (
            Event::ReactionRemoveAll,
            None,
            None,
        ),
        EventKind::ReactionRemoveEmoji => (
            Event::ReactionRemoveEmoji { guild_id: Some(GuildId(7)), user_id: Some(UserId(9)) },
            None,
            None,
        ),
        EventKind::PresenceReplace => (
            Event::PresenceReplace,
            None,
            None,
        ),
        EventKind::PresenceUpdate => (
            Event::PresenceUpdate { guild_id: Some(GuildId(7)), user_id: UserId(9) },
            None,
            None,
        ),
        EventKind::Ready => (
            Event::Ready,
            None,
            None,
        ),
        EventKind::Resume => (
            Event::Resume,
            None,
            None,
        ),
        EventKind::ShardStageUpdate => (
            Event::ShardStageUpdate,
            None,
            None,
        ),
        EventKind::SoundboardSounds => (
            Event::SoundboardSounds,
            None,
            None,
        ),
        EventKind::SoundboardSoundCreate => (
            Event::SoundboardSoundCreate,
            None,
            None,
        ),
        EventKind::SoundboardSoundUpdate => (
            Event::SoundboardSoundUpdate,
            None,
            None,
        ),
        EventKind::SoundboardSoundsUpdate => (
            Event::SoundboardSoundsUpdate,
            None,
            None,
        ),
        EventKind::SoundboardSoundDelete => (
            Event::SoundboardSoundDelete,
            None,
            None,
        ),
        EventKind::TypingStart => (
            Event::TypingStart { guild_id: Some(GuildId(7)), user_id: UserId(9) },
            None,
            None,
        ),
        EventKind::UserUpdate => (
            Event::UserUpdate { user_id: UserId(9) },
            None,
            None,
        ),
        EventKind::VoiceServerUpdate => (
            Event::VoiceServerUpdate { guild_id: Some(GuildId(7)) },
            None,
            None,
        ),
        EventKind::VoiceStateUpdate => (
            Event::VoiceStateUpdate { guild_id: Some(GuildId(7)), user_id: UserId(9) },
            None,
            None,
        ),
        EventKind::VoiceChannelStatusUpdate => (
            Event::VoiceChannelStatusUpdate { guild_id: GuildId(7) },
            Some(GuildId(7)),
            None,
        ),
        EventKind::WebhookUpdate => (
            Event::WebhookUpdate { guild_id: GuildId(7) },
            Some(GuildId(7)),
            None,
        ),
        EventKind::InteractionCreate => (
            Event::InteractionCreate { interaction: Interaction::Command { guild_id: Some(GuildId(7)) } },
            Some(GuildId(7)),
            None,
        ),
        EventKind::IntegrationCreate => (
            Event::IntegrationCreate { guild_id: Some(GuildId(7)), user_id: Some(UserId(9)) },
            Some(GuildId(7)),
            Some(UserId(9)),
        ),
        EventKind::IntegrationUpdate => (
            Event::IntegrationUpdate { guild_id: Some(GuildId(7)), user_id: Some(UserId(9)) },
            Some(GuildId(7)),
            Some(UserId(9)),
        ),
        EventKind::IntegrationDelete => (
            Event::IntegrationDelete { guild_id: GuildId(7) },
            Some(GuildId(7)),
            None,
        ),
        EventKind::StageInstanceCreate => (
            Event::StageInstanceCreate { guild_id: GuildId(7) },
            None,
            None,
        ),
        EventKind::StageInstanceUpdate => (
            Event::StageInstanceUpdate { guild_id: GuildId(7) },
            None,
            None,
        ),
        EventKind::StageInstanceDelete => (
            Event::StageInstanceDelete { guild_id: GuildId(7) },
            None,
            None,
        ),
        EventKind::ThreadCreate => (
            Event::ThreadCreate { guild_id: GuildId(7), owner_id: Some(UserId(9)) },
            Some(GuildId(7)),
            Some(UserId(9)),
        ),
        EventKind::ThreadUpdate => (
            Event::ThreadUpdate { previous_guild_id: Some(GuildId(7)), previous_owner_id: Some(UserId(9)), guild_id: GuildId(7), owner_id: Some(UserId(9)) },
            Some(GuildId(7)),
            Some(UserId(9)),
        ),
        EventKind::ThreadDelete => (
            Event::ThreadDelete { guild_id: GuildId(7) },
            Some(GuildId(7)),
            None,
        ),
        EventKind::ThreadListSync => (
            Event::ThreadListSync { guild_id: GuildId(7) },
            Some(GuildId(7)),
            None,
        ),
        EventKind::ThreadMemberUpdate => (
            Event::ThreadMemberUpdate { guild_id: Some(GuildId(7)), user_id: UserId(9) },
            Some(GuildId(7)),
            Some(UserId(9)),
        ),
        EventKind::ThreadMembersUpdate => (
            Event::ThreadMembersUpdate { guild_id: GuildId(7) },
            Some(GuildId(7)),
            None,
        ),
        EventKind::GuildScheduledEventCreate => (
            Event::GuildScheduledEventCreate { guild_id: GuildId(7), creator_id: Some(UserId(9)) },
            Some(GuildId(7)),
            Some(UserId(9)),
        ),
        EventKind::GuildScheduledEventUpdate => (
            Event::GuildScheduledEventUpdate { guild_id: GuildId(7), creator_id: Some(UserId(9)) },
            Some(GuildId(7)),
            Some(UserId(9)),
        ),
        EventKind::GuildScheduledEventDelete => (
            Event::GuildScheduledEventDelete { guild_id: GuildId(7), creator_id: Some(UserId(9)) },
            Some(GuildId(7)),
            Some(UserId(9)),
        ),
        EventKind::GuildScheduledEventUserAdd => (
            Event::GuildScheduledEventUserAdd { guild_id: GuildId(7), user_id: UserId(9) },
            Some(GuildId(7)),
            Some(UserId(9)),
        ),
        EventKind::GuildScheduledEventUserRemove => (
            Event::GuildScheduledEventUserRemove { guild_id: GuildId(7), user_id: UserId(9) },
            Some(GuildId(7)),
            Some(UserId(9)),
        ),
        EventKind::EntitlementCreate => (
            Event::EntitlementCreate { guild_id: Some(GuildId(7)), user_id: Some(UserId(9)) },
            Some(GuildId(7)),
            Some(UserId(9)),
        ),
        EventKind::EntitlementUpdate => (
            Event::EntitlementUpdate { guild_id: Some(GuildId(7)), user_id: Some(UserId(9)) },
            Some(GuildId(7)),
            Some(UserId(9)),
        ),
        EventKind::EntitlementDelete => (
            Event::EntitlementDelete { guild_id: Some(GuildId(7)), user_id: Some(UserId(9)) },
            Some(GuildId(7)),
            Some(UserId(9)),
        ),
        EventKind::MessagePollVoteAdd => (
            Event::MessagePollVoteAdd { guild_id: Some(GuildId(7)), user_id: UserId(9) },
            Some(GuildId(7)),
            Some(UserId(9)),
        ),
        EventKind::MessagePollVoteRemove => (
            Event::MessagePollVoteRemove { guild_id: Some(GuildId(7)), user_id: UserId(9) },
            Some(GuildId(7)),
            Some(UserId(9)),
        ),
        EventKind::Ratelimit => (
            Event::Ratelimit,
            None,
            None,
        ),
    }
}

#[test]
fn every_listed_kind_resolves() {
    let names = event_list();
    assert_eq!(names.len(), EVENT_KIND_COUNT);
    for (i, name) in names.iter().enumerate() {
        let kind = EventKind::from_index(i);
        assert_eq!(kind.name(), *name);
        let (event, scope, actor) = sample(kind);
        assert_eq!(event.kind(), kind);
        assert_eq!(get_event_guild_id(&event), scope, "scope of {}", name);
        assert_eq!(get_event_user_id(&event), actor, "actor of {}", name);
    }
}

#[test]
fn registry_names_are_distinct_and_ordered() {
    let names = event_list();
    assert_eq!(names.len(), 79);
    assert_eq!(names[0], "CommandPermissionsUpdate");
    assert_eq!(names[5], "CacheReady");
    assert_eq!(names[55], "InteractionCreate");
    assert_eq!(names[78], "Ratelimit");
    for i in 0..names.len() {
        for j in (i + 1)..names.len() {
            assert_ne!(names[i], names[j]);
        }
    }
}
