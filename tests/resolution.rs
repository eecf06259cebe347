use event_scope::event::{Event, Interaction};
use event_scope::ids::{GuildId, UserId};
use event_scope::resolve::{actor_warning, get_event_guild_id, get_event_user_id, scope_warning};

#[test]
fn resolution_is_deterministic() {
    let events = [
        Event::Message { guild_id: Some(GuildId(3)), author_id: UserId(4) },
        Event::ThreadCreate { guild_id: GuildId(5), owner_id: None },
        Event::Ratelimit,
        Event::InteractionCreate { interaction: Interaction::Modal { guild_id: Some(GuildId(6)) } },
    ];
    for e in events.iter() {
        let copy = *e;
        assert_eq!(get_event_guild_id(e), get_event_guild_id(&copy));
        assert_eq!(get_event_user_id(e), get_event_user_id(&copy));
    }
}

#[test]
fn updates_resolve_from_new_state() {
    let channel = Event::ChannelUpdate { previous_guild_id: Some(GuildId(1)), guild_id: GuildId(2) };
    assert_eq!(get_event_guild_id(&channel), Some(GuildId(2)));
    let role = Event::GuildRoleUpdate { previous_guild_id: Some(GuildId(1)), guild_id: GuildId(2) };
    assert_eq!(get_event_guild_id(&role), Some(GuildId(2)));
    let guild = Event::GuildUpdate { previous_guild_id: Some(GuildId(1)), guild_id: GuildId(2) };
    assert_eq!(get_event_guild_id(&guild), Some(GuildId(2)));
    let thread = Event::ThreadUpdate {
        previous_guild_id: Some(GuildId(1)),
        previous_owner_id: Some(UserId(10)),
        guild_id: GuildId(2),
        owner_id: Some(UserId(20)),
    };
    assert_eq!(get_event_guild_id(&thread), Some(GuildId(2)));
    assert_eq!(get_event_user_id(&thread), Some(UserId(20)));
    let message = Event::MessageUpdate {
        guild_id: Some(GuildId(2)),
        author_id: Some(UserId(30)),
        new_author_id: Some(UserId(20)),
        previous_author_id: Some(UserId(10)),
    };
    assert_eq!(get_event_user_id(&message), Some(UserId(20)));
    assert_eq!(get_event_guild_id(&message), Some(GuildId(2)));
}

#[test]
fn message_update_falls_back_to_event_author() {
    let with_author = Event::MessageUpdate {
        guild_id: None,
        author_id: Some(UserId(30)),
        new_author_id: None,
        previous_author_id: Some(UserId(10)),
    };
    assert_eq!(get_event_user_id(&with_author), Some(UserId(30)));
    assert!(!actor_warning(&with_author));
    let without = Event::MessageUpdate {
        guild_id: None,
        author_id: None,
        new_author_id: None,
        previous_author_id: Some(UserId(10)),
    };
    assert_eq!(get_event_user_id(&without), None);
    assert!(actor_warning(&without));
    assert!(!scope_warning(&without));
}

#[test]
fn unhandled_kinds_resolve_to_nothing() {
    let events = [
        Event::PresenceUpdate { guild_id: Some(GuildId(1)), user_id: UserId(2) },
        Event::PresenceReplace,
        Event::TypingStart { guild_id: Some(GuildId(1)), user_id: UserId(2) },
        Event::VoiceStateUpdate { guild_id: Some(GuildId(1)), user_id: UserId(2) },
        Event::VoiceServerUpdate { guild_id: Some(GuildId(1)) },
        Event::ReactionAdd { guild_id: Some(GuildId(1)), user_id: Some(UserId(2)) },
        Event::ReactionRemove { guild_id: Some(GuildId(1)), user_id: Some(UserId(2)) },
        Event::ReactionRemoveEmoji { guild_id: Some(GuildId(1)), user_id: Some(UserId(2)) },
        Event::ReactionRemoveAll,
        Event::StageInstanceCreate { guild_id: GuildId(1) },
        Event::UserUpdate { user_id: UserId(2) },
        Event::Ready,
        Event::Resume,
        Event::CacheReady,
        Event::ShardsReady,
        Event::ShardStageUpdate,
        Event::Ratelimit,
    ];
    for e in events.iter() {
        assert_eq!(get_event_guild_id(e), None, "{:?}", e);
        assert_eq!(get_event_user_id(e), None, "{:?}", e);
    }
}

#[test]
fn ratelimit_is_reported() {
    assert!(scope_warning(&Event::Ratelimit));
    assert!(actor_warning(&Event::Ratelimit));
    assert!(!scope_warning(&Event::Ready));
    assert!(!actor_warning(&Event::Ready));
}

#[test]
fn scheduled_event_creator_is_optional() {
    let without = Event::GuildScheduledEventCreate { guild_id: GuildId(1), creator_id: None };
    assert_eq!(get_event_user_id(&without), None);
    assert_eq!(get_event_guild_id(&without), Some(GuildId(1)));
    let with = Event::GuildScheduledEventCreate { guild_id: GuildId(1), creator_id: Some(UserId(8)) };
    assert_eq!(get_event_user_id(&with), Some(UserId(8)));
    let deleted = Event::GuildScheduledEventDelete { guild_id: GuildId(1), creator_id: None };
    assert_eq!(get_event_guild_id(&deleted), Some(GuildId(1)));
    assert_eq!(get_event_user_id(&deleted), None);
}

#[test]
fn interaction_scope_depends_on_kind() {
    let ping = Event::InteractionCreate { interaction: Interaction::Ping };
    assert_eq!(get_event_guild_id(&ping), None);
    let in_guild = Event::InteractionCreate { interaction: Interaction::Command { guild_id: Some(GuildId(4)) } };
    assert_eq!(get_event_guild_id(&in_guild), Some(GuildId(4)));
    assert_eq!(get_event_user_id(&in_guild), None);
    let direct = Event::InteractionCreate { interaction: Interaction::Command { guild_id: None } };
    assert_eq!(get_event_guild_id(&direct), None);
    let autocomplete =
        Event::InteractionCreate { interaction: Interaction::Autocomplete { guild_id: Some(GuildId(5)) } };
    assert_eq!(get_event_guild_id(&autocomplete), Some(GuildId(5)));
    let component = Event::InteractionCreate { interaction: Interaction::Component { guild_id: None } };
    assert_eq!(get_event_guild_id(&component), None);
    let unknown = Event::InteractionCreate { interaction: Interaction::Unknown };
    assert_eq!(get_event_guild_id(&unknown), None);
}

#[test]
fn optional_scopes_follow_payload() {
    let pins = Event::ChannelPinsUpdate { guild_id: None };
    assert_eq!(get_event_guild_id(&pins), None);
    let pins = Event::ChannelPinsUpdate { guild_id: Some(GuildId(3)) };
    assert_eq!(get_event_guild_id(&pins), Some(GuildId(3)));
    let entitlement = Event::EntitlementCreate { guild_id: None, user_id: None };
    assert_eq!(get_event_guild_id(&entitlement), None);
    assert_eq!(get_event_user_id(&entitlement), None);
    let dm = Event::Message { guild_id: None, author_id: UserId(11) };
    assert_eq!(get_event_guild_id(&dm), None);
    assert_eq!(get_event_user_id(&dm), Some(UserId(11)));
}

#[test]
fn guild_create_reports_owner() {
    let e = Event::GuildCreate { guild_id: GuildId(12), owner_id: UserId(13) };
    assert_eq!(get_event_guild_id(&e), Some(GuildId(12)));
    assert_eq!(get_event_user_id(&e), Some(UserId(13)));
}

#[test]
fn structural_events_have_scope_but_no_actor() {
    let events = [
        Event::ChannelCreate { guild_id: GuildId(1) },
        Event::CategoryDelete { guild_id: GuildId(1) },
        Event::GuildRoleCreate { guild_id: GuildId(1) },
        Event::GuildEmojisUpdate { guild_id: GuildId(1) },
        Event::GuildMembersChunk { guild_id: GuildId(1) },
        Event::ThreadListSync { guild_id: GuildId(1) },
        Event::ThreadMembersUpdate { guild_id: GuildId(1) },
        Event::VoiceChannelStatusUpdate { guild_id: GuildId(1) },
        Event::WebhookUpdate { guild_id: GuildId(1) },
    ];
    for e in events.iter() {
        assert_eq!(get_event_guild_id(e), Some(GuildId(1)), "{:?}", e);
        assert_eq!(get_event_user_id(e), None, "{:?}", e);
    }
}

#[test]
fn ban_events_report_subject_user() {
    let add = Event::GuildBanAddition { guild_id: GuildId(1), user_id: UserId(2) };
    assert_eq!(get_event_user_id(&add), Some(UserId(2)));
    let remove = Event::GuildBanRemoval { guild_id: GuildId(1), user_id: UserId(3) };
    assert_eq!(get_event_user_id(&remove), Some(UserId(3)));
    assert_eq!(get_event_guild_id(&remove), Some(GuildId(1)));
}
