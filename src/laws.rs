use crate::event::{kind_of, Event, Interaction};
use crate::ids::{GuildId, UserId};
use crate::resolve::{actor_of, is_unhandled_kind, scope_of};
use vstd::prelude::*;

verus! {

/// Resolution is a function of the event alone: equal events have equal
/// scopes and equal actors.
pub proof fn lemma_resolution_deterministic(a: Event, b: Event)
    requires
        a == b,
    ensures
        scope_of(a) == scope_of(b),
        actor_of(a) == actor_of(b),
{
}

/// Updates resolve from the new state: the scope of a channel, role, guild or
/// thread update is the new guild, and the actor of a thread update is its
/// new owner, whatever the previous state held. A message update with a new
/// snapshot is attributed to that snapshot's author, whatever the previous
/// message and the event record.
pub proof fn lemma_current_state_preferred(
    previous_guild: Option<GuildId>,
    guild: GuildId,
    previous_owner: Option<UserId>,
    owner: Option<UserId>,
    message_guild: Option<GuildId>,
    event_author: Option<UserId>,
    new_author: UserId,
    previous_author: Option<UserId>,
)
    ensures
        scope_of(Event::ChannelUpdate { previous_guild_id: previous_guild, guild_id: guild }) == Some(
            guild,
        ),
        scope_of(Event::GuildRoleUpdate { previous_guild_id: previous_guild, guild_id: guild })
            == Some(guild),
        scope_of(Event::GuildUpdate { previous_guild_id: previous_guild, guild_id: guild }) == Some(
            guild,
        ),
        scope_of(
            (Event::ThreadUpdate {
                previous_guild_id: previous_guild,
                previous_owner_id: previous_owner,
                guild_id: guild,
                owner_id: owner,
            }),
        ) == Some(guild),
        actor_of(
            (Event::ThreadUpdate {
                previous_guild_id: previous_guild,
                previous_owner_id: previous_owner,
                guild_id: guild,
                owner_id: owner,
            }),
        ) == owner,
        actor_of(
            (Event::MessageUpdate {
                guild_id: message_guild,
                author_id: event_author,
                new_author_id: Some(new_author),
                previous_author_id: previous_author,
            }),
        ) == Some(new_author),
{
}

/// A message update without a new snapshot is attributed to the author
/// recorded on the event, and to nobody when the event records none.
pub proof fn lemma_message_update_fallback(
    guild: Option<GuildId>,
    event_author: UserId,
    previous_author: Option<UserId>,
)
    ensures
        actor_of(
            (Event::MessageUpdate {
                guild_id: guild,
                author_id: Some(event_author),
                new_author_id: None,
                previous_author_id: previous_author,
            }),
        ) == Some(event_author),
        actor_of(
            (Event::MessageUpdate {
                guild_id: guild,
                author_id: None,
                new_author_id: None,
                previous_author_id: previous_author,
            }),
        ) is None,
{
}

/// Events of a deliberately unhandled kind have neither a scope nor an actor,
/// whatever their payload.
pub proof fn lemma_unhandled_resolve_to_nothing(e: Event)
    requires
        is_unhandled_kind(kind_of(e)),
    ensures
        scope_of(e) is None,
        actor_of(e) is None,
{
}

/// A scheduled event is attributed to its creator when one is recorded, and
/// to nobody otherwise.
pub proof fn lemma_scheduled_event_creator(guild: GuildId, creator: UserId)
    ensures
        actor_of(Event::GuildScheduledEventCreate { guild_id: guild, creator_id: None }) is None,
        actor_of(Event::GuildScheduledEventCreate { guild_id: guild, creator_id: Some(creator) })
            == Some(creator),
{
}

/// A ping interaction has no scope; a command interaction has the guild it
/// was invoked in, if any.
pub proof fn lemma_interaction_scope(guild: Option<GuildId>)
    ensures
        scope_of(Event::InteractionCreate { interaction: Interaction::Ping }) is None,
        scope_of(Event::InteractionCreate { interaction: Interaction::Command { guild_id: guild } })
            == guild,
{
}

} // verus!
