//! Whole dispatches, run against a store that keeps its promises, and what
//! holds of them.

use vstd::prelude::*;
use crate::db::model::{lookup, lookup_returns_or_creates, referenced, Table};
use crate::dispatch::{
    claimed_payload, claims, dispatch_step, first_claim_is_unique, is_first_claim,
    DispatchActionView, DispatchEventView, DispatchStateView, MessageView,
};
use crate::providers::Provider;

verus! {

/// A message that was handed out for posting: the channel and the text.
pub type Posted = (u64, Seq<char>);

/// A dispatch driven against `table` from `state` and `event`: each action
/// is carried out on the table and its answer handed back, for at most
/// `steps` steps. The result is the table afterwards and the messages that
/// were posted; `None` if the dispatch was not over by then.
pub open spec fn dispatch_from(
    providers: Seq<&dyn Provider>,
    table: Table,
    state: DispatchStateView,
    event: DispatchEventView,
    steps: nat,
) -> Option<(Table, Seq<Posted>)>
    decreases steps,
{
    if steps == 0 {
        None
    } else {
        let (next, action) = dispatch_step(providers, state, event);
        match action {
            DispatchActionView::Ignore => None,
            DispatchActionView::Drop => Some((table, Seq::empty())),
            DispatchActionView::GetOrCreateGuild { guild_id } => match lookup(table, guild_id) {
                Some((looked_up, answer)) => dispatch_from(
                    providers,
                    looked_up,
                    next,
                    DispatchEventView::Guild(answer),
                    (steps - 1) as nat,
                ),
                None => None,
            },
            DispatchActionView::Send { channel_id, payload } => Some(
                (table, seq![(channel_id, payload)]),
            ),
        }
    }
}

/// The whole dispatch of `message` against `table`.
pub open spec fn relay(providers: Seq<&dyn Provider>, table: Table, message: MessageView) -> Option<
    (Table, Seq<Posted>),
> {
    dispatch_from(
        providers,
        table,
        DispatchStateView::Scanning,
        DispatchEventView::Received(message),
        2,
    )
}

/// Every dispatch comes to an end, and posts at most one message.
pub proof fn at_most_one_message_is_posted(
    providers: Seq<&dyn Provider>,
    table: Table,
    message: MessageView,
)
    ensures
        relay(providers, table, message) matches Some((_, posted)) && posted.len() <= 1,
{
    reveal_with_fuel(dispatch_from, 3);
    if let Some(guild_id) = message.guild_id {
        lookup_returns_or_creates(table, guild_id);
    }
}

/// Messages of automated accounts, messages outside a guild and messages
/// that no provider claims are dropped without a word to the store.
pub proof fn unclaimed_messages_are_dropped(
    providers: Seq<&dyn Provider>,
    table: Table,
    message: MessageView,
)
    requires
        message.author_is_bot || message.guild_id is None || forall|index: int|
            !claims(providers, message.content, index),
    ensures
        relay(providers, table, message) == Some((table, Seq::<Posted>::empty())),
{
    reveal_with_fuel(dispatch_from, 3);
    first_claim_is_unique(providers, message.content, 0);
}

/// Where two providers claim a message, the one registered first answers:
/// if it is enabled in the guild, exactly one message is posted, and it is
/// that provider's.
pub proof fn first_registered_provider_answers(
    providers: Seq<&dyn Provider>,
    table: Table,
    message: MessageView,
    guild_id: u64,
    first: int,
    second: int,
)
    requires
        !message.author_is_bot,
        message.guild_id == Some(guild_id),
        is_first_claim(providers, message.content, first),
        first < second,
        claims(providers, message.content, second),
        !referenced(table, guild_id)[guild_id].contains(providers[first].name_spec()),
    ensures
        relay(providers, table, message) == Some(
            (
                referenced(table, guild_id),
                seq![(message.channel_id, claimed_payload(providers, message.content, first))],
            ),
        ),
{
    reveal_with_fuel(dispatch_from, 3);
    first_claim_is_unique(providers, message.content, first);
    lookup_returns_or_creates(table, guild_id);
}

/// A message whose first claiming provider is disabled in the guild posts
/// nothing, whatever other providers would have claimed it.
pub proof fn disabled_provider_posts_nothing(
    providers: Seq<&dyn Provider>,
    table: Table,
    message: MessageView,
    guild_id: u64,
    first: int,
)
    requires
        message.guild_id == Some(guild_id),
        is_first_claim(providers, message.content, first),
        table.dom().contains(guild_id),
        table[guild_id].contains(providers[first].name_spec()),
    ensures
        relay(providers, table, message) == Some((table, Seq::<Posted>::empty())),
{
    reveal_with_fuel(dispatch_from, 3);
    first_claim_is_unique(providers, message.content, first);
    lookup_returns_or_creates(table, guild_id);
}

} // verus!
