//! The dispatcher: for a message that comes in, whether a provider claims
//! it, whether that provider is enabled in the guild, and what is posted.
//!
//! Like a command, a dispatch is a short conversation with the store, and
//! [`dispatch`] is one step of it.

use vstd::prelude::*;
use vstd::string::*;
use crate::db::{answer_view, GuildView, StoreError, StoreResult};
use crate::providers::Provider;
use crate::text::contains;

pub mod session;

verus! {

/// A message as it comes in.
#[derive(Debug, PartialEq, Eq)]
pub struct Message {
    /// The message's text.
    pub content: String,
    /// Whether an automated account wrote it.
    pub author_is_bot: bool,
    /// The guild it was written in; `None` for a direct message.
    pub guild_id: Option<u64>,
    /// The channel it was written in.
    pub channel_id: u64,
}

/// Where a dispatch stands.
#[derive(Debug, PartialEq, Eq)]
pub enum DispatchState {
    /// The message has not been looked at yet.
    Scanning,
    /// A provider has claimed the message, and the guild's row is awaited.
    /// `payload` is what the provider makes of the link it found.
    Matched { provider: String, payload: String, channel_id: u64 },
    /// The provider is disabled in the guild: nothing is posted.
    Suppressed,
    /// The provider's message was handed out for posting.
    Sent,
    /// The message is none of the dispatcher's business, or the store
    /// failed: nothing is posted.
    Dropped,
}

/// What happened since the last step of a dispatch.
#[derive(Debug, PartialEq, Eq)]
pub enum DispatchEvent {
    /// The message came in.
    Received(Message),
    /// The store answered the lookup of the guild's row.
    Guild(StoreResult),
}

/// What the caller of a dispatch step does next.
#[derive(Debug, PartialEq, Eq)]
pub enum DispatchAction {
    /// Nothing: the event does not belong to the state.
    Ignore,
    /// Nothing: the dispatch is over and nothing is posted.
    Drop,
    /// Look the guild's row up, creating it if it is missing, and come
    /// back with the answer.
    GetOrCreateGuild { guild_id: u64 },
    /// Post `payload` in the channel. The dispatch is over.
    Send { channel_id: u64, payload: String },
}

/// A message as the contracts see it.
pub struct MessageView {
    pub content: Seq<char>,
    pub author_is_bot: bool,
    pub guild_id: Option<u64>,
    pub channel_id: u64,
}

/// A dispatch's state as the contracts see it.
pub enum DispatchStateView {
    Scanning,
    Matched { provider: Seq<char>, payload: Seq<char>, channel_id: u64 },
    Suppressed,
    Sent,
    Dropped,
}

/// An event as the contracts see it.
pub enum DispatchEventView {
    Received(MessageView),
    Guild(Result<GuildView, StoreError>),
}

/// An action as the contracts see it.
pub enum DispatchActionView {
    Ignore,
    Drop,
    GetOrCreateGuild { guild_id: u64 },
    Send { channel_id: u64, payload: Seq<char> },
}

impl View for Message {
    type V = MessageView;

    open spec fn view(&self) -> MessageView {
        MessageView {
            content: self.content@,
            author_is_bot: self.author_is_bot,
            guild_id: self.guild_id,
            channel_id: self.channel_id,
        }
    }
}

impl View for DispatchState {
    type V = DispatchStateView;

    open spec fn view(&self) -> DispatchStateView {
        match *self {
            DispatchState::Scanning => DispatchStateView::Scanning,
            DispatchState::Matched { provider, payload, channel_id } => DispatchStateView::Matched {
                provider: provider@,
                payload: payload@,
                channel_id,
            },
            DispatchState::Suppressed => DispatchStateView::Suppressed,
            DispatchState::Sent => DispatchStateView::Sent,
            DispatchState::Dropped => DispatchStateView::Dropped,
        }
    }
}

impl View for DispatchEvent {
    type V = DispatchEventView;

    open spec fn view(&self) -> DispatchEventView {
        match *self {
            DispatchEvent::Received(message) => DispatchEventView::Received(message@),
            DispatchEvent::Guild(answer) => DispatchEventView::Guild(answer_view(answer)),
        }
    }
}

impl View for DispatchAction {
    type V = DispatchActionView;

    open spec fn view(&self) -> DispatchActionView {
        match *self {
            DispatchAction::Ignore => DispatchActionView::Ignore,
            DispatchAction::Drop => DispatchActionView::Drop,
            DispatchAction::GetOrCreateGuild { guild_id } => DispatchActionView::GetOrCreateGuild {
                guild_id,
            },
            DispatchAction::Send { channel_id, payload } => DispatchActionView::Send {
                channel_id,
                payload: payload@,
            },
        }
    }
}

/// Whether the provider at `index` finds a link of its own in `text`.
pub open spec fn claims(providers: Seq<&dyn Provider>, text: Seq<char>, index: int) -> bool {
    0 <= index < providers.len() && providers[index].match_spec(text) is Some
}

/// Whether the provider at `index` claims `text` and none before it does.
pub open spec fn is_first_claim(providers: Seq<&dyn Provider>, text: Seq<char>, index: int) -> bool {
    &&& claims(providers, text, index)
    &&& forall|earlier: int| 0 <= earlier < index ==> !claims(providers, text, earlier)
}

/// The first provider, in registration order, that claims `text`.
pub open spec fn first_claim(providers: Seq<&dyn Provider>, text: Seq<char>) -> Option<int> {
    if exists|index: int| is_first_claim(providers, text, index) {
        Some(choose|index: int| is_first_claim(providers, text, index))
    } else {
        None
    }
}

/// The link that the provider at `index` finds in `text`.
pub open spec fn claimed_link(providers: Seq<&dyn Provider>, text: Seq<char>, index: int) -> Seq<
    char,
>
    recommends
        claims(providers, text, index),
{
    providers[index].match_spec(text)->0
}

/// What the provider at `index` posts for the link it finds in `text`.
pub open spec fn claimed_payload(providers: Seq<&dyn Provider>, text: Seq<char>, index: int) -> Seq<
    char,
>
    recommends
        claims(providers, text, index),
{
    providers[index].message_spec(claimed_link(providers, text, index))
}

/// The end of a dispatch at which nothing is posted.
pub open spec fn dropped() -> (DispatchStateView, DispatchActionView) {
    (DispatchStateView::Dropped, DispatchActionView::Drop)
}

/// One step of a dispatch. Messages of automated accounts and messages
/// outside a guild are dropped. The first provider that claims the message
/// decides: if none does, the message is dropped; else the guild's row is
/// looked up. If the lookup fails, the message is dropped. If the provider
/// is disabled in the guild, nothing is posted, and no other provider is
/// tried. Otherwise the provider's message is posted in the channel of the
/// message.
pub open spec fn dispatch_step(
    providers: Seq<&dyn Provider>,
    state: DispatchStateView,
    event: DispatchEventView,
) -> (DispatchStateView, DispatchActionView) {
    match (state, event) {
        (DispatchStateView::Scanning, DispatchEventView::Received(message)) => {
            if message.author_is_bot {
                dropped()
            } else {
                match (message.guild_id, first_claim(providers, message.content)) {
                    (Some(guild_id), Some(index)) => (
                        DispatchStateView::Matched {
                            provider: providers[index].name_spec(),
                            payload: claimed_payload(providers, message.content, index),
                            channel_id: message.channel_id,
                        },
                        DispatchActionView::GetOrCreateGuild { guild_id },
                    ),
                    _ => dropped(),
                }
            }
        },
        (
            DispatchStateView::Matched { provider, payload, channel_id },
            DispatchEventView::Guild(Ok(guild)),
        ) => if guild.disabled_providers.contains(provider) {
            (DispatchStateView::Suppressed, DispatchActionView::Drop)
        } else {
            (DispatchStateView::Sent, DispatchActionView::Send { channel_id, payload })
        },
        (DispatchStateView::Matched { .. }, DispatchEventView::Guild(Err(_))) => dropped(),
        _ => (state, DispatchActionView::Ignore),
    }
}

/// The first claim is the one index that claims the text with none before
/// it; there is none exactly if no provider claims the text.
pub proof fn first_claim_is_unique(providers: Seq<&dyn Provider>, text: Seq<char>, index: int)
    ensures
        is_first_claim(providers, text, index) <==> first_claim(providers, text) == Some(index),
        first_claim(providers, text) is None <==> forall|any: int| !claims(providers, text, any),
{
    if is_first_claim(providers, text, index) {
        let chosen = choose|i: int| is_first_claim(providers, text, i);
        assert(is_first_claim(providers, text, chosen));
        if chosen < index {
            assert(!claims(providers, text, chosen));
        }
        if index < chosen {
            assert(!claims(providers, text, index));
        }
    }
    if first_claim(providers, text) is None {
        assert forall|any: int| !claims(providers, text, any) by {
            if claims(providers, text, any) {
                least_claim_exists(providers, text, any);
            }
        }
    }
}

proof fn least_claim_exists(providers: Seq<&dyn Provider>, text: Seq<char>, index: int)
    requires
        claims(providers, text, index),
    ensures
        exists|first: int| is_first_claim(providers, text, first),
    decreases index,
{
    if exists|earlier: int| 0 <= earlier < index && claims(providers, text, earlier) {
        let earlier = choose|earlier: int| 0 <= earlier < index && claims(providers, text, earlier);
        least_claim_exists(providers, text, earlier);
    } else {
        assert(is_first_claim(providers, text, index));
    }
}

/// Asks the providers in registration order and stops at the first that
/// finds a link: its index and the link.
pub fn scan<'a>(providers: &Vec<&dyn Provider>, text: &'a str) -> (res: Option<(usize, &'a str)>)
    ensures
        match res {
            Some((index, link)) => first_claim(providers@, text@) == Some(index as int) && link@
                == claimed_link(providers@, text@, index as int),
            None => first_claim(providers@, text@) is None,
        },
{
    let mut i: usize = 0;
    while i < providers.len()
        invariant
            i <= providers.len(),
            forall|earlier: int| 0 <= earlier < i ==> !claims(providers@, text@, earlier),
        decreases providers.len() - i,
    {
        match providers[i].match_url(text) {
            Some(link) => {
                proof {
                    assert(is_first_claim(providers@, text@, i as int));
                    first_claim_is_unique(providers@, text@, i as int);
                }
                return Some((i, link));
            },
            None => {},
        }
        i += 1;
    }
    proof {
        first_claim_is_unique(providers@, text@, 0);
    }
    None
}

/// Advances a dispatch by one step.
pub fn dispatch(providers: &Vec<&dyn Provider>, state: DispatchState, event: DispatchEvent) -> (res:
    (DispatchState, DispatchAction))
    ensures
        (res.0@, res.1@) == dispatch_step(providers@, state@, event@),
{
    match (state, event) {
        (DispatchState::Scanning, DispatchEvent::Received(message)) => {
            if message.author_is_bot {
                return (DispatchState::Dropped, DispatchAction::Drop);
            }
            let guild_id = match message.guild_id {
                Some(guild_id) => guild_id,
                None => {
                    return (DispatchState::Dropped, DispatchAction::Drop);
                },
            };
            match scan(providers, message.content.as_str()) {
                Some((index, link)) => (
                    DispatchState::Matched {
                        provider: providers[index].name(),
                        payload: providers[index].new_message(link),
                        channel_id: message.channel_id,
                    },
                    DispatchAction::GetOrCreateGuild { guild_id },
                ),
                None => (DispatchState::Dropped, DispatchAction::Drop),
            }
        },
        (DispatchState::Matched { provider, payload, channel_id }, DispatchEvent::Guild(Ok(guild))) => {
            if contains(&guild.disabled_providers, &provider) {
                (DispatchState::Suppressed, DispatchAction::Drop)
            } else {
                (DispatchState::Sent, DispatchAction::Send { channel_id, payload })
            }
        },
        (DispatchState::Matched { .. }, DispatchEvent::Guild(Err(_))) => (
            DispatchState::Dropped,
            DispatchAction::Drop,
        ),
        (state, _) => (state, DispatchAction::Ignore),
    }
}

} // verus!
