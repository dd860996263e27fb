//! The commands by which a guild lists, enables and disables providers.
//!
//! A command is a short conversation with the store. Each function here is
//! one step of it: from the state of the conversation and what has just
//! happened to the next state and to what the caller does next. The caller
//! carries the action out and comes back with its outcome.

use vstd::prelude::*;
use vstd::string::*;
use crate::db::{answer_view, Guild, GuildView, StoreError, StoreResult};
use crate::providers::{provider_names, Provider};
use crate::text::{concatenated, contains, join, joined, names_of, remove_all, with_appended, without};

pub mod chat;
pub mod session;

verus! {

/// The value of a command option, as far as the commands read it.
#[derive(Debug, PartialEq, Eq)]
pub enum OptionValue {
    /// A string.
    Text(String),
    /// A value of any other type.
    Other,
}

/// A command as it comes in.
#[derive(Debug, PartialEq, Eq)]
pub struct Interaction {
    /// The command's name.
    pub name: String,
    /// The guild in which the command was given.
    pub guild_id: u64,
    /// The command's options in order; `None` for an option whose value
    /// was not resolved.
    pub options: Vec<Option<OptionValue>>,
}

/// Which command a name stands for.
#[derive(Clone, Copy, Debug, PartialEq, Eq, Structural)]
pub enum CommandKind {
    Ping,
    List,
    Enable,
    Disable,
    Unknown,
}

/// Where a command stands.
#[derive(Debug, PartialEq, Eq)]
pub enum CommandState {
    /// The command has not been looked at yet.
    Start,
    /// A listing awaits the guild's row.
    Listing,
    /// An enabling awaits the guild's row.
    Enabling { guild_id: u64, provider: String },
    /// An enabling awaits the outcome of its update.
    EnableWriting,
    /// A disabling awaits the guild's row.
    Disabling { guild_id: u64, provider: String },
    /// A disabling awaits the outcome of its update.
    DisableWriting,
    /// The command has been answered.
    Done,
}

/// What happened since the last step of a command.
#[derive(Debug, PartialEq, Eq)]
pub enum CommandEvent {
    /// The command came in.
    Invoked(Interaction),
    /// The store answered the lookup of the guild's row.
    Guild(StoreResult),
    /// The store answered the update of the guild's row.
    Updated(StoreResult),
}

/// What the caller of a command step does next.
#[derive(Debug, PartialEq, Eq)]
pub enum CommandAction {
    /// Nothing: the event does not belong to the state.
    Ignore,
    /// Look the guild's row up, creating it if it is missing, and come
    /// back with the answer.
    GetOrCreateGuild { guild_id: u64 },
    /// Replace the guild's whole list of disabled providers and come back
    /// with the answer.
    UpdateGuild { guild_id: u64, disabled_providers: Vec<String> },
    /// Answer the command with this text. The conversation is over.
    Respond { content: String },
}

/// An option's value as the contracts see it.
pub enum OptionValueView {
    Text(Seq<char>),
    Other,
}

/// A command as the contracts see it.
pub struct InteractionView {
    pub name: Seq<char>,
    pub guild_id: u64,
    pub options: Seq<Option<OptionValueView>>,
}

/// A command's state as the contracts see it.
pub enum CommandStateView {
    Start,
    Listing,
    Enabling { guild_id: u64, provider: Seq<char> },
    EnableWriting,
    Disabling { guild_id: u64, provider: Seq<char> },
    DisableWriting,
    Done,
}

/// An event as the contracts see it.
pub enum CommandEventView {
    Invoked(InteractionView),
    Guild(Result<GuildView, StoreError>),
    Updated(Result<GuildView, StoreError>),
}

/// An action as the contracts see it.
pub enum CommandActionView {
    Ignore,
    GetOrCreateGuild { guild_id: u64 },
    UpdateGuild { guild_id: u64, disabled_providers: Seq<Seq<char>> },
    Respond { content: Seq<char> },
}

impl View for OptionValue {
    type V = OptionValueView;

    open spec fn view(&self) -> OptionValueView {
        match *self {
            OptionValue::Text(text) => OptionValueView::Text(text@),
            OptionValue::Other => OptionValueView::Other,
        }
    }
}

/// An option as the contracts see it.
pub open spec fn option_view(option: Option<OptionValue>) -> Option<OptionValueView> {
    match option {
        Some(value) => Some(value@),
        None => None,
    }
}

impl View for Interaction {
    type V = InteractionView;

    open spec fn view(&self) -> InteractionView {
        InteractionView {
            name: self.name@,
            guild_id: self.guild_id,
            options: self.options@.map_values(|option: Option<OptionValue>| option_view(option)),
        }
    }
}

impl View for CommandState {
    type V = CommandStateView;

    open spec fn view(&self) -> CommandStateView {
        match *self {
            CommandState::Start => CommandStateView::Start,
            CommandState::Listing => CommandStateView::Listing,
            CommandState::Enabling { guild_id, provider } => CommandStateView::Enabling {
                guild_id,
                provider: provider@,
            },
            CommandState::EnableWriting => CommandStateView::EnableWriting,
            CommandState::Disabling { guild_id, provider } => CommandStateView::Disabling {
                guild_id,
                provider: provider@,
            },
            CommandState::DisableWriting => CommandStateView::DisableWriting,
            CommandState::Done => CommandStateView::Done,
        }
    }
}

impl View for CommandEvent {
    type V = CommandEventView;

    open spec fn view(&self) -> CommandEventView {
        match *self {
            CommandEvent::Invoked(command) => CommandEventView::Invoked(command@),
            CommandEvent::Guild(answer) => CommandEventView::Guild(answer_view(answer)),
            CommandEvent::Updated(answer) => CommandEventView::Updated(answer_view(answer)),
        }
    }
}

impl View for CommandAction {
    type V = CommandActionView;

    open spec fn view(&self) -> CommandActionView {
        match *self {
            CommandAction::Ignore => CommandActionView::Ignore,
            CommandAction::GetOrCreateGuild { guild_id } => CommandActionView::GetOrCreateGuild {
                guild_id,
            },
            CommandAction::UpdateGuild {
                guild_id,
                disabled_providers,
            } => CommandActionView::UpdateGuild {
                guild_id,
                disabled_providers: names_of(disabled_providers@),
            },
            CommandAction::Respond { content } => CommandActionView::Respond { content: content@ },
        }
    }
}

/// The command that `name` stands for.
pub open spec fn kind_of(name: Seq<char>) -> CommandKind {
    if name == "ping"@ {
        CommandKind::Ping
    } else if name == "list"@ {
        CommandKind::List
    } else if name == "enable"@ {
        CommandKind::Enable
    } else if name == "disable"@ {
        CommandKind::Disable
    } else {
        CommandKind::Unknown
    }
}

/// Whether the command carries a resolved first option: the provider that
/// `enable` and `disable` are about.
pub open spec fn has_provider_option(command: InteractionView) -> bool {
    command.options.len() > 0 && command.options[0] is Some
}

/// The command's first option.
pub open spec fn provider_option(command: InteractionView) -> OptionValueView
    recommends
        has_provider_option(command),
{
    match command.options[0] {
        Some(value) => value,
        None => OptionValueView::Other,
    }
}

/// The answer to a command that names no registered provider.
pub open spec fn invalid_provider_text(names: Seq<Seq<char>>) -> Seq<char> {
    "Invalid provider. Use one of: "@ + concatenated(names)
}

/// The answer to a listing.
pub open spec fn listing_text(disabled_providers: Seq<Seq<char>>) -> Seq<char> {
    "Disabled providers: "@ + joined(disabled_providers, ", "@)
}

/// An answer that ends the conversation.
pub open spec fn respond(content: Seq<char>) -> (CommandStateView, CommandActionView) {
    (CommandStateView::Done, CommandActionView::Respond { content })
}

/// One step of a listing: the guild's row is looked up, and the answer
/// shows its disabled providers, separated by a comma and a space.
pub open spec fn list_step(state: CommandStateView, event: CommandEventView) -> (
    CommandStateView,
    CommandActionView,
) {
    match (state, event) {
        (CommandStateView::Start, CommandEventView::Invoked(command)) => (
            CommandStateView::Listing,
            CommandActionView::GetOrCreateGuild { guild_id: command.guild_id },
        ),
        (CommandStateView::Listing, CommandEventView::Guild(Ok(guild))) => respond(
            listing_text(guild.disabled_providers),
        ),
        (CommandStateView::Listing, CommandEventView::Guild(Err(_))) => respond(
            "Failed to get guild"@,
        ),
        _ => (state, CommandActionView::Ignore),
    }
}

/// One step of an enabling. A provider that is not registered under
/// `names` is refused before the store is asked anything. A provider that
/// is not disabled is left alone. Otherwise the guild's list is updated to
/// the list without the provider.
pub open spec fn enable_step(
    names: Seq<Seq<char>>,
    state: CommandStateView,
    event: CommandEventView,
) -> (CommandStateView, CommandActionView) {
    match (state, event) {
        (CommandStateView::Start, CommandEventView::Invoked(command)) => match provider_option(
            command,
        ) {
            OptionValueView::Text(provider) => if names.contains(provider) {
                (
                    CommandStateView::Enabling { guild_id: command.guild_id, provider },
                    CommandActionView::GetOrCreateGuild { guild_id: command.guild_id },
                )
            } else {
                respond(invalid_provider_text(names))
            },
            OptionValueView::Other => respond("Invalid provider"@),
        },
        (
            CommandStateView::Enabling { guild_id, provider },
            CommandEventView::Guild(Ok(guild)),
        ) => if guild.disabled_providers.contains(provider) {
            (
                CommandStateView::EnableWriting,
                CommandActionView::UpdateGuild {
                    guild_id,
                    disabled_providers: without(guild.disabled_providers, provider),
                },
            )
        } else {
            respond("Provider is already enabled."@)
        },
        (CommandStateView::Enabling { .. }, CommandEventView::Guild(Err(_))) => respond(
            "Failed to get guild"@,
        ),
        (CommandStateView::EnableWriting, CommandEventView::Updated(Ok(_))) => respond(
            "Provider enabled."@,
        ),
        (CommandStateView::EnableWriting, CommandEventView::Updated(Err(_))) => respond(
            "Unexpected error"@,
        ),
        _ => (state, CommandActionView::Ignore),
    }
}

/// One step of a disabling. A provider that is not registered under
/// `names` is refused before the store is asked anything. A provider that
/// is already disabled is left alone. Otherwise the guild's list is updated
/// to the list with the provider added at its end.
pub open spec fn disable_step(
    names: Seq<Seq<char>>,
    state: CommandStateView,
    event: CommandEventView,
) -> (CommandStateView, CommandActionView) {
    match (state, event) {
        (CommandStateView::Start, CommandEventView::Invoked(command)) => match provider_option(
            command,
        ) {
            OptionValueView::Text(provider) => if names.contains(provider) {
                (
                    CommandStateView::Disabling { guild_id: command.guild_id, provider },
                    CommandActionView::GetOrCreateGuild { guild_id: command.guild_id },
                )
            } else {
                respond(invalid_provider_text(names))
            },
            OptionValueView::Other => respond("Invalid provider"@),
        },
        (
            CommandStateView::Disabling { guild_id, provider },
            CommandEventView::Guild(Ok(guild)),
        ) => if guild.disabled_providers.contains(provider) {
            respond("Provider is already disabled."@)
        } else {
            (
                CommandStateView::DisableWriting,
                CommandActionView::UpdateGuild {
                    guild_id,
                    disabled_providers: guild.disabled_providers.push(provider),
                },
            )
        },
        (CommandStateView::Disabling { .. }, CommandEventView::Guild(Err(_))) => respond(
            "Failed to get guild"@,
        ),
        (CommandStateView::DisableWriting, CommandEventView::Updated(Ok(_))) => respond(
            "Provider disabled."@,
        ),
        (CommandStateView::DisableWriting, CommandEventView::Updated(Err(_))) => respond(
            "Failed to update guild"@,
        ),
        _ => (state, CommandActionView::Ignore),
    }
}

/// One step of any command: a command that comes in is told apart by its
/// name, and what follows goes to the command that the state belongs to.
pub open spec fn command_step(
    names: Seq<Seq<char>>,
    state: CommandStateView,
    event: CommandEventView,
) -> (CommandStateView, CommandActionView) {
    match state {
        CommandStateView::Start => match event {
            CommandEventView::Invoked(command) => match kind_of(command.name) {
                CommandKind::Ping => respond("Hey, I'm alive!"@),
                CommandKind::List => list_step(state, event),
                CommandKind::Enable => enable_step(names, state, event),
                CommandKind::Disable => disable_step(names, state, event),
                CommandKind::Unknown => respond("not implemented :("@),
            },
            _ => (state, CommandActionView::Ignore),
        },
        CommandStateView::Listing => list_step(state, event),
        CommandStateView::Enabling { .. } | CommandStateView::EnableWriting => enable_step(
            names,
            state,
            event,
        ),
        CommandStateView::Disabling { .. } | CommandStateView::DisableWriting => disable_step(
            names,
            state,
            event,
        ),
        CommandStateView::Done => (state, CommandActionView::Ignore),
    }
}

/// The names of all providers, one after the other.
pub fn str_providers(providers: &Vec<&dyn Provider>) -> (res: String)
    ensures
        res@ == concatenated(provider_names(providers@)),
{
    let mut all = String::new();
    let mut i: usize = 0;
    assert(provider_names(providers@.take(0)) =~= Seq::empty());
    while i < providers.len()
        invariant
            i <= providers.len(),
            all@ == concatenated(provider_names(providers@.take(i as int))),
        decreases providers.len() - i,
    {
        proof {
            let step = provider_names(providers@.take(i as int + 1));
            assert(step.drop_last() =~= provider_names(providers@.take(i as int)));
            assert(step.last() == providers@[i as int].name_spec());
        }
        let name = providers[i].name();
        all.append(name.as_str());
        i += 1;
    }
    assert(providers@.take(providers.len() as int) =~= providers@);
    all
}

/// Whether a provider is registered under the name `provider`.
pub fn is_valid_provider(providers: &Vec<&dyn Provider>, provider: &String) -> (res: bool)
    ensures
        res == provider_names(providers@).contains(provider@),
{
    let mut i: usize = 0;
    while i < providers.len()
        invariant
            i <= providers.len(),
            forall|j: int| 0 <= j < i ==> provider_names(providers@)[j] != provider@,
        decreases providers.len() - i,
    {
        let name = providers[i].name();
        if name == *provider {
            assert(provider_names(providers@)[i as int] == provider@);
            return true;
        }
        i += 1;
    }
    false
}

/// Tells the commands apart by name.
pub fn command_kind(name: &String) -> (res: CommandKind)
    ensures
        res == kind_of(name@),
{
    if *name == String::from_str("ping") {
        CommandKind::Ping
    } else if *name == String::from_str("list") {
        CommandKind::List
    } else if *name == String::from_str("enable") {
        CommandKind::Enable
    } else if *name == String::from_str("disable") {
        CommandKind::Disable
    } else {
        CommandKind::Unknown
    }
}

/// Whether `command` carries the option that `enable` and `disable` need.
pub fn carries_provider_option(command: &Interaction) -> (res: bool)
    ensures
        res == has_provider_option(command@),
{
    command.options.len() > 0 && command.options[0].is_some()
}

fn respond_with(text: &str) -> (res: (CommandState, CommandAction))
    ensures
        (res.0@, res.1@) == respond(text@),
{
    (CommandState::Done, CommandAction::Respond { content: String::from_str(text) })
}

fn refuse_unknown(providers: &Vec<&dyn Provider>) -> (res: (CommandState, CommandAction))
    ensures
        (res.0@, res.1@) == respond(invalid_provider_text(provider_names(providers@))),
{
    let listed = str_providers(providers);
    let content = String::from_str("Invalid provider. Use one of: ").concat(listed.as_str());
    (CommandState::Done, CommandAction::Respond { content })
}

/// Advances a listing by one step.
pub fn providers(state: CommandState, event: CommandEvent) -> (res: (CommandState, CommandAction))
    ensures
        (res.0@, res.1@) == list_step(state@, event@),
{
    match (state, event) {
        (CommandState::Start, CommandEvent::Invoked(command)) => (
            CommandState::Listing,
            CommandAction::GetOrCreateGuild { guild_id: command.guild_id },
        ),
        (CommandState::Listing, CommandEvent::Guild(Ok(guild))) => {
            let listed = join(&guild.disabled_providers, ", ");
            let content = String::from_str("Disabled providers: ").concat(listed.as_str());
            (CommandState::Done, CommandAction::Respond { content })
        },
        (CommandState::Listing, CommandEvent::Guild(Err(_))) => respond_with("Failed to get guild"),
        (state, _) => (state, CommandAction::Ignore),
    }
}

/// Advances an enabling by one step.
pub fn enable(providers: &Vec<&dyn Provider>, state: CommandState, event: CommandEvent) -> (res: (
    CommandState,
    CommandAction,
))
    requires
        state is Start ==> (event matches CommandEvent::Invoked(command) ==> has_provider_option(
            command@,
        )),
    ensures
        (res.0@, res.1@) == enable_step(provider_names(providers@), state@, event@),
{
    match (state, event) {
        (CommandState::Start, CommandEvent::Invoked(command)) => {
            match &command.options[0] {
                Some(OptionValue::Text(provider)) => {
                    if is_valid_provider(providers, provider) {
                        (
                            CommandState::Enabling {
                                guild_id: command.guild_id,
                                provider: provider.clone(),
                            },
                            CommandAction::GetOrCreateGuild { guild_id: command.guild_id },
                        )
                    } else {
                        refuse_unknown(providers)
                    }
                },
                _ => respond_with("Invalid provider"),
            }
        },
        (CommandState::Enabling { guild_id, provider }, CommandEvent::Guild(Ok(guild))) => {
            if contains(&guild.disabled_providers, &provider) {
                (
                    CommandState::EnableWriting,
                    CommandAction::UpdateGuild {
                        guild_id,
                        disabled_providers: remove_all(&guild.disabled_providers, &provider),
                    },
                )
            } else {
                respond_with("Provider is already enabled.")
            }
        },
        (CommandState::Enabling { .. }, CommandEvent::Guild(Err(_))) => respond_with(
            "Failed to get guild",
        ),
        (CommandState::EnableWriting, CommandEvent::Updated(Ok(_))) => respond_with(
            "Provider enabled.",
        ),
        (CommandState::EnableWriting, CommandEvent::Updated(Err(_))) => respond_with(
            "Unexpected error",
        ),
        (state, _) => (state, CommandAction::Ignore),
    }
}

/// Advances a disabling by one step.
pub fn disable(providers: &Vec<&dyn Provider>, state: CommandState, event: CommandEvent) -> (res: (
    CommandState,
    CommandAction,
))
    requires
        state is Start ==> (event matches CommandEvent::Invoked(command) ==> has_provider_option(
            command@,
        )),
    ensures
        (res.0@, res.1@) == disable_step(provider_names(providers@), state@, event@),
{
    match (state, event) {
        (CommandState::Start, CommandEvent::Invoked(command)) => {
            match &command.options[0] {
                Some(OptionValue::Text(provider)) => {
                    if is_valid_provider(providers, provider) {
                        (
                            CommandState::Disabling {
                                guild_id: command.guild_id,
                                provider: provider.clone(),
                            },
                            CommandAction::GetOrCreateGuild { guild_id: command.guild_id },
                        )
                    } else {
                        refuse_unknown(providers)
                    }
                },
                _ => respond_with("Invalid provider"),
            }
        },
        (CommandState::Disabling { guild_id, provider }, CommandEvent::Guild(Ok(guild))) => {
            if contains(&guild.disabled_providers, &provider) {
                respond_with("Provider is already disabled.")
            } else {
                (
                    CommandState::DisableWriting,
                    CommandAction::UpdateGuild {
                        guild_id,
                        disabled_providers: with_appended(&guild.disabled_providers, &provider),
                    },
                )
            }
        },
        (CommandState::Disabling { .. }, CommandEvent::Guild(Err(_))) => respond_with(
            "Failed to get guild",
        ),
        (CommandState::DisableWriting, CommandEvent::Updated(Ok(_))) => respond_with(
            "Provider disabled.",
        ),
        (CommandState::DisableWriting, CommandEvent::Updated(Err(_))) => respond_with(
            "Failed to update guild",
        ),
        (state, _) => (state, CommandAction::Ignore),
    }
}

/// Advances any command by one step.
pub fn interaction_create(
    providers: &Vec<&dyn Provider>,
    state: CommandState,
    event: CommandEvent,
) -> (res: (CommandState, CommandAction))
    requires
        state is Start ==> (event matches CommandEvent::Invoked(command) ==> (kind_of(
            command@.name,
        ) is Enable || kind_of(command@.name) is Disable) ==> has_provider_option(command@)),
    ensures
        (res.0@, res.1@) == command_step(provider_names(providers@), state@, event@),
{
    match state {
        CommandState::Start => match event {
            CommandEvent::Invoked(command) => match command_kind(&command.name) {
                CommandKind::Ping => respond_with("Hey, I'm alive!"),
                CommandKind::List => self::providers(
                    CommandState::Start,
                    CommandEvent::Invoked(command),
                ),
                CommandKind::Enable => enable(
                    providers,
                    CommandState::Start,
                    CommandEvent::Invoked(command),
                ),
                CommandKind::Disable => disable(
                    providers,
                    CommandState::Start,
                    CommandEvent::Invoked(command),
                ),
                CommandKind::Unknown => respond_with("not implemented :("),
            },
            _ => (CommandState::Start, CommandAction::Ignore),
        },
        CommandState::Listing => self::providers(state, event),
        CommandState::Enabling { .. } | CommandState::EnableWriting => enable(
            providers,
            state,
            event,
        ),
        CommandState::Disabling { .. } | CommandState::DisableWriting => disable(
            providers,
            state,
            event,
        ),
        CommandState::Done => (state, CommandAction::Ignore),
    }
}

} // verus!
