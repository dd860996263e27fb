//! Whole commands, run against a store that keeps its promises, and what
//! holds of them.

use vstd::prelude::*;
use crate::commands::{
    command_step, disable_step, invalid_provider_text, kind_of, CommandActionView,
    CommandEventView, CommandKind, CommandStateView, InteractionView, OptionValueView,
};
use crate::db::model::{lookup, lookup_returns_or_creates, referenced, row, update, Table};
use crate::text::{without, without_removes_one_name};

verus! {

/// A command driven against `table` from `state` and `event`: each action
/// is carried out on the table and its answer handed back, for at most
/// `steps` steps. The result is the table afterwards and the text that the
/// command was answered with; `None` if there was no answer by then.
pub open spec fn command_from(
    names: Seq<Seq<char>>,
    table: Table,
    state: CommandStateView,
    event: CommandEventView,
    steps: nat,
) -> Option<(Table, Seq<char>)>
    decreases steps,
{
    if steps == 0 {
        None
    } else {
        let (next, action) = command_step(names, state, event);
        match action {
            CommandActionView::Ignore => None,
            CommandActionView::GetOrCreateGuild { guild_id } => match lookup(table, guild_id) {
                Some((looked_up, answer)) => command_from(
                    names,
                    looked_up,
                    next,
                    CommandEventView::Guild(answer),
                    (steps - 1) as nat,
                ),
                None => None,
            },
            CommandActionView::UpdateGuild { guild_id, disabled_providers } => {
                let (updated, answer) = update(table, guild_id, disabled_providers);
                command_from(
                    names,
                    updated,
                    next,
                    CommandEventView::Updated(answer),
                    (steps - 1) as nat,
                )
            },
            CommandActionView::Respond { content } => Some((table, content)),
        }
    }
}

/// A whole command against `table`, where the providers are registered
/// under `names`.
pub open spec fn command(names: Seq<Seq<char>>, table: Table, command: InteractionView) -> Option<
    (Table, Seq<char>),
> {
    command_from(names, table, CommandStateView::Start, CommandEventView::Invoked(command), 3)
}

/// Whether `command` is the command `kind` about the provider `provider`.
pub open spec fn is_about(command: InteractionView, kind: CommandKind, provider: Seq<char>) -> bool {
    &&& kind_of(command.name) == kind
    &&& command.options.len() > 0
    &&& command.options[0] == Some(OptionValueView::Text(provider))
}

/// Enabling a registered provider that is disabled in the guild answers
/// "Provider enabled." and leaves the guild with the same list but for that
/// provider: it is gone, every other name is where it was, and no other
/// guild's row is touched.
pub proof fn enable_removes_the_provider_alone(
    names: Seq<Seq<char>>,
    table: Table,
    request: InteractionView,
    provider: Seq<char>,
)
    requires
        names.contains(provider),
        is_about(request, CommandKind::Enable, provider),
        table.dom().contains(request.guild_id),
        table[request.guild_id].contains(provider),
    ensures
        command(names, table, request) == Some(
            (
                table.insert(request.guild_id, without(table[request.guild_id], provider)),
                "Provider enabled."@,
            ),
        ),
        !without(table[request.guild_id], provider).contains(provider),
        forall|other: Seq<char>|
            other != provider ==> (#[trigger] without(table[request.guild_id], provider).contains(
                other,
            ) <==> table[request.guild_id].contains(other)),
{
    lookup_returns_or_creates(table, request.guild_id);
    reveal_with_fuel(command_from, 4);
    without_removes_one_name(table[request.guild_id], provider);
}

/// Disabling a registered provider twice: the second command answers
/// "Provider is already disabled." and leaves the table as the first one
/// left it.
pub proof fn disable_twice_changes_nothing_more(
    names: Seq<Seq<char>>,
    table: Table,
    request: InteractionView,
    provider: Seq<char>,
)
    requires
        names.contains(provider),
        is_about(request, CommandKind::Disable, provider),
    ensures
        command(names, table, request) matches Some((once, _)) && command(names, once, request)
            == Some((once, "Provider is already disabled."@)),
{
    let id = request.guild_id;
    let seen = referenced(table, id);
    lookup_returns_or_creates(table, id);
    reveal_with_fuel(command_from, 4);
    if seen[id].contains(provider) {
        lookup_returns_or_creates(seen, id);
    } else {
        let once = seen.insert(id, seen[id].push(provider));
        assert(command(names, table, request) == Some((once, "Provider disabled."@)));
        lookup_returns_or_creates(once, id);
        assert(once[id].last() == provider);
        assert(once[id].contains(provider));
    }
}

/// Disabling a provider never makes a name occur twice in a guild's list.
pub proof fn disable_adds_no_duplicate(
    names: Seq<Seq<char>>,
    table: Table,
    request: InteractionView,
    provider: Seq<char>,
)
    requires
        is_about(request, CommandKind::Disable, provider),
        forall|guild_id: u64| table.dom().contains(guild_id) ==> (#[trigger] table[guild_id]).no_duplicates(),
    ensures
        command(names, table, request) matches Some((after, _)) && forall|guild_id: u64|
            after.dom().contains(guild_id) ==> (#[trigger] after[guild_id]).no_duplicates(),
{
    let id = request.guild_id;
    let seen = referenced(table, id);
    lookup_returns_or_creates(table, id);
    reveal_with_fuel(command_from, 4);
    assert(seen[id].no_duplicates());
}

/// Nothing keeps two commands for one guild apart. Where two disablings
/// have both read the guild's row before either writes, each writes the list
/// it read with its own provider added, and the later write replaces the
/// earlier: the provider of the earlier command is not disabled.
pub proof fn interleaved_disablings_lose_the_earlier(
    names: Seq<Seq<char>>,
    table: Table,
    guild_id: u64,
    earlier: Seq<char>,
    later: Seq<char>,
)
    requires
        table.dom().contains(guild_id),
        !table[guild_id].contains(earlier),
        !table[guild_id].contains(later),
        earlier != later,
    ensures
        ({
            let read = CommandEventView::Guild(Ok(row(table, guild_id)));
            let first = disable_step(
                names,
                CommandStateView::Disabling { guild_id, provider: earlier },
                read,
            ).1;
            let second = disable_step(
                names,
                CommandStateView::Disabling { guild_id, provider: later },
                read,
            ).1;
            &&& first matches CommandActionView::UpdateGuild {
                guild_id: first_guild,
                disabled_providers: first_list,
            }
            &&& second matches CommandActionView::UpdateGuild {
                guild_id: second_guild,
                disabled_providers: second_list,
            }
            &&& update(update(table, first_guild, first_list).0, second_guild, second_list).0
                == table.insert(guild_id, table[guild_id].push(later))
            &&& !table[guild_id].push(later).contains(earlier)
        }),
{
    let before = table[guild_id];
    assert(table.insert(guild_id, before.push(earlier)).insert(guild_id, before.push(later))
        =~= table.insert(guild_id, before.push(later)));
    if before.push(later).contains(earlier) {
        let i = choose|i: int| 0 <= i < before.push(later).len() && before.push(later)[i] == earlier;
        if i < before.len() {
            assert(before[i] == earlier);
        }
    }
}

/// Enabling a registered provider in a guild that was never referenced
/// creates the guild's row with no disabled provider and answers
/// "Provider is already enabled.".
pub proof fn enable_creates_the_guild(
    names: Seq<Seq<char>>,
    table: Table,
    request: InteractionView,
    provider: Seq<char>,
)
    requires
        names.contains(provider),
        is_about(request, CommandKind::Enable, provider),
        !table.dom().contains(request.guild_id),
    ensures
        command(names, table, request) == Some(
            (
                table.insert(request.guild_id, Seq::<Seq<char>>::empty()),
                "Provider is already enabled."@,
            ),
        ),
{
    lookup_returns_or_creates(table, request.guild_id);
    reveal_with_fuel(command_from, 4);
}

/// Enabling or disabling a provider that is not registered answers with
/// the list of the registered names and asks nothing of the store: the
/// table is as it was.
pub proof fn unknown_provider_is_refused(
    names: Seq<Seq<char>>,
    table: Table,
    request: InteractionView,
    provider: Seq<char>,
)
    requires
        !names.contains(provider),
        is_about(request, CommandKind::Enable, provider) || is_about(
            request,
            CommandKind::Disable,
            provider,
        ),
    ensures
        command(names, table, request) == Some((table, invalid_provider_text(names))),
        command_step(names, CommandStateView::Start, CommandEventView::Invoked(request))
            == (
            CommandStateView::Done,
            CommandActionView::Respond { content: invalid_provider_text(names) },
        ),
{
    reveal_with_fuel(command_from, 2);
}

} // verus!
