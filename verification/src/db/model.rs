//! A store that keeps its promises, as a mathematical object: what the
//! guilds table holds, what each request does to it, and what a lookup that
//! is run against it comes to.

use vstd::prelude::*;
use crate::db::{decimal, lookup_step, GuildView, LookupActionView, LookupEventView, LookupState, StoreError};

verus! {

/// What the table holds: for each guild that has a row, the names of its
/// disabled providers.
pub type Table = Map<u64, Seq<Seq<char>>>;

/// The row of `guild_id` in `table`.
pub open spec fn row(table: Table, guild_id: u64) -> GuildView
    recommends
        table.dom().contains(guild_id),
{
    GuildView { guild_id: decimal(guild_id as nat), disabled_providers: table[guild_id] }
}

/// Reading a row: the row, or `RowNotFound`.
pub open spec fn read(table: Table, guild_id: u64) -> Result<GuildView, StoreError> {
    if table.dom().contains(guild_id) {
        Ok(row(table, guild_id))
    } else {
        Err(StoreError::RowNotFound)
    }
}

/// Creating a row: a guild without a row gets one with no disabled
/// provider; a second row for the same guild is refused.
pub open spec fn create(table: Table, guild_id: u64) -> (Table, Result<GuildView, StoreError>) {
    if table.dom().contains(guild_id) {
        (table, Err(StoreError::Unavailable))
    } else {
        let created = table.insert(guild_id, Seq::empty());
        (created, Ok(row(created, guild_id)))
    }
}

/// Updating a row: the whole list of disabled providers is replaced; a
/// guild without a row has nothing to update.
pub open spec fn update(table: Table, guild_id: u64, disabled_providers: Seq<Seq<char>>) -> (
    Table,
    Result<GuildView, StoreError>,
) {
    if table.dom().contains(guild_id) {
        let updated = table.insert(guild_id, disabled_providers);
        (updated, Ok(row(updated, guild_id)))
    } else {
        (table, Err(StoreError::RowNotFound))
    }
}

/// An update replaces the whole list: of two updates of one row, only the
/// later one shows.
pub proof fn later_update_wins(
    table: Table,
    guild_id: u64,
    earlier: Seq<Seq<char>>,
    later: Seq<Seq<char>>,
)
    ensures
        update(update(table, guild_id, earlier).0, guild_id, later) == update(
            table,
            guild_id,
            later,
        ),
{
    if table.dom().contains(guild_id) {
        assert(table.insert(guild_id, earlier).insert(guild_id, later) =~= table.insert(
            guild_id,
            later,
        ));
    }
}

/// A lookup driven against `table` from `state` and `event`: each action is
/// carried out on the table and its answer handed back, for at most `steps`
/// steps. `None` if the lookup has not given a result by then.
pub open spec fn lookup_from(
    table: Table,
    guild_id: u64,
    state: LookupState,
    event: LookupEventView,
    steps: nat,
) -> Option<(Table, Result<GuildView, StoreError>)>
    decreases steps,
{
    if steps == 0 {
        None
    } else {
        let (next, action) = lookup_step(guild_id, state, event);
        match action {
            LookupActionView::Ignore => None,
            LookupActionView::Read { guild_id: asked } => lookup_from(
                table,
                guild_id,
                next,
                LookupEventView::Read(read(table, asked)),
                (steps - 1) as nat,
            ),
            LookupActionView::Create { guild_id: asked } => {
                let (created, answer) = create(table, asked);
                lookup_from(
                    created,
                    guild_id,
                    next,
                    LookupEventView::Created(answer),
                    (steps - 1) as nat,
                )
            },
            LookupActionView::Return(answer) => Some((table, answer)),
        }
    }
}

/// A whole lookup against `table`: the table afterwards and the result.
pub open spec fn lookup(table: Table, guild_id: u64) -> Option<(Table, Result<GuildView, StoreError>)> {
    lookup_from(table, guild_id, LookupState::Start, LookupEventView::Begin, 3)
}

/// The table after `guild_id` was referenced: its row is there, created
/// with no disabled provider if it was missing.
pub open spec fn referenced(table: Table, guild_id: u64) -> Table {
    if table.dom().contains(guild_id) {
        table
    } else {
        table.insert(guild_id, Seq::empty())
    }
}

/// A lookup always ends with a row: the one that was there, untouched, or a
/// new one with no disabled provider. No other guild's row changes.
pub proof fn lookup_returns_or_creates(table: Table, guild_id: u64)
    ensures
        lookup(table, guild_id) == Some(
            (referenced(table, guild_id), Ok::<GuildView, StoreError>(row(referenced(table, guild_id), guild_id))),
        ),
        table.dom().contains(guild_id) ==> referenced(table, guild_id) == table,
        !table.dom().contains(guild_id) ==> referenced(table, guild_id)[guild_id]
            == Seq::<Seq<char>>::empty(),
        forall|other: u64|
            other != guild_id ==> (#[trigger] referenced(table, guild_id).dom().contains(other)
                <==> table.dom().contains(other)),
        forall|other: u64|
            other != guild_id && table.dom().contains(other) ==> #[trigger] referenced(
                table,
                guild_id,
            )[other] == table[other],
{
    reveal_with_fuel(lookup_from, 4);
}

/// Looking a guild up a second time creates nothing and gives the same row.
pub proof fn lookup_is_idempotent(table: Table, guild_id: u64)
    ensures
        lookup(table, guild_id) matches Some((once, first)) && lookup(once, guild_id) == Some(
            (once, first),
        ),
{
    lookup_returns_or_creates(table, guild_id);
    lookup_returns_or_creates(referenced(table, guild_id), guild_id);
}

} // verus!
