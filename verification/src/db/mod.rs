//! The per-guild record of disabled providers, and the protocol by which a
//! record is read from the store or created on first reference.
//!
//! The store itself is reached by the caller: this module decides what is
//! asked of it, and [`model`] says what a store that keeps its promises
//! answers.

use vstd::prelude::*;
use vstd::string::*;
use crate::text::names_of;

pub mod model;

verus! {

/// Why the store did not answer with a record.
#[derive(Clone, Copy, Debug, PartialEq, Eq, Structural)]
pub enum StoreError {
    /// No row has the key that was asked for.
    RowNotFound,
    /// The store could not be reached, or refused the request.
    Unavailable,
}

/// One row of the guilds table.
#[derive(Debug, PartialEq, Eq)]
pub struct Guild {
    /// The guild's identifier, in decimal.
    pub guild_id: String,
    /// The providers that are switched off for this guild. Order carries no
    /// meaning; the commands never add a name twice.
    pub disabled_providers: Vec<String>,
}

/// A row as the contracts see it.
pub struct GuildView {
    pub guild_id: Seq<char>,
    pub disabled_providers: Seq<Seq<char>>,
}

impl View for Guild {
    type V = GuildView;

    open spec fn view(&self) -> GuildView {
        GuildView {
            guild_id: self.guild_id@,
            disabled_providers: names_of(self.disabled_providers@),
        }
    }
}

/// What the store answered to a request for one row.
pub type StoreResult = Result<Guild, StoreError>;

/// A store's answer as the contracts see it.
pub open spec fn answer_view(answer: StoreResult) -> Result<GuildView, StoreError> {
    match answer {
        Ok(guild) => Ok(guild@),
        Err(error) => Err(error),
    }
}

/// The character of a decimal digit.
pub open spec fn digit_char(d: nat) -> char
    recommends
        d < 10,
{
    if d == 0 {
        '0'
    } else if d == 1 {
        '1'
    } else if d == 2 {
        '2'
    } else if d == 3 {
        '3'
    } else if d == 4 {
        '4'
    } else if d == 5 {
        '5'
    } else if d == 6 {
        '6'
    } else if d == 7 {
        '7'
    } else if d == 8 {
        '8'
    } else {
        '9'
    }
}

/// The decimal numeral of `n`, without leading zeros.
pub open spec fn decimal(n: nat) -> Seq<char>
    decreases n,
{
    if n < 10 {
        seq![digit_char(n)]
    } else {
        decimal(n / 10).push(digit_char(n % 10))
    }
}

/// Two guilds never share a key: numbers that differ have numerals that
/// differ.
pub proof fn keys_are_distinct(a: nat, b: nat)
    requires
        a != b,
    ensures
        decimal(a) != decimal(b),
    decreases a,
{
    if a < 10 && b < 10 {
        assert(decimal(a)[0] != decimal(b)[0]);
    } else if a < 10 || b < 10 {
        assert(decimal(a).len() != decimal(b).len()) by {
            numerals_are_not_empty(a / 10);
            numerals_are_not_empty(b / 10);
        }
    } else {
        if a / 10 != b / 10 {
            keys_are_distinct(a / 10, b / 10);
            assert(decimal(a).drop_last() =~= decimal(a / 10));
            assert(decimal(b).drop_last() =~= decimal(b / 10));
        } else {
            assert(a % 10 != b % 10);
            assert(decimal(a).last() != decimal(b).last());
        }
    }
}

proof fn numerals_are_not_empty(n: nat)
    ensures
        decimal(n).len() >= 1,
    decreases n,
{
    if n >= 10 {
        numerals_are_not_empty(n / 10);
    }
}

fn digit_str(d: u64) -> (res: &'static str)
    requires
        d < 10,
    ensures
        res@ == seq![digit_char(d as nat)],
{
    proof {
        reveal_strlit("0");
        reveal_strlit("1");
        reveal_strlit("2");
        reveal_strlit("3");
        reveal_strlit("4");
        reveal_strlit("5");
        reveal_strlit("6");
        reveal_strlit("7");
        reveal_strlit("8");
        reveal_strlit("9");
    }
    let res = if d == 0 {
        "0"
    } else if d == 1 {
        "1"
    } else if d == 2 {
        "2"
    } else if d == 3 {
        "3"
    } else if d == 4 {
        "4"
    } else if d == 5 {
        "5"
    } else if d == 6 {
        "6"
    } else if d == 7 {
        "7"
    } else if d == 8 {
        "8"
    } else {
        "9"
    };
    assert(res@ =~= seq![digit_char(d as nat)]);
    res
}

/// The key under which a guild's row is stored: its identifier in decimal.
pub fn guild_key(guild_id: u64) -> (res: String)
    ensures
        res@ == decimal(guild_id as nat),
    decreases guild_id,
{
    if guild_id < 10 {
        String::from_str(digit_str(guild_id))
    } else {
        let head = guild_key(guild_id / 10);
        let key = head.concat(digit_str(guild_id % 10));
        assert(key@ =~= decimal(guild_id as nat));
        key
    }
}

/// Where a lookup stands.
#[derive(Clone, Copy, Debug, PartialEq, Eq, Structural)]
pub enum LookupState {
    /// Nothing was asked yet.
    Start,
    /// The row was asked for.
    Reading,
    /// The row was missing and its creation was asked for.
    Creating,
    /// The lookup has given its result.
    Finished,
}

/// What happened since the last step of a lookup.
#[derive(Debug, PartialEq, Eq)]
pub enum LookupEvent {
    /// The lookup was started.
    Begin,
    /// The store answered the read.
    Read(StoreResult),
    /// The store answered the creation.
    Created(StoreResult),
}

/// What the caller of a lookup does next.
#[derive(Debug, PartialEq, Eq)]
pub enum LookupAction {
    /// Nothing: the event does not belong to the state.
    Ignore,
    /// Read the guild's row and come back with the answer.
    Read { guild_id: u64 },
    /// Insert a row with no disabled provider and come back with the answer.
    Create { guild_id: u64 },
    /// The lookup ends with this result.
    Return(StoreResult),
}

/// An event as the contracts see it.
pub enum LookupEventView {
    Begin,
    Read(Result<GuildView, StoreError>),
    Created(Result<GuildView, StoreError>),
}

/// An action as the contracts see it.
pub enum LookupActionView {
    Ignore,
    Read { guild_id: u64 },
    Create { guild_id: u64 },
    Return(Result<GuildView, StoreError>),
}

impl View for LookupEvent {
    type V = LookupEventView;

    open spec fn view(&self) -> LookupEventView {
        match *self {
            LookupEvent::Begin => LookupEventView::Begin,
            LookupEvent::Read(answer) => LookupEventView::Read(answer_view(answer)),
            LookupEvent::Created(answer) => LookupEventView::Created(answer_view(answer)),
        }
    }
}

impl View for LookupAction {
    type V = LookupActionView;

    open spec fn view(&self) -> LookupActionView {
        match *self {
            LookupAction::Ignore => LookupActionView::Ignore,
            LookupAction::Read { guild_id } => LookupActionView::Read { guild_id },
            LookupAction::Create { guild_id } => LookupActionView::Create { guild_id },
            LookupAction::Return(answer) => LookupActionView::Return(answer_view(answer)),
        }
    }
}

/// One step of a lookup: the row is read; a row that is found is the result;
/// a missing row is created, and the answer to the creation is the result;
/// any other failure of the read is the result as it is. An event that the
/// state does not await changes nothing.
pub open spec fn lookup_step(guild_id: u64, state: LookupState, event: LookupEventView) -> (
    LookupState,
    LookupActionView,
) {
    match (state, event) {
        (LookupState::Start, LookupEventView::Begin) => (
            LookupState::Reading,
            LookupActionView::Read { guild_id },
        ),
        (LookupState::Reading, LookupEventView::Read(Ok(guild))) => (
            LookupState::Finished,
            LookupActionView::Return(Ok(guild)),
        ),
        (LookupState::Reading, LookupEventView::Read(Err(StoreError::RowNotFound))) => (
            LookupState::Creating,
            LookupActionView::Create { guild_id },
        ),
        (LookupState::Reading, LookupEventView::Read(Err(error))) => (
            LookupState::Finished,
            LookupActionView::Return(Err(error)),
        ),
        (LookupState::Creating, LookupEventView::Created(answer)) => (
            LookupState::Finished,
            LookupActionView::Return(answer),
        ),
        _ => (state, LookupActionView::Ignore),
    }
}

/// Advances the lookup of `guild_id`'s row by one step.
pub fn create_or_get_guild(guild_id: u64, state: LookupState, event: LookupEvent) -> (res: (
    LookupState,
    LookupAction,
))
    ensures
        (res.0, res.1@) == lookup_step(guild_id, state, event@),
{
    match (state, event) {
        (LookupState::Start, LookupEvent::Begin) => (
            LookupState::Reading,
            LookupAction::Read { guild_id },
        ),
        (LookupState::Reading, LookupEvent::Read(Ok(guild))) => (
            LookupState::Finished,
            LookupAction::Return(Ok(guild)),
        ),
        (LookupState::Reading, LookupEvent::Read(Err(StoreError::RowNotFound))) => (
            LookupState::Creating,
            LookupAction::Create { guild_id },
        ),
        (LookupState::Reading, LookupEvent::Read(Err(error))) => (
            LookupState::Finished,
            LookupAction::Return(Err(error)),
        ),
        (LookupState::Creating, LookupEvent::Created(answer)) => (
            LookupState::Finished,
            LookupAction::Return(answer),
        ),
        (state, _) => (state, LookupAction::Ignore),
    }
}

} // verus!
