//! Commands written as chat text: `!providers`, `!enable <name>` and
//! `!disable <name>`. Each is read into the same [`Interaction`] that the
//! structured form of the command gives, so that both take the same path.

use vstd::prelude::*;
use vstd::string::*;
use crate::commands::{
    has_provider_option, kind_of, Interaction, InteractionView, OptionValue, OptionValueView,
};

verus! {

/// The command that `name` and `provider` make, as the contracts see it.
pub open spec fn provider_command(name: Seq<char>, guild_id: u64, provider: Seq<char>) -> InteractionView {
    InteractionView { name, guild_id, options: seq![Some(OptionValueView::Text(provider))] }
}

/// `text` after `prefix`, where `text` begins with `prefix` and goes on
/// after it.
pub open spec fn argument_after(text: Seq<char>, prefix: Seq<char>) -> Option<Seq<char>> {
    if prefix.is_prefix_of(text) && prefix.len() < text.len() {
        Some(text.skip(prefix.len() as int))
    } else {
        None
    }
}

/// The command that `text` spells. `!providers` is the listing.
/// `!enable ` and `!disable `, each followed by at least one character, are
/// the enabling and the disabling of the provider named by all that
/// follows. Any other text is no command.
pub open spec fn chat_command(text: Seq<char>, guild_id: u64) -> Option<InteractionView> {
    if text == "!providers"@ {
        Some(InteractionView { name: "list"@, guild_id, options: Seq::empty() })
    } else if let Some(provider) = argument_after(text, "!enable "@) {
        Some(provider_command("enable"@, guild_id, provider))
    } else if let Some(provider) = argument_after(text, "!disable "@) {
        Some(provider_command("disable"@, guild_id, provider))
    } else {
        None
    }
}

/// What follows `prefix` in `text`, if `text` begins with `prefix` and
/// goes on after it.
pub fn strip_command<'a>(text: &'a str, prefix: &str) -> (res: Option<&'a str>)
    ensures
        match res {
            Some(rest) => argument_after(text@, prefix@) == Some(rest@),
            None => argument_after(text@, prefix@) is None,
        },
{
    let length = text.unicode_len();
    let skipped = prefix.unicode_len();
    if skipped < length {
        let head = String::from_str(text.substring_char(0, skipped));
        if head == String::from_str(prefix) {
            assert(text@.subrange(0, skipped as int) == prefix@);
            let rest = text.substring_char(skipped, length);
            assert(rest@ =~= text@.skip(skipped as int));
            return Some(rest);
        }
        assert(!prefix@.is_prefix_of(text@)) by {
            if prefix@.is_prefix_of(text@) {
                assert(text@.subrange(0, skipped as int) =~= prefix@);
            }
        }
    }
    None
}

fn command_about(name: &str, guild_id: u64, provider: &str) -> (res: Interaction)
    ensures
        res@ == provider_command(name@, guild_id, provider@),
{
    let mut options: Vec<Option<OptionValue>> = Vec::new();
    options.push(Some(OptionValue::Text(String::from_str(provider))));
    let command = Interaction { name: String::from_str(name), guild_id, options };
    assert(command@.options =~= seq![Some(OptionValueView::Text(provider@))]);
    command
}

/// Reads a command written as chat text in the guild `guild_id`.
pub fn parse_chat_command(text: &str, guild_id: u64) -> (res: Option<Interaction>)
    ensures
        match res {
            Some(command) => chat_command(text@, guild_id) == Some(command@),
            None => chat_command(text@, guild_id) is None,
        },
{
    if String::from_str(text) == String::from_str("!providers") {
        let command = Interaction {
            name: String::from_str("list"),
            guild_id,
            options: Vec::new(),
        };
        assert(command@.options =~= Seq::empty());
        return Some(command);
    }
    if let Some(provider) = strip_command(text, "!enable ") {
        return Some(command_about("enable", guild_id, provider));
    }
    if let Some(provider) = strip_command(text, "!disable ") {
        return Some(command_about("disable", guild_id, provider));
    }
    None
}

/// A command read from chat text names its provider wherever it is an
/// enabling or a disabling: it can be handed to the command steps as it is.
pub proof fn chat_commands_carry_their_provider(text: Seq<char>, guild_id: u64)
    ensures
        chat_command(text, guild_id) matches Some(command) ==> (kind_of(command.name) is Enable
            || kind_of(command.name) is Disable) ==> has_provider_option(command),
{
    reveal_strlit("list");
    reveal_strlit("ping");
    reveal_strlit("enable");
    reveal_strlit("disable");
    if text == "!providers"@ {
        assert("list"@.len() == 4);
        assert("enable"@.len() == 6);
        assert("disable"@.len() == 7);
    }
}

} // verus!
