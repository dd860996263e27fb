use link_relay::commands::{
    carries_provider_option, command_kind, disable, enable, interaction_create, is_valid_provider,
    providers, str_providers, CommandAction, CommandEvent, CommandKind, CommandState, Interaction,
    OptionValue,
};
use link_relay::db::{Guild, StoreError};
use link_relay::providers::tiktok::TiktokProvider;
use link_relay::providers::Provider;
use std::collections::HashMap;

type Table = HashMap<u64, Vec<String>>;

fn registry_of(count: usize) -> Vec<&'static dyn Provider> {
    let mut registry: Vec<&'static dyn Provider> = Vec::new();
    for _ in 0..count {
        registry.push(&TiktokProvider);
    }
    registry
}

fn names(list: &[&str]) -> Vec<String> {
    list.iter().map(|name| name.to_string()).collect()
}

fn guild(id: u64, disabled: &[&str]) -> Guild {
    Guild { guild_id: id.to_string(), disabled_providers: names(disabled) }
}

fn command(name: &str, guild_id: u64, provider: &str) -> Interaction {
    Interaction {
        name: name.to_string(),
        guild_id,
        options: vec![Some(OptionValue::Text(provider.to_string()))],
    }
}

fn respond(content: &str) -> (CommandState, CommandAction) {
    (CommandState::Done, CommandAction::Respond { content: content.to_string() })
}

fn run(registry: &Vec<&dyn Provider>, table: &mut Table, request: Interaction) -> String {
    let mut state = CommandState::Start;
    let mut event = CommandEvent::Invoked(request);
    loop {
        let (next, action) = interaction_create(registry, state, event);
        state = next;
        match action {
            CommandAction::Ignore => panic!("the command ignored an event"),
            CommandAction::GetOrCreateGuild { guild_id } => {
                let disabled = table.entry(guild_id).or_insert_with(Vec::new).clone();
                event = CommandEvent::Guild(Ok(Guild {
                    guild_id: guild_id.to_string(),
                    disabled_providers: disabled,
                }));
            }
            CommandAction::UpdateGuild { guild_id, disabled_providers } => {
                event = CommandEvent::Updated(match table.get_mut(&guild_id) {
                    Some(row) => {
                        *row = disabled_providers.clone();
                        Ok(Guild { guild_id: guild_id.to_string(), disabled_providers })
                    }
                    None => Err(StoreError::RowNotFound),
                });
            }
            CommandAction::Respond { content } => {
                assert_eq!(state, CommandState::Done);
                return content;
            }
        }
    }
}

#[test]
fn str_providers_concatenates_the_names() {
    assert_eq!(str_providers(&registry_of(1)), "tiktok");
    assert_eq!(str_providers(&registry_of(2)), "tiktoktiktok");
    assert_eq!(str_providers(&registry_of(0)), "");
}

#[test]
fn is_valid_provider_knows_the_registered_names() {
    let registry = registry_of(2);
    assert!(is_valid_provider(&registry, &"tiktok".to_string()));
    assert!(!is_valid_provider(&registry, &"youtube".to_string()));
    assert!(!is_valid_provider(&registry, &"Tiktok".to_string()));
    assert!(!is_valid_provider(&registry, &"tiktoktiktok".to_string()));
    assert!(!is_valid_provider(&registry, &"not-a-real-provider".to_string()));
    assert!(!is_valid_provider(&registry_of(0), &"tiktok".to_string()));
}

#[test]
fn command_kind_tells_the_commands_apart() {
    assert_eq!(command_kind(&"ping".to_string()), CommandKind::Ping);
    assert_eq!(command_kind(&"list".to_string()), CommandKind::List);
    assert_eq!(command_kind(&"enable".to_string()), CommandKind::Enable);
    assert_eq!(command_kind(&"disable".to_string()), CommandKind::Disable);
    assert_eq!(command_kind(&"Enable".to_string()), CommandKind::Unknown);
    assert_eq!(command_kind(&"".to_string()), CommandKind::Unknown);
}

#[test]
fn carries_provider_option_asks_for_a_resolved_first_option() {
    assert!(carries_provider_option(&command("enable", 1, "tiktok")));
    let mut other = command("enable", 1, "tiktok");
    other.options = vec![Some(OptionValue::Other)];
    assert!(carries_provider_option(&other));
    other.options = vec![None, Some(OptionValue::Text("tiktok".to_string()))];
    assert!(!carries_provider_option(&other));
    other.options = Vec::new();
    assert!(!carries_provider_option(&other));
}

#[test]
fn list_asks_for_the_guild_first() {
    let request = Interaction { name: "list".to_string(), guild_id: 42, options: Vec::new() };
    assert_eq!(
        providers(CommandState::Start, CommandEvent::Invoked(request)),
        (CommandState::Listing, CommandAction::GetOrCreateGuild { guild_id: 42 })
    );
}

#[test]
fn list_shows_the_disabled_providers() {
    assert_eq!(
        providers(CommandState::Listing, CommandEvent::Guild(Ok(guild(42, &["tiktok", "youtube"])))),
        respond("Disabled providers: tiktok, youtube")
    );
    assert_eq!(
        providers(CommandState::Listing, CommandEvent::Guild(Ok(guild(42, &["tiktok"])))),
        respond("Disabled providers: tiktok")
    );
    assert_eq!(
        providers(CommandState::Listing, CommandEvent::Guild(Ok(guild(42, &[])))),
        respond("Disabled providers: ")
    );
}

#[test]
fn list_reports_a_store_failure() {
    assert_eq!(
        providers(CommandState::Listing, CommandEvent::Guild(Err(StoreError::Unavailable))),
        respond("Failed to get guild")
    );
}

#[test]
fn enable_asks_for_the_guild_of_a_registered_provider() {
    let registry = registry_of(1);
    assert_eq!(
        enable(&registry, CommandState::Start, CommandEvent::Invoked(command("enable", 42, "tiktok"))),
        (
            CommandState::Enabling { guild_id: 42, provider: "tiktok".to_string() },
            CommandAction::GetOrCreateGuild { guild_id: 42 }
        )
    );
}

#[test]
fn enable_refuses_an_unknown_provider() {
    let registry = registry_of(2);
    assert_eq!(
        enable(
            &registry,
            CommandState::Start,
            CommandEvent::Invoked(command("enable", 42, "not-a-real-provider"))
        ),
        respond("Invalid provider. Use one of: tiktoktiktok")
    );
    assert_eq!(
        enable(
            &registry_of(0),
            CommandState::Start,
            CommandEvent::Invoked(command("enable", 42, "tiktok"))
        ),
        respond("Invalid provider. Use one of: ")
    );
}

#[test]
fn enable_refuses_an_option_that_is_no_string() {
    let registry = registry_of(1);
    let request =
        Interaction { name: "enable".to_string(), guild_id: 42, options: vec![Some(OptionValue::Other)] };
    assert_eq!(
        enable(&registry, CommandState::Start, CommandEvent::Invoked(request)),
        respond("Invalid provider")
    );
}

#[test]
fn enable_removes_the_provider_from_the_list() {
    let registry = registry_of(1);
    assert_eq!(
        enable(
            &registry,
            CommandState::Enabling { guild_id: 42, provider: "tiktok".to_string() },
            CommandEvent::Guild(Ok(guild(42, &["youtube", "tiktok", "vimeo"])))
        ),
        (
            CommandState::EnableWriting,
            CommandAction::UpdateGuild { guild_id: 42, disabled_providers: names(&["youtube", "vimeo"]) }
        )
    );
}

#[test]
fn enable_leaves_an_enabled_provider_alone() {
    let registry = registry_of(1);
    assert_eq!(
        enable(
            &registry,
            CommandState::Enabling { guild_id: 42, provider: "tiktok".to_string() },
            CommandEvent::Guild(Ok(guild(42, &["youtube"])))
        ),
        respond("Provider is already enabled.")
    );
}

#[test]
fn enable_reports_store_failures() {
    let registry = registry_of(1);
    assert_eq!(
        enable(
            &registry,
            CommandState::Enabling { guild_id: 42, provider: "tiktok".to_string() },
            CommandEvent::Guild(Err(StoreError::Unavailable))
        ),
        respond("Failed to get guild")
    );
    assert_eq!(
        enable(&registry, CommandState::EnableWriting, CommandEvent::Updated(Err(StoreError::Unavailable))),
        respond("Unexpected error")
    );
}

#[test]
fn enable_confirms_the_update() {
    let registry = registry_of(1);
    assert_eq!(
        enable(&registry, CommandState::EnableWriting, CommandEvent::Updated(Ok(guild(42, &[])))),
        respond("Provider enabled.")
    );
}

#[test]
fn disable_asks_for_the_guild_of_a_registered_provider() {
    let registry = registry_of(1);
    assert_eq!(
        disable(&registry, CommandState::Start, CommandEvent::Invoked(command("disable", 42, "tiktok"))),
        (
            CommandState::Disabling { guild_id: 42, provider: "tiktok".to_string() },
            CommandAction::GetOrCreateGuild { guild_id: 42 }
        )
    );
}

#[test]
fn disable_refuses_an_unknown_provider() {
    let registry = registry_of(1);
    assert_eq!(
        disable(&registry, CommandState::Start, CommandEvent::Invoked(command("disable", 42, "TikTok"))),
        respond("Invalid provider. Use one of: tiktok")
    );
    let request =
        Interaction { name: "disable".to_string(), guild_id: 42, options: vec![Some(OptionValue::Other)] };
    assert_eq!(
        disable(&registry, CommandState::Start, CommandEvent::Invoked(request)),
        respond("Invalid provider")
    );
}

#[test]
fn disable_appends_the_provider() {
    let registry = registry_of(1);
    assert_eq!(
        disable(
            &registry,
            CommandState::Disabling { guild_id: 42, provider: "tiktok".to_string() },
            CommandEvent::Guild(Ok(guild(42, &["youtube"])))
        ),
        (
            CommandState::DisableWriting,
            CommandAction::UpdateGuild { guild_id: 42, disabled_providers: names(&["youtube", "tiktok"]) }
        )
    );
}

#[test]
fn disable_leaves_a_disabled_provider_alone() {
    let registry = registry_of(1);
    assert_eq!(
        disable(
            &registry,
            CommandState::Disabling { guild_id: 42, provider: "tiktok".to_string() },
            CommandEvent::Guild(Ok(guild(42, &["tiktok"])))
        ),
        respond("Provider is already disabled.")
    );
}

#[test]
fn disable_reports_store_failures() {
    let registry = registry_of(1);
    assert_eq!(
        disable(
            &registry,
            CommandState::Disabling { guild_id: 42, provider: "tiktok".to_string() },
            CommandEvent::Guild(Err(StoreError::Unavailable))
        ),
        respond("Failed to get guild")
    );
    assert_eq!(
        disable(&registry, CommandState::DisableWriting, CommandEvent::Updated(Err(StoreError::RowNotFound))),
        respond("Failed to update guild")
    );
}

#[test]
fn disable_confirms_the_update() {
    let registry = registry_of(1);
    assert_eq!(
        disable(&registry, CommandState::DisableWriting, CommandEvent::Updated(Ok(guild(42, &["tiktok"])))),
        respond("Provider disabled.")
    );
}

#[test]
fn events_out_of_turn_are_ignored() {
    let registry = registry_of(1);
    assert_eq!(
        enable(&registry, CommandState::Start, CommandEvent::Guild(Ok(guild(42, &[])))),
        (CommandState::Start, CommandAction::Ignore)
    );
    assert_eq!(
        enable(&registry, CommandState::EnableWriting, CommandEvent::Guild(Ok(guild(42, &[])))),
        (CommandState::EnableWriting, CommandAction::Ignore)
    );
    assert_eq!(
        disable(&registry, CommandState::EnableWriting, CommandEvent::Updated(Ok(guild(42, &[])))),
        (CommandState::EnableWriting, CommandAction::Ignore)
    );
    assert_eq!(
        providers(CommandState::Listing, CommandEvent::Updated(Ok(guild(42, &[])))),
        (CommandState::Listing, CommandAction::Ignore)
    );
    assert_eq!(
        interaction_create(&registry, CommandState::Done, CommandEvent::Guild(Ok(guild(42, &[])))),
        (CommandState::Done, CommandAction::Ignore)
    );
    assert_eq!(
        interaction_create(&registry, CommandState::Start, CommandEvent::Updated(Ok(guild(42, &[])))),
        (CommandState::Start, CommandAction::Ignore)
    );
}

#[test]
fn ping_and_unknown_commands_are_answered_at_once() {
    let registry = registry_of(1);
    let ping = Interaction { name: "ping".to_string(), guild_id: 1, options: Vec::new() };
    assert_eq!(
        interaction_create(&registry, CommandState::Start, CommandEvent::Invoked(ping)),
        respond("Hey, I'm alive!")
    );
    let other = Interaction { name: "dance".to_string(), guild_id: 1, options: Vec::new() };
    assert_eq!(
        interaction_create(&registry, CommandState::Start, CommandEvent::Invoked(other)),
        respond("not implemented :(")
    );
}

#[test]
fn commands_are_routed_by_name_and_then_by_state() {
    let registry = registry_of(1);
    assert_eq!(
        interaction_create(
            &registry,
            CommandState::Start,
            CommandEvent::Invoked(command("disable", 5, "tiktok"))
        ),
        (
            CommandState::Disabling { guild_id: 5, provider: "tiktok".to_string() },
            CommandAction::GetOrCreateGuild { guild_id: 5 }
        )
    );
    assert_eq!(
        interaction_create(
            &registry,
            CommandState::Enabling { guild_id: 5, provider: "tiktok".to_string() },
            CommandEvent::Guild(Ok(guild(5, &[])))
        ),
        respond("Provider is already enabled.")
    );
    assert_eq!(
        interaction_create(&registry, CommandState::Listing, CommandEvent::Guild(Ok(guild(5, &["a", "b"])))),
        respond("Disabled providers: a, b")
    );
    assert_eq!(
        interaction_create(&registry, CommandState::DisableWriting, CommandEvent::Updated(Ok(guild(5, &[])))),
        respond("Provider disabled.")
    );
}

#[test]
fn enable_removes_exactly_the_provider() {
    let registry = registry_of(1);
    let mut table = Table::new();
    table.insert(42, names(&["youtube", "tiktok", "vimeo"]));
    table.insert(7, names(&["tiktok"]));
    assert_eq!(run(&registry, &mut table, command("enable", 42, "tiktok")), "Provider enabled.");
    assert_eq!(table.get(&42), Some(&names(&["youtube", "vimeo"])));
    assert_eq!(table.get(&7), Some(&names(&["tiktok"])));
    assert_eq!(table.len(), 2);
}

#[test]
fn disable_twice_is_idempotent() {
    let registry = registry_of(1);
    let mut table = Table::new();
    assert_eq!(run(&registry, &mut table, command("disable", 42, "tiktok")), "Provider disabled.");
    let after_first = table.clone();
    assert_eq!(after_first.get(&42), Some(&names(&["tiktok"])));
    assert_eq!(
        run(&registry, &mut table, command("disable", 42, "tiktok")),
        "Provider is already disabled."
    );
    assert_eq!(table, after_first);
}

#[test]
fn enable_on_a_new_guild_creates_it() {
    let registry = registry_of(1);
    let mut table = Table::new();
    assert_eq!(
        run(&registry, &mut table, command("enable", 42, "tiktok")),
        "Provider is already enabled."
    );
    assert_eq!(table.get(&42), Some(&Vec::new()));
    assert_eq!(table.len(), 1);
}

#[test]
fn unknown_provider_leaves_the_store_alone() {
    let registry = registry_of(1);
    let mut table = Table::new();
    table.insert(1, names(&["tiktok"]));
    let before = table.clone();
    assert_eq!(
        run(&registry, &mut table, command("enable", 42, "not-a-real-provider")),
        "Invalid provider. Use one of: tiktok"
    );
    assert_eq!(table, before);
    assert_eq!(
        run(&registry, &mut table, command("disable", 42, "not-a-real-provider")),
        "Invalid provider. Use one of: tiktok"
    );
    assert_eq!(table, before);
}

#[test]
fn disable_then_enable_restores_the_list() {
    let registry = registry_of(1);
    let mut table = Table::new();
    table.insert(42, names(&["youtube"]));
    assert_eq!(run(&registry, &mut table, command("disable", 42, "tiktok")), "Provider disabled.");
    assert_eq!(table.get(&42), Some(&names(&["youtube", "tiktok"])));
    let list = Interaction { name: "list".to_string(), guild_id: 42, options: Vec::new() };
    assert_eq!(run(&registry, &mut table, list), "Disabled providers: youtube, tiktok");
    assert_eq!(run(&registry, &mut table, command("enable", 42, "tiktok")), "Provider enabled.");
    assert_eq!(table.get(&42), Some(&names(&["youtube"])));
}

#[test]
fn list_on_a_new_guild_creates_it() {
    let registry = registry_of(1);
    let mut table = Table::new();
    let list = Interaction { name: "list".to_string(), guild_id: 3, options: Vec::new() };
    assert_eq!(run(&registry, &mut table, list), "Disabled providers: ");
    assert_eq!(table.get(&3), Some(&Vec::new()));
}

#[test]
fn interleaved_disablings_lose_the_earlier_one() {
    let registry = registry_of(1);
    let mut table = Table::new();
    table.insert(42, names(&["vimeo"]));

    let earlier = CommandState::Disabling { guild_id: 42, provider: "tiktok".to_string() };
    let later = CommandState::Disabling { guild_id: 42, provider: "youtube".to_string() };
    let read = || CommandEvent::Guild(Ok(guild(42, &["vimeo"])));

    let (_, first) = disable(&registry, earlier, read());
    let (_, second) = disable(&registry, later, read());
    for action in [first, second] {
        match action {
            CommandAction::UpdateGuild { guild_id, disabled_providers } => {
                table.insert(guild_id, disabled_providers);
            }
            other => panic!("expected an update, got {:?}", other),
        }
    }
    assert_eq!(table.get(&42), Some(&names(&["vimeo", "youtube"])));
}

#[test]
fn disable_keeps_the_names_distinct() {
    let registry = registry_of(1);
    let mut table = Table::new();
    table.insert(42, names(&["vimeo", "youtube"]));
    for _ in 0..3 {
        run(&registry, &mut table, command("disable", 42, "tiktok"));
    }
    assert_eq!(table.get(&42), Some(&names(&["vimeo", "youtube", "tiktok"])));
}

#[test]
fn enable_removes_every_occurrence() {
    let registry = registry_of(1);
    let mut table = Table::new();
    table.insert(42, names(&["tiktok", "vimeo", "tiktok"]));
    assert_eq!(run(&registry, &mut table, command("enable", 42, "tiktok")), "Provider enabled.");
    assert_eq!(table.get(&42), Some(&names(&["vimeo"])));
    assert_eq!(
        run(&registry, &mut table, command("enable", 42, "tiktok")),
        "Provider is already enabled."
    );
}

#[test]
fn names_are_compared_exactly() {
    let registry = registry_of(1);
    let mut table = Table::new();
    table.insert(42, names(&["TikTok"]));
    assert_eq!(run(&registry, &mut table, command("disable", 42, "tiktok")), "Provider disabled.");
    assert_eq!(table.get(&42), Some(&names(&["TikTok", "tiktok"])));
}

#[test]
fn an_update_of_a_missing_row_is_reported() {
    let registry = registry_of(1);
    assert_eq!(
        enable(&registry, CommandState::EnableWriting, CommandEvent::Updated(Err(StoreError::RowNotFound))),
        respond("Unexpected error")
    );
}
