use slash_commands::builder::{
    ApplicationCommandPermissionType, CommandPermission, CreateApplicationCommand,
    CreateApplicationCommandPermissionsData, PermissionRule, SlashCommandBuilder,
    SlashCommandCallback,
};
use slash_commands::error::{PlatformError, SlashCommandError};
use slash_commands::ext::{
    create_channel_message, defer_channel_message, defer_update_message, update_message,
    InteractionResponseType,
};
use slash_commands::handler::{DefaultSlashCommandHandler, PublishAction, RunPhase};
use slash_commands::SlashCommand;

fn user_rule(id: u64, allow: bool) -> PermissionRule {
    PermissionRule { kind: ApplicationCommandPermissionType::User, id, allow }
}

fn command(name: &str, guilds: Option<Vec<u64>>, token: u64) -> SlashCommand {
    SlashCommand {
        name: name.to_string(),
        guilds,
        description: Some(format!("{} command", name)),
        default_permission: true,
        permission_rules: vec![user_rule(7, true)],
        option_names: vec!["o_target".to_string()],
        callback: SlashCommandCallback(token),
    }
}

#[test]
fn permission_rule_appends_its_entry() {
    let mut p = CreateApplicationCommandPermissionsData::new();
    user_rule(7, true).apply(&mut p);
    PermissionRule { kind: ApplicationCommandPermissionType::Role, id: 9, allow: false }
        .apply(&mut p);
    assert_eq!(
        p.permissions,
        vec![
            CommandPermission { kind: ApplicationCommandPermissionType::User, id: 7, allow: true },
            CommandPermission { kind: ApplicationCommandPermissionType::Role, id: 9, allow: false },
        ]
    );
}

#[test]
fn builder_assembles_the_entry_from_its_parts() {
    let mut b = SlashCommandBuilder::default();
    b.name("quit".to_string());
    b.callback(SlashCommandCallback(3));
    let mut create = CreateApplicationCommand::new();
    create.name("quit".to_string());
    create.description("stops".to_string());
    create.default_permission(true);
    create.create_option("o_x".to_string());
    b.create_application_command(create);
    b.create_permissions(CreateApplicationCommandPermissionsData::new());
    b.guilds(vec![1, 2]);
    let (entry, cb) = b.build();
    assert_eq!(entry.name, "quit");
    assert_eq!(entry.guilds, Some(vec![1, 2]));
    assert_eq!(entry.create.name, Some("quit".to_string()));
    assert_eq!(entry.create.description, Some("stops".to_string()));
    assert_eq!(entry.create.default_permission, Some(true));
    assert_eq!(entry.create.options, vec!["o_x".to_string()]);
    assert_eq!(cb, SlashCommandCallback(3));
}

#[test]
fn descriptor_configures_the_creation_payload() {
    let cmd = command("quit", None, 1);
    let mut c = CreateApplicationCommand::new();
    cmd.create(&mut c);
    assert_eq!(c.default_permission, Some(true));
    assert_eq!(c.description, Some("quit command".to_string()));
    assert_eq!(c.options, vec!["o_target".to_string()]);
    assert_eq!(c.name, None);
}

#[test]
fn descriptor_applies_its_permission_rules_in_order() {
    let mut cmd = command("quit", None, 1);
    cmd.permission_rules = vec![user_rule(7, true), user_rule(8, false)];
    let mut p = CreateApplicationCommandPermissionsData::new();
    cmd.permissions(&mut p);
    assert_eq!(
        p.permissions,
        vec![
            CommandPermission { kind: ApplicationCommandPermissionType::User, id: 7, allow: true },
            CommandPermission { kind: ApplicationCommandPermissionType::User, id: 8, allow: false },
        ]
    );
}

#[test]
fn dispatch_routes_a_registered_name_and_passes_the_payload_through() {
    let mut h = DefaultSlashCommandHandler::default();
    command("quit", None, 11).register(&mut h);
    command("ping", None, 12).register(&mut h);
    let r = h.interaction_create("quit", 99u32);
    assert_eq!(r, Ok((SlashCommandCallback(11), 99u32)));
    let r = h.interaction_create("ping", "payload");
    assert_eq!(r, Ok((SlashCommandCallback(12), "payload")));
}

#[test]
fn dispatch_of_an_unregistered_name_is_the_unhandled_error() {
    let mut h = DefaultSlashCommandHandler::default();
    command("quit", None, 11).register(&mut h);
    let r = h.interaction_create("unknown", 1u8);
    assert_eq!(r, Err(SlashCommandError::UnhandledSlashCommand("unknown".to_string())));
}

#[test]
fn registration_stores_the_entry_and_the_callback() {
    let mut h = DefaultSlashCommandHandler::default();
    command("quit", Some(vec![5]), 11).register(&mut h);
    assert_eq!(h.get_callback("quit"), Some(SlashCommandCallback(11)));
    assert_eq!(h.get_callback("other"), None);
    let pending = h.to_add.as_ref().unwrap();
    assert_eq!(pending.len(), 1);
    assert_eq!(pending[0].name, "quit");
    assert_eq!(pending[0].guilds, Some(vec![5]));
    assert_eq!(pending[0].create.name, Some("quit".to_string()));
}

#[test]
fn publication_feeds_global_entries_into_the_batch() {
    let mut h = DefaultSlashCommandHandler::default();
    command("global_one", None, 1).register(&mut h);
    command("scoped_one", Some(vec![4]), 2).register(&mut h);
    let run = h.create_application_commands();
    let globals = h.globals.as_ref().unwrap();
    assert_eq!(globals.len(), 1);
    assert_eq!(globals[0].name, Some("global_one".to_string()));
    assert_eq!(run.entries.len(), 1);
    assert_eq!(run.entries[0].name, "scoped_one");
    assert!(h.to_add.is_none());
}

#[test]
fn publication_walks_each_scope_in_order() {
    let mut h = DefaultSlashCommandHandler::default();
    command("scoped", Some(vec![1, 2]), 9).register(&mut h);
    let mut run = h.create_application_commands();
    match run.next_action() {
        PublishAction::CreateCommand { guild_id, create } => {
            assert_eq!(guild_id, 1);
            assert_eq!(create.name, Some("scoped".to_string()));
        },
        other => panic!("unexpected action: {:?}", other),
    }
    run.created(500);
    match run.next_action() {
        PublishAction::ApplyPermissions { guild_id, command_id, permissions } => {
            assert_eq!(guild_id, 1);
            assert_eq!(command_id, 500);
            assert_eq!(permissions.permissions.len(), 1);
        },
        other => panic!("unexpected action: {:?}", other),
    }
    run.applied();
    match run.next_action() {
        PublishAction::CreateCommand { guild_id, .. } => assert_eq!(guild_id, 2),
        other => panic!("unexpected action: {:?}", other),
    }
    run.created(501);
    run.applied();
    assert_eq!(run.next_action(), PublishAction::Finished { failure: None });
    assert_eq!(run.result(), Ok(()));
}

#[test]
fn a_failure_short_circuits_the_remaining_scopes() {
    let mut h = DefaultSlashCommandHandler::default();
    command("scoped", Some(vec![1, 2, 3]), 9).register(&mut h);
    let mut run = h.create_application_commands();
    // scope 1 succeeds in full
    run.created(500);
    run.applied();
    // scope 2 fails at creation: scope 3 is never offered
    let boom = PlatformError { message: "boom".to_string() };
    run.failed(boom.clone());
    assert_eq!(run.next_action(), PublishAction::Finished { failure: Some(boom.clone()) });
    assert_eq!(run.phase, RunPhase::Done { failure: Some(boom.clone()) });
    assert_eq!(run.result(), Err(SlashCommandError::Platform(boom)));
}

#[test]
fn publishing_twice_performs_the_side_effects_only_once() {
    let mut h = DefaultSlashCommandHandler::default();
    command("global_one", None, 1).register(&mut h);
    command("scoped_one", Some(vec![4]), 2).register(&mut h);
    let first = h.create_application_commands();
    assert_eq!(first.entries.len(), 1);
    let globals_after_first = h.globals.clone();
    let second = h.create_application_commands();
    assert!(second.entries.is_empty());
    assert_eq!(second.result(), Ok(()));
    assert_eq!(h.globals, globals_after_first);
    assert!(h.to_add.is_none());
    assert_eq!(h.get_callback("scoped_one"), Some(SlashCommandCallback(2)));
}

#[test]
fn platform_errors_convert_into_the_umbrella_error() {
    let e = PlatformError { message: "down".to_string() };
    let r: SlashCommandError = SlashCommandError::from(e.clone());
    assert_eq!(r, SlashCommandError::Platform(e));
}

#[test]
fn interaction_responses_carry_their_kind_and_payload() {
    let r = create_channel_message("hello");
    assert_eq!(r.kind, InteractionResponseType::ChannelMessageWithSource);
    assert_eq!(r.data, Some("hello"));
    let r = defer_channel_message::<String>();
    assert_eq!(r.kind, InteractionResponseType::DeferredChannelMessageWithSource);
    assert_eq!(r.data, None);
    let r = update_message(42u8);
    assert_eq!(r.kind, InteractionResponseType::UpdateMessage);
    assert_eq!(r.data, Some(42u8));
    let r = defer_update_message::<u8>();
    assert_eq!(r.kind, InteractionResponseType::DeferredUpdateMessage);
    assert_eq!(r.data, None);
}

#[test]
fn handler_registration_entry_point_forwards_to_the_descriptor() {
    let mut h = DefaultSlashCommandHandler::default();
    let cmd = command("stats", None, 21);
    h.register_slash_command(&cmd);
    assert_eq!(h.get_callback("stats"), Some(SlashCommandCallback(21)));
    assert_eq!(h.to_add.as_ref().unwrap().len(), 1);
}
