use happye_bot::commands::default_registry;
use happye_bot::twitch_bot::{
    finish_external_action, parse_command_text, route_privmsg, ReplyPlan, SearchOutcome,
};

#[test]
fn parse_extracts_lowercased_name_and_joined_arguments() {
    let p = parse_command_text("!SR nome da musica").expect("command line must parse");
    assert_eq!(p.name, "!sr");
    assert_eq!(p.arguments, "nome da musica");
}

#[test]
fn parse_rejoins_multiword_arguments_with_single_spaces() {
    let p = parse_command_text("  !sr   nome   da  musica  ").expect("command line must parse");
    assert_eq!(p.arguments, "nome da musica");
}

#[test]
fn parse_lowercases_beyond_ascii() {
    let p = parse_command_text("!Caf\u{C9} x").expect("command line must parse");
    assert_eq!(p.name, "!caf\u{E9}");
}

#[test]
fn parse_ignores_lines_without_marker() {
    assert!(parse_command_text("hello there").is_none());
    assert!(parse_command_text("").is_none());
    assert!(parse_command_text("   ").is_none());
    assert!(parse_command_text("github !github").is_none());
}

#[test]
fn unknown_command_yields_no_reply() {
    let mut reg = default_registry();
    let plan = route_privmsg(&mut reg, "alice", "!doesnotexist", 0);
    assert!(matches!(plan, ReplyPlan::NoReply));
}

#[test]
fn link_command_yields_configured_url() {
    let mut reg = default_registry();
    let plan = route_privmsg(&mut reg, "alice", "!github", 0);
    match plan {
        ReplyPlan::Reply(s) => assert_eq!(s, "https://github.com/vininew921"),
        _ => panic!("expected a direct reply"),
    }
}

#[test]
fn greeting_tags_the_sender() {
    let mut reg = default_registry();
    let plan = route_privmsg(&mut reg, "alice", "!hi", 0);
    match plan {
        ReplyPlan::Reply(s) => assert_eq!(s, "Salve @alice"),
        _ => panic!("expected a direct reply"),
    }
}

#[test]
fn song_request_without_arguments_yields_usage_and_keeps_cooldown_closed() {
    let mut reg = default_registry();
    let plan = route_privmsg(&mut reg, "alice", "!sr", 0);
    match plan {
        ReplyPlan::Reply(s) => assert_eq!(s, "Song request: !sr nome da musica"),
        _ => panic!("expected the usage reply"),
    }
    // The usage path must not have consumed the cooldown: a request with
    // arguments at the same instant still fires.
    let plan2 = route_privmsg(&mut reg, "alice", "!sr nome da musica", 0);
    match plan2 {
        ReplyPlan::ExternalAction { action, query, template } => {
            assert_eq!(action, "play_track");
            assert_eq!(query, "nome da musica");
            assert_eq!(template, "Musica <song> adicionada a fila");
        }
        _ => panic!("expected the external action"),
    }
}

#[test]
fn song_request_respects_cooldown() {
    let mut reg = default_registry();
    let first = route_privmsg(&mut reg, "alice", "!sr song one", 0);
    assert!(matches!(first, ReplyPlan::ExternalAction { .. }));
    let second = route_privmsg(&mut reg, "alice", "!sr song two", 10);
    assert!(matches!(second, ReplyPlan::NoReply));
    let third = route_privmsg(&mut reg, "alice", "!sr song three", 30);
    assert!(matches!(third, ReplyPlan::ExternalAction { .. }));
}

#[test]
fn command_names_are_case_insensitive() {
    let mut reg = default_registry();
    let plan = route_privmsg(&mut reg, "alice", "!GitHub", 0);
    match plan {
        ReplyPlan::Reply(s) => assert_eq!(s, "https://github.com/vininew921"),
        _ => panic!("expected a direct reply"),
    }
}

#[test]
fn found_track_is_substituted_into_template() {
    let out = finish_external_action(
        "Musica <song> adicionada a fila",
        &SearchOutcome::Found("Song A - Artist B".to_string()),
    );
    assert_eq!(out, Some("Musica Song A - Artist B adicionada a fila".to_string()));
}

#[test]
fn empty_and_failed_searches_stay_silent() {
    assert_eq!(finish_external_action("t <song>", &SearchOutcome::NoResults), None);
    assert_eq!(finish_external_action("t <song>", &SearchOutcome::SearchFailed), None);
}
