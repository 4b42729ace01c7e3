use happye_bot::commands::{default_registry, get_command, Command, CommandRegistry};

fn plain_command(name: &str, cooldown: u32) -> Command {
    Command::new(
        name.to_string(),
        "reply".to_string(),
        cooldown,
        String::new(),
        false,
        false,
        None,
    )
}

#[test]
fn cooldown_blocks_within_window_and_reopens_after() {
    let mut reg = CommandRegistry::new();
    reg.register(plain_command("!x", 10));

    // First lookup at t = 100 fires.
    let first = reg.lookup_at("!x", true, 100);
    assert!(first.is_some());
    assert_eq!(first.unwrap().last_called, Some(100));

    // Within the window: absent, state untouched.
    assert!(reg.lookup_at("!x", true, 100).is_none());
    assert!(reg.lookup_at("!x", true, 105).is_none());
    assert!(reg.lookup_at("!x", true, 109).is_none());
    assert_eq!(reg.commands[0].last_called, Some(100));

    // At exactly t + 10 the command fires again and the window restarts.
    let again = reg.lookup_at("!x", true, 110);
    assert!(again.is_some());
    assert_eq!(again.unwrap().last_called, Some(110));
    assert!(reg.lookup_at("!x", true, 119).is_none());
}

#[test]
fn zero_cooldown_always_fires() {
    let mut reg = CommandRegistry::new();
    reg.register(plain_command("!x", 0));
    for _ in 0..5 {
        assert!(reg.lookup_at("!x", true, 42).is_some());
    }
    assert!(reg.lookup_at("!x", true, 41).is_some());
}

#[test]
fn usage_lookup_bypasses_cooldown_and_never_mutates() {
    let mut reg = CommandRegistry::new();
    reg.register(Command::new(
        "!sr".to_string(),
        "reply".to_string(),
        30,
        "usage text".to_string(),
        false,
        true,
        Some("play_track".to_string()),
    ));
    for t in [5i64, 5, 6, 7] {
        let c = reg.lookup_at("!sr", false, t).expect("usage lookup must return the command");
        assert_eq!(c.usage, "usage text");
        assert_eq!(c.last_called, None);
    }
    assert_eq!(reg.commands[0].last_called, None);
}

#[test]
fn simultaneous_lookups_yield_exactly_one_hit() {
    let mut reg = CommandRegistry::new();
    reg.register(plain_command("!x", 5));
    let mut hits = 0;
    for _ in 0..8 {
        if reg.lookup_at("!x", true, 0).is_some() {
            hits += 1;
        }
    }
    assert_eq!(hits, 1);
}

#[test]
fn unknown_command_is_silent() {
    let mut reg = default_registry();
    assert!(reg.lookup_at("!doesnotexist", false, 0).is_none());
    assert!(reg.lookup_at("github", false, 0).is_none());
}

#[test]
fn default_registry_contents() {
    let reg = default_registry();
    assert_eq!(reg.commands.len(), 3);
    assert_eq!(reg.commands[0].name, "!hi");
    assert_eq!(reg.commands[0].response, "Salve @<user>");
    assert!(reg.commands[0].requires_tag);
    assert_eq!(reg.commands[1].name, "!github");
    assert_eq!(reg.commands[1].response, "https://github.com/vininew921");
    assert_eq!(reg.commands[1].timeout_seconds, 60);
    assert_eq!(reg.commands[2].name, "!sr");
    assert_eq!(reg.commands[2].response, "Musica <song> adicionada a fila");
    assert_eq!(reg.commands[2].usage, "Song request: !sr nome da musica");
    assert!(reg.commands[2].requires_arguments);
    assert_eq!(reg.commands[2].api_call, Some("play_track".to_string()));
    assert_eq!(reg.commands[2].timeout_seconds, 30);
}

#[test]
fn get_command_uses_wall_clock() {
    let mut reg = default_registry();
    let c = get_command(&mut reg, "!github".to_string(), false).expect("first lookup must fire");
    assert_eq!(c.response, "https://github.com/vininew921");
    assert!(c.last_called.is_some());
    // Immediately again: the 60 s cooldown has certainly not elapsed.
    assert!(get_command(&mut reg, "!github".to_string(), false).is_none());
}

#[test]
fn update_last_called_stamps() {
    let mut c = plain_command("!x", 1);
    assert_eq!(c.last_called, None);
    c.update_last_called();
    assert!(c.last_called.is_some());
}
