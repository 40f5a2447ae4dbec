use t9s::input::commands::{commands, commands_with_prefix, matching_commands};

#[test]
fn test_matching_commands() {
    assert_eq!(matching_commands("w").len(), 1);
    assert_eq!(matching_commands("w")[0].name, "workflows");

    assert_eq!(matching_commands("wf").len(), 1);
    assert_eq!(matching_commands("wf")[0].name, "workflows");

    assert_eq!(matching_commands("s").len(), 2); // schedules + signal
    assert_eq!(matching_commands("sch").len(), 1);
    assert_eq!(matching_commands("sch")[0].name, "schedules");

    assert_eq!(matching_commands("sig").len(), 1);
    assert_eq!(matching_commands("sig")[0].name, "signal");

    assert_eq!(matching_commands("q").len(), 1);
    assert_eq!(matching_commands("q")[0].name, "quit");

    assert!(matching_commands("xyz").is_empty());
}

#[test]
fn matching_commands_ignores_case() {
    let found = matching_commands("NaM");
    assert_eq!(found.len(), 1);
    assert_eq!(found[0].name, "namespace");
    assert_eq!(found[0].aliases, vec!["ns"]);
    assert_eq!(found[0].description, "Switch namespace (e.g. :ns production)");
    assert!(commands_with_prefix("NaM").is_empty());
}

#[test]
fn empty_prefix_matches_every_command_in_order() {
    let all = matching_commands("");
    assert_eq!(all, commands());
    let names: Vec<&str> = all.iter().map(|c| c.name).collect();
    assert_eq!(
        names,
        vec!["workflows", "schedules", "namespace", "signal", "quit", "help"]
    );
}

#[test]
fn prefix_longer_than_name_does_not_match() {
    assert!(commands_with_prefix("quitx").is_empty());
    assert_eq!(commands_with_prefix("h").len(), 1);
    assert_eq!(commands_with_prefix("h")[0].name, "help");
    assert_eq!(commands_with_prefix("n").len(), 1);
}
