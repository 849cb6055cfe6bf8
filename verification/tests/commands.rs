use modelnet::command::{parse_command, parse_models_command, starts_with, strip_prefix, Command};

#[test]
fn ls_p_lists_the_peers() {
    assert!(matches!(parse_command("ls p"), Command::ListPeers));
    assert!(matches!(parse_command("ls p "), Command::Unknown));
    assert!(matches!(parse_command(" ls p"), Command::Unknown));
}

#[test]
fn ls_r_all_asks_every_node() {
    assert!(matches!(parse_command("ls r all"), Command::BroadcastAll));
}

#[test]
fn ls_r_with_an_argument_broadcasts_it() {
    for argument in ["", "all ", " all", "ALL", "{\"power\":1}", "\u{e9}t\u{e9} \u{1f980}"] {
        match parse_command(&format!("ls r {}", argument)) {
            Command::BroadcastSpecs(specs) => assert_eq!(specs, argument),
            other => panic!("{:?}", other),
        }
    }
}

#[test]
fn ls_r_alone_lists_the_models() {
    assert!(matches!(parse_command("ls r"), Command::ListModels));
    assert!(matches!(parse_command("ls rall"), Command::ListModels));
    assert!(matches!(parse_models_command("anything"), Command::ListModels));
}

#[test]
fn other_lines_are_unknown() {
    for line in ["", "l", "ls", "ls ", "ls x", "LS P", "\u{1f980}"] {
        assert!(matches!(parse_command(line), Command::Unknown));
    }
}

#[test]
fn prefixes() {
    assert!(starts_with("abc", ""));
    assert!(starts_with("abc", "abc"));
    assert!(!starts_with("abc", "abcd"));
    assert_eq!(strip_prefix("\u{e9}t\u{e9}", "\u{e9}"), Some("t\u{e9}"));
    assert_eq!(strip_prefix("abc", "b"), None);
    assert_eq!(strip_prefix("abc", "abc"), Some(""));
}
