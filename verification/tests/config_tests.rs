use gitsy::config::{parse_config, ConfigError, GitsyConfig};
use gitsy::editor::InputBuffer;
use gitsy::state::{handle_setup_key, Key};

#[test]
fn render_writes_one_quoted_assignment_line() {
    let c = GitsyConfig::new("worktrees".to_string());
    assert_eq!(c.render(), "worktree_path = \"worktrees\"\n");
}

#[test]
fn setup_input_round_trips_through_the_document() {
    // The setup flow types the path, the document is rendered as it would
    // be persisted, and a later parse reads back the same value.
    let mut field = InputBuffer::new();
    for c in "worktrees".chars() {
        let done = handle_setup_key(&mut field, Key::Char(c));
        assert!(!done);
    }
    assert!(handle_setup_key(&mut field, Key::Enter));
    let typed = field.text_string();
    assert_eq!(typed, "worktrees");

    let config = GitsyConfig::new(typed);
    let document = config.render();
    let reread = parse_config(&document).expect("rendered document must parse");
    assert_eq!(reread.worktree_path, "worktrees");
}

#[test]
fn parse_accepts_surrounding_lines_and_comments() {
    let text = "# managed worktrees\n\nworktree_path = \"wt\"\n# trailing note\n";
    let c = parse_config(text).expect("document with the key must parse");
    assert_eq!(c.worktree_path, "wt");
}

#[test]
fn parse_accepts_spacing_variations() {
    let c = parse_config("worktree_path=\"a/b\"").expect("tight spacing");
    assert_eq!(c.worktree_path, "a/b");
    let c = parse_config("worktree_path   =   \"a b\"   \n").expect("wide spacing");
    assert_eq!(c.worktree_path, "a b");
}

#[test]
fn parse_without_the_key_misses_the_field() {
    assert_eq!(parse_config(""), Err(ConfigError::MissingField));
    assert_eq!(
        parse_config("other_key = \"x\"\n"),
        Err(ConfigError::MissingField)
    );
}

#[test]
fn parse_rejects_unquoted_or_unterminated_values() {
    assert_eq!(
        parse_config("worktree_path = worktrees\n"),
        Err(ConfigError::MalformedDocument)
    );
    assert_eq!(
        parse_config("worktree_path = \"worktrees\n"),
        Err(ConfigError::MalformedDocument)
    );
    assert_eq!(
        parse_config("worktree_path = \"worktrees\" tail\n"),
        Err(ConfigError::MalformedDocument)
    );
}

#[test]
fn quotable_paths_round_trip_through_the_document() {
    let paths = [
        "a\"b",
        "a\\b",
        "a\nb",
        "a\rb",
        "trees/\"deep\"\\mixed\npath",
    ];
    for path in paths {
        let c = GitsyConfig::new(path.to_string());
        let doc = c.render();
        let back = parse_config(&doc).expect("rendered document must parse");
        assert_eq!(back.worktree_path, path);
    }
}

#[test]
fn render_escapes_quote_backslash_and_newline() {
    let c = GitsyConfig::new("a\"b\\c\nd".to_string());
    assert_eq!(c.render(), "worktree_path = \"a\\\"b\\\\c\\nd\"\n");
}

#[test]
fn parse_unescapes_quoted_value() {
    let c = parse_config("worktree_path = \"a\\\"b\\\\c\\nd\"\n").unwrap();
    assert_eq!(c.worktree_path, "a\"b\\c\nd");
}

#[test]
fn parse_rejects_unknown_escape() {
    assert_eq!(
        parse_config("worktree_path = \"a\\qb\"\n"),
        Err(ConfigError::MalformedDocument)
    );
    assert_eq!(
        parse_config("worktree_path = \"a\\\"\n"),
        Err(ConfigError::MalformedDocument)
    );
}
