use repo_mirror::config::{parse_config, parse_document, ParseError};
use repo_mirror::yaml::{YamlEntry, YamlNode};

fn str_node(s: &str) -> YamlNode {
    YamlNode::Str(s.to_owned())
}

fn entry_node(pairs: &[(&str, &str)]) -> YamlNode {
    YamlNode::Mapping(
        pairs
            .iter()
            .map(|(k, v)| YamlEntry { key: str_node(k), value: str_node(v) })
            .collect(),
    )
}

fn doc_node(entries: Vec<YamlNode>) -> YamlNode {
    YamlNode::Mapping(vec![YamlEntry {
        key: str_node("mirrors"),
        value: YamlNode::List(entries),
    }])
}

#[test]
fn test_parser_valid() {
    let yaml = r#"
mirrors:
  - from: "https://github.com/example/from1.git"
    to: "https://github.com/example/to1.git"
  - from: "https://github.com/example/from2.git"
    to: "https://github.com/example/to2.git"
"#;

    let parsed_config = parse_config(yaml).expect("Failed to parse YAML");

    assert_eq!(
        parsed_config.mirrors[0].from,
        "https://github.com/example/from1.git"
    );
    assert_eq!(
        parsed_config.mirrors[0].to,
        "https://github.com/example/to1.git"
    );
    assert_eq!(
        parsed_config.mirrors[1].from,
        "https://github.com/example/from2.git"
    );
    assert_eq!(
        parsed_config.mirrors[1].to,
        "https://github.com/example/to2.git"
    );
}

#[test]
fn test_parser_invalid() {
    let yaml = r#"
mirrors:
  - from: "https://github.com/example/repo1.git"
"#;

    let parsed_config = parse_config(yaml);
    assert!(parsed_config.is_err());
}

#[test]
fn valid_document_yields_one_spec_per_entry_in_order() {
    let yaml = "mirrors:\n  - from: a1\n    to: b1\n  - from: a2\n    to: b2\n  - from: a3\n    to: b3\n";
    let config = parse_config(yaml).unwrap();
    assert_eq!(config.mirrors.len(), 3);
    let pairs: Vec<(&str, &str)> = config
        .mirrors
        .iter()
        .map(|m| (m.from.as_str(), m.to.as_str()))
        .collect();
    assert_eq!(pairs, vec![("a1", "b1"), ("a2", "b2"), ("a3", "b3")]);
}

#[test]
fn empty_mirrors_list_parses_to_zero_specs() {
    let config = parse_config("mirrors: []\n").unwrap();
    assert_eq!(config.mirrors.len(), 0);
}

#[test]
fn duplicate_entries_are_kept_and_ordered() {
    let yaml = "mirrors:\n  - from: A1\n    to: B1\n  - from: A2\n    to: B2\n  - from: A1\n    to: B1\n";
    let config = parse_config(yaml).unwrap();
    assert_eq!(config.mirrors.len(), 3);
    assert_eq!(config.mirrors[0].from, "A1");
    assert_eq!(config.mirrors[0].to, "B1");
    assert_eq!(config.mirrors[1].from, "A2");
    assert_eq!(config.mirrors[1].to, "B2");
    assert_eq!(config.mirrors[2].from, "A1");
    assert_eq!(config.mirrors[2].to, "B1");
}

#[test]
fn entry_missing_to_fails_whole_parse() {
    let yaml = "mirrors:\n  - from: a1\n    to: b1\n  - from: a2\n";
    assert_eq!(parse_config(yaml).unwrap_err(), ParseError::BadEntry);
}

#[test]
fn entry_missing_from_fails_whole_parse() {
    let yaml = "mirrors:\n  - to: b1\n";
    assert_eq!(parse_config(yaml).unwrap_err(), ParseError::BadEntry);
}

#[test]
fn entry_with_non_string_field_fails() {
    let yaml = "mirrors:\n  - from: 7\n    to: b1\n";
    assert_eq!(parse_config(yaml).unwrap_err(), ParseError::BadEntry);
}

#[test]
fn entry_with_extra_keys_is_accepted() {
    let yaml = "mirrors:\n  - from: a1\n    to: b1\n    note: spare\n";
    let config = parse_config(yaml).unwrap();
    assert_eq!(config.mirrors.len(), 1);
    assert_eq!(config.mirrors[0].from, "a1");
    assert_eq!(config.mirrors[0].to, "b1");
}

#[test]
fn document_without_mirrors_key_fails() {
    assert_eq!(
        parse_config("other: 1\n").unwrap_err(),
        ParseError::MissingMirrors
    );
}

#[test]
fn document_that_is_not_a_mapping_fails() {
    assert_eq!(
        parse_config("- just\n- a\n- list\n").unwrap_err(),
        ParseError::MissingMirrors
    );
}

#[test]
fn mirrors_value_that_is_not_a_list_fails() {
    assert_eq!(
        parse_config("mirrors: yes\n").unwrap_err(),
        ParseError::MirrorsNotList
    );
}

#[test]
fn text_that_is_not_yaml_fails() {
    assert_eq!(
        parse_config("mirrors: [unclosed\n").unwrap_err(),
        ParseError::Syntax
    );
}

#[test]
fn document_tree_parses_without_going_through_text() {
    let doc = doc_node(vec![
        entry_node(&[("from", "x"), ("to", "y")]),
        entry_node(&[("to", "q"), ("from", "p")]),
    ]);
    let config = parse_document(&doc).unwrap();
    assert_eq!(config.mirrors.len(), 2);
    assert_eq!(config.mirrors[0].from, "x");
    assert_eq!(config.mirrors[0].to, "y");
    assert_eq!(config.mirrors[1].from, "p");
    assert_eq!(config.mirrors[1].to, "q");
}

#[test]
fn document_tree_with_bad_entry_fails() {
    let doc = doc_node(vec![
        entry_node(&[("from", "x"), ("to", "y")]),
        YamlNode::Other,
    ]);
    assert_eq!(parse_document(&doc).unwrap_err(), ParseError::BadEntry);
}
