use p2p_node_handshake::config::{argument_to_number, parse_usize_bytes, Config, ConfigError};

fn strings(items: &[&str]) -> Vec<String> {
    items.iter().map(|s| s.to_string()).collect()
}

#[test]
fn build_splits_command_and_arguments() {
    let config = Config::build(strings(&["prog", "-hbi", "0", "1"])).unwrap();
    assert_eq!(config.command, "-hbi");
    assert_eq!(config.arguments, strings(&["0", "1"]));
}

#[test]
fn build_with_command_only_has_no_arguments() {
    let config = Config::build(strings(&["prog", "-l"])).unwrap();
    assert_eq!(config.command, "-l");
    assert!(config.arguments.is_empty());
}

#[test]
fn build_without_a_command_fails() {
    assert!(matches!(Config::build(strings(&["prog"])), Err(ConfigError)));
    assert!(matches!(Config::build(strings(&[])), Err(ConfigError)));
}

#[test]
fn numbers_parse_exactly() {
    assert_eq!(parse_usize_bytes(b"0"), Some(0));
    assert_eq!(parse_usize_bytes(b"42"), Some(42));
    assert_eq!(parse_usize_bytes(b"007"), Some(7));
    assert_eq!(
        parse_usize_bytes(b"18446744073709551615"),
        Some(18446744073709551615)
    );
}

#[test]
fn malformed_numbers_are_rejected() {
    assert_eq!(parse_usize_bytes(b""), None);
    assert_eq!(parse_usize_bytes(b"12a"), None);
    assert_eq!(parse_usize_bytes(b"-1"), None);
    assert_eq!(parse_usize_bytes(b" 1"), None);
    // One past usize::MAX on 64-bit machines.
    assert_eq!(parse_usize_bytes(b"18446744073709551616"), None);
}

#[test]
fn argument_to_number_reads_the_indexed_argument() {
    let args = strings(&["3", "17"]);
    assert_eq!(argument_to_number(&args, 0), Ok(3));
    assert_eq!(argument_to_number(&args, 1), Ok(17));
}

#[test]
fn argument_to_number_fails_on_missing_or_non_numeric_arguments() {
    let args = strings(&["x", "9"]);
    assert_eq!(argument_to_number(&args, 0), Err(ConfigError));
    assert_eq!(argument_to_number(&args, 2), Err(ConfigError));
}
