use pong_core::config::Config;

fn args(words: &[&str]) -> Vec<String> {
    words.iter().map(|w| w.to_string()).collect()
}

#[test]
fn two_arguments_are_read_in_order() {
    let c = Config::parse_command_line(&args(&["minigrep", "needle", "poem.txt"])).unwrap();
    assert_eq!(c.query(), "needle");
    assert_eq!(c.filename(), "poem.txt");
}

#[test]
fn further_arguments_are_ignored() {
    let c = Config::parse_command_line(&args(&["minigrep", "a", "b", "c", "d"])).unwrap();
    assert_eq!(c.query(), "a");
    assert_eq!(c.filename(), "b");
}

#[test]
fn missing_file_argument_is_an_error() {
    let r = Config::parse_command_line(&args(&["minigrep", "needle"]));
    assert_eq!(r.err(), Some("Not enough arguments"));
}

#[test]
fn no_arguments_is_an_error() {
    assert_eq!(Config::parse_command_line(&args(&["minigrep"])).err(), Some("Not enough arguments"));
    assert_eq!(Config::parse_command_line(&args(&[])).err(), Some("Not enough arguments"));
}

#[test]
fn empty_arguments_are_kept() {
    let c = Config::parse_command_line(&args(&["", "", ""])).unwrap();
    assert_eq!(c.query(), "");
    assert_eq!(c.filename(), "");
}
