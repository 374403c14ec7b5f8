use rush::config::{
    generate_prompt, get_separator, get_token, parse_config_file, prettify_cwd, ConfValues,
};
use rush::initialize;
use rush::outputhandler::OutputHandler;

#[test]
fn default_prompt_assembles_all_parts() {
    let mut config = initialize();
    config.update_user("alice");
    config.update_host("box");
    config.update_cwd("/home/a");
    assert_eq!(config.prompt(), "alice@box>/home/a!");
}

#[test]
fn disabled_user_part_is_skipped() {
    let mut config = parse_config_file("user=false");
    config.update_user("alice");
    config.update_host("h");
    config.update_cwd("/c");
    // a file that names no separators leaves every element at the default
    // user-host separator
    assert_eq!(config.prompt(), "@h@/c@");
}

#[test]
fn conf_values_new_is_enabled_blank() {
    let v = ConfValues::new();
    assert!(v.enabled);
    assert_eq!(v.value, ' ');
}

#[test]
fn generate_prompt_matches_prompt_field() {
    let mut config = initialize();
    config.update_user("u");
    let p = generate_prompt(&config);
    assert_eq!(p.as_str(), config.prompt());
}

#[test]
fn get_token_reads_the_configured_character() {
    assert_eq!(get_token("separator1=#", "separator1="), (true, Some('#')));
    assert_eq!(get_token("separator1=false", "separator1="), (false, None));
    assert_eq!(get_token("nothing here", "separator1="), (true, None));
    assert_eq!(get_token("ends with separator1=", "separator1="), (true, None));
}

#[test]
fn get_separator_defaults_when_unset() {
    let v = get_separator("irrelevant", "separator1");
    assert!(v.enabled);
    assert_eq!(v.value, '@');
    let w = get_separator("separator2=+", "separator2");
    assert!(w.enabled);
    assert_eq!(w.value, '+');
    let d = get_separator("end=false", "end");
    assert!(!d.enabled);
    assert_eq!(d.value, '@');
}

#[test]
fn parse_config_file_reads_part_switches() {
    let mut config = parse_config_file("host=false\ncwd=false");
    config.update_user("me");
    config.update_host("ignored");
    config.update_cwd("/ignored");
    assert_eq!(config.prompt(), "me@@@");
}

#[test]
fn prettify_cwd_abbreviates_home() {
    assert_eq!(prettify_cwd("/home/u/x", "/home/u"), "~/x");
    assert_eq!(prettify_cwd("/home/u", "/home/u"), "~");
    assert_eq!(prettify_cwd("/elsewhere", "/home/u"), "/elsewhere");
    assert_eq!(prettify_cwd("/home/utmost", "/home/u"), "/home/utmost");
}

#[test]
fn output_handler_accumulates_and_clears() {
    let mut oh = OutputHandler::new();
    assert_eq!(oh.stdout(), "");
    assert_eq!(oh.stderr(), "");
    oh.add_stdout("O".to_string());
    oh.add_stderr("E".to_string());
    assert_eq!(oh.stdout(), "\nO");
    assert_eq!(oh.stderr(), "\nE");
    oh.add_stdout_str("P");
    assert_eq!(oh.stdout(), "\nO\nP");
    assert_eq!(oh.display(), "\nE\n\nO\nP\n");
    oh.clear_stdout();
    assert_eq!(oh.stdout(), "");
    assert_eq!(oh.stderr(), "\nE");
    oh.add_stderr_str("F");
    assert_eq!(oh.stderr(), "\nE\nF");
    oh.clear();
    assert_eq!(oh.stdout(), "");
    assert_eq!(oh.stderr(), "");
}
