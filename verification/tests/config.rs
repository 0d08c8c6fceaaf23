use cmdntfy::config::{resolve, ConfigError, NtfyConfig};

fn words(items: &[&str]) -> Vec<String> {
    items.iter().map(|s| s.to_string()).collect()
}

fn text(s: &str) -> Option<String> {
    Some(s.to_string())
}

fn expect_config(res: Result<NtfyConfig, ConfigError>) -> NtfyConfig {
    match res {
        Ok(c) => c,
        Err(e) => panic!("no configuration: {:?}", e),
    }
}

fn expect_error(res: Result<NtfyConfig, ConfigError>) -> ConfigError {
    match res {
        Ok(_) => panic!("a configuration was made"),
        Err(e) => e,
    }
}

#[test]
fn flag_is_preferred_to_environment() {
    let c = expect_config(resolve(
        text("https://flag/topic"),
        text("https://env/topic"),
        text("flag-token"),
        text("env-token"),
        words(&["ls", "-l"]),
    ));
    assert_eq!(c.url, "https://flag/topic");
    assert_eq!(c.token, text("flag-token"));
    assert_eq!(c.cmd_args, words(&["ls", "-l"]));
}

#[test]
fn environment_is_the_fallback() {
    let c = expect_config(resolve(
        None,
        text("https://env/topic"),
        None,
        text("env-token"),
        words(&["true"]),
    ));
    assert_eq!(c.url, "https://env/topic");
    assert_eq!(c.token, text("env-token"));
    assert_eq!(c.cmd_args, words(&["true"]));
}

#[test]
fn sources_are_resolved_independently() {
    let c = expect_config(resolve(
        text("https://flag/topic"),
        None,
        None,
        text("env-token"),
        words(&["true"]),
    ));
    assert_eq!(c.url, "https://flag/topic");
    assert_eq!(c.token, text("env-token"));
}

#[test]
fn token_may_be_absent() {
    let c = expect_config(resolve(text("https://flag/topic"), None, None, None, words(&["true"])));
    assert_eq!(c.token, None);
}

#[test]
fn missing_url_is_refused() {
    let e = expect_error(resolve(None, None, text("t"), text("u"), words(&["true"])));
    assert_eq!(e, ConfigError::MissingUrl);
    assert_eq!(
        e.message(),
        "no url provided (either via environment variable or argument)"
    );
}

#[test]
fn missing_command_is_refused_first() {
    let e = expect_error(resolve(None, None, None, None, Vec::new()));
    assert_eq!(e, ConfigError::MissingCommand);
    let e = expect_error(resolve(text("https://flag/topic"), None, None, None, Vec::new()));
    assert_eq!(e, ConfigError::MissingCommand);
    assert_eq!(e.message(), "no command provided");
}

#[test]
fn program_is_the_first_word() {
    let c = NtfyConfig {
        url: "https://ntfy/topic".to_string(),
        token: None,
        cmd_args: words(&["make", "-j", "4"]),
    };
    assert_eq!(c.program(), "make");
}
