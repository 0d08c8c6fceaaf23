use cmdntfy::config::NtfyConfig;
use cmdntfy::notify::Request;
use cmdntfy::runner::{run, Action, Event, Failure, State, Step};

fn config(token: Option<&str>, program: &str) -> NtfyConfig {
    NtfyConfig {
        url: "https://ntfy.example/topic".to_string(),
        token: token.map(|t| t.to_string()),
        cmd_args: vec![program.to_string()],
    }
}

fn exited(stdout: &[u8], stderr: &[u8], code: Option<i32>) -> Event {
    Event::Exited { stdout: stdout.to_vec(), stderr: stderr.to_vec(), code }
}

fn posted(step: Step) -> Request {
    match step.action {
        Action::Post(r) => r,
        _ => panic!("nothing was posted"),
    }
}

fn value_of(request: &Request, name: &str) -> Option<String> {
    request.headers.get(name).map(|value| value.to_str().unwrap().to_string())
}

fn kind(action: &Action) -> &'static str {
    match action {
        Action::Spawn => "spawn",
        Action::Wait => "wait",
        Action::Post(_) => "post",
        Action::Succeed => "succeed",
        Action::Fail(Failure::Spawn) => "fail: spawn",
        Action::Fail(Failure::Wait) => "fail: wait",
        Action::Fail(Failure::Notification) => "fail: notification",
        Action::Ignore => "ignore",
    }
}

fn walk(config: &NtfyConfig, events: Vec<Event>) -> (State, Vec<&'static str>) {
    let mut state = State::Idle;
    let mut actions = Vec::new();
    for event in events {
        let step = run(config, state, event);
        state = step.state;
        actions.push(kind(&step.action));
    }
    (state, actions)
}

#[test]
fn exit_zero_is_summarised_as_success() {
    let step = run(&config(None, "job"), State::Running, exited(b"OUT", b"ERR", Some(0)));
    assert_eq!(step.state, State::Summarising);
    let r = posted(step);
    assert_eq!(r.url, "https://ntfy.example/topic");
    assert_eq!(r.body, "stdout:\n\n```\nOUT\n```\n\nstderr:\n\n```\nERR\n```");
    assert_eq!(value_of(&r, "X-Markdown"), Some("yes".to_string()));
    assert_eq!(value_of(&r, "X-Title"), Some("Executing command job".to_string()));
    assert_eq!(value_of(&r, "X-Priority"), Some("low".to_string()));
    assert_eq!(value_of(&r, "X-Tags"), Some("heavy_check_mark".to_string()));
    assert_eq!(value_of(&r, "Authorization"), None);
}

#[test]
fn other_exit_code_is_summarised_as_failure() {
    let step = run(&config(Some("tk"), "job"), State::Running, exited(b"", b"boom\n", Some(1)));
    assert_eq!(step.state, State::Summarising);
    let r = posted(step);
    assert_eq!(r.body, "stdout:\n\n```\n\n```\n\nstderr:\n\n```\nboom\n\n```");
    assert_eq!(value_of(&r, "X-Priority"), Some("high".to_string()));
    assert_eq!(value_of(&r, "X-Tags"), Some("rotating_light".to_string()));
    assert_eq!(value_of(&r, "Authorization"), Some("Bearer tk".to_string()));
}

#[test]
fn killed_command_is_summarised_as_failure() {
    let r = posted(run(&config(None, "job"), State::Running, exited(b"", b"", None)));
    assert_eq!(value_of(&r, "X-Priority"), Some("high".to_string()));
    assert_eq!(value_of(&r, "X-Tags"), Some("rotating_light".to_string()));
}

#[test]
fn invalid_bytes_are_replaced() {
    let step = run(
        &config(None, "job"),
        State::Running,
        exited(b"a\xffb", b"\xc3(\xe2\x82", Some(0)),
    );
    assert_eq!(step.state, State::Summarising);
    let r = posted(step);
    assert_eq!(
        r.body,
        "stdout:\n\n```\na\u{fffd}b\n```\n\nstderr:\n\n```\n\u{fffd}(\u{fffd}\n```"
    );
    let again = posted(run(
        &config(None, "job"),
        State::Running,
        exited(b"a\xffb", b"\xc3(\xe2\x82", Some(0)),
    ));
    assert_eq!(again.body, r.body);
}

#[test]
fn valid_text_is_kept() {
    let r = posted(run(
        &config(None, "job"),
        State::Running,
        exited("gr\u{fc}n \u{2713}".as_bytes(), b"", Some(0)),
    ));
    assert_eq!(r.body, "stdout:\n\n```\ngr\u{fc}n \u{2713}\n```\n\nstderr:\n\n```\n\n```");
}

#[test]
fn successful_invocation_posts_once() {
    let (state, actions) = walk(
        &config(None, "job"),
        vec![Event::Start, Event::Spawned, exited(b"OUT", b"ERR", Some(0)), Event::Delivered],
    );
    assert_eq!(state, State::Done);
    assert_eq!(actions, vec!["spawn", "wait", "post", "succeed"]);
}

#[test]
fn failed_command_still_succeeds_once_delivered() {
    let (state, actions) = walk(
        &config(None, "job"),
        vec![Event::Start, Event::Spawned, exited(b"", b"", Some(9)), Event::Delivered],
    );
    assert_eq!(state, State::Done);
    assert_eq!(actions.iter().filter(|a| **a == "post").count(), 1);
}

#[test]
fn undelivered_summary_fails_the_invocation() {
    let (state, actions) = walk(
        &config(None, "job"),
        vec![Event::Start, Event::Spawned, exited(b"", b"", Some(0)), Event::DeliveryFailed],
    );
    assert_eq!(state, State::Aborted(Failure::Notification));
    assert_eq!(actions, vec!["spawn", "wait", "post", "fail: notification"]);
}

#[test]
fn missing_executable_is_alerted_once() {
    let cfg = config(Some("tk"), "/no/such/program");
    let step = run(&cfg, State::Idle, Event::Start);
    assert_eq!(step.state, State::Spawning);
    assert_eq!(kind(&step.action), "spawn");
    let step = run(
        &cfg,
        State::Spawning,
        Event::SpawnFailed { detail: "No such file or directory (os error 2)".to_string() },
    );
    assert_eq!(step.state, State::Alerting(Failure::Spawn));
    let r = posted(step);
    assert_eq!(
        value_of(&r, "X-Title"),
        Some("Failed to spawn process /no/such/program".to_string())
    );
    assert_eq!(value_of(&r, "X-Priority"), Some("high".to_string()));
    assert_eq!(value_of(&r, "X-Tags"), Some("rotating_light".to_string()));
    assert_eq!(value_of(&r, "Authorization"), Some("Bearer tk".to_string()));
    assert_eq!(r.body, "Error:\n No such file or directory (os error 2)");
    let step = run(&cfg, State::Alerting(Failure::Spawn), Event::Delivered);
    assert_eq!(step.state, State::Aborted(Failure::Spawn));
    assert_eq!(kind(&step.action), "fail: spawn");
}

#[test]
fn alert_that_is_not_delivered_keeps_the_first_error() {
    let (state, actions) = walk(
        &config(None, "job"),
        vec![
            Event::Start,
            Event::SpawnFailed { detail: "denied".to_string() },
            Event::DeliveryFailed,
        ],
    );
    assert_eq!(state, State::Aborted(Failure::Spawn));
    assert_eq!(actions, vec!["spawn", "post", "fail: spawn"]);
}

#[test]
fn wait_failure_is_alerted_once() {
    let cfg = config(None, "job");
    let step = run(&cfg, State::Running, Event::WaitFailed { detail: "lost".to_string() });
    assert_eq!(step.state, State::Alerting(Failure::Wait));
    let r = posted(step);
    assert_eq!(value_of(&r, "X-Title"), Some("failed to wait on job".to_string()));
    assert_eq!(r.body, "Error:\n lost");
    let (state, actions) = walk(
        &cfg,
        vec![
            Event::Start,
            Event::Spawned,
            Event::WaitFailed { detail: "lost".to_string() },
            Event::Delivered,
        ],
    );
    assert_eq!(state, State::Aborted(Failure::Wait));
    assert_eq!(actions, vec!["spawn", "wait", "post", "fail: wait"]);
}

#[test]
fn undeliverable_configuration_posts_nothing() {
    let cfg = config(None, "bad\nname");
    let (state, actions) = walk(
        &cfg,
        vec![Event::Start, Event::Spawned, exited(b"OUT", b"", Some(0))],
    );
    assert_eq!(state, State::Aborted(Failure::Notification));
    assert_eq!(actions, vec!["spawn", "wait", "fail: notification"]);
    let (state, actions) = walk(
        &cfg,
        vec![Event::Start, Event::SpawnFailed { detail: "gone".to_string() }],
    );
    assert_eq!(state, State::Aborted(Failure::Spawn));
    assert_eq!(actions, vec!["spawn", "fail: spawn"]);
    let (state, _) = walk(
        &config(Some("bad\ntoken"), "job"),
        vec![Event::Start, Event::Spawned, Event::WaitFailed { detail: "lost".to_string() }],
    );
    assert_eq!(state, State::Aborted(Failure::Wait));
}

#[test]
fn events_out_of_turn_are_ignored() {
    let cfg = config(None, "job");
    let step = run(&cfg, State::Idle, Event::Delivered);
    assert_eq!(step.state, State::Idle);
    assert_eq!(kind(&step.action), "ignore");
    let step = run(&cfg, State::Spawning, exited(b"", b"", Some(0)));
    assert_eq!(step.state, State::Spawning);
    assert_eq!(kind(&step.action), "ignore");
    let step = run(&cfg, State::Summarising, Event::Start);
    assert_eq!(step.state, State::Summarising);
    assert_eq!(kind(&step.action), "ignore");
}

#[test]
fn nothing_follows_the_end() {
    let cfg = config(None, "job");
    let step = run(&cfg, State::Done, Event::Start);
    assert_eq!(step.state, State::Done);
    assert_eq!(kind(&step.action), "ignore");
    let step = run(&cfg, State::Aborted(Failure::Wait), exited(b"", b"", Some(0)));
    assert_eq!(step.state, State::Aborted(Failure::Wait));
    assert_eq!(kind(&step.action), "ignore");
    let step = run(&cfg, State::Alerting(Failure::Spawn), Event::Spawned);
    assert_eq!(step.state, State::Alerting(Failure::Spawn));
    assert_eq!(kind(&step.action), "ignore");
}
