//! What holds of every invocation, proved from the transition function.

use crate::config::{resolved, ConfigError, ConfigView};
use crate::header::{accepted_value, lemma_accepted_concat};
use crate::notify::{
    alert_body, headers_of, lemma_headers_of, notification, spawn_alert_title, summary_body,
    summary_title, wait_alert_title,
};
use crate::runner::{transition, ActionView, EventView, Failure, State};
use crate::text::lossy_text;
use vstd::prelude::*;

verus! {

/// Whether every notification of a configuration can be given its headers:
/// the executable's name and the token are header values.
pub open spec fn deliverable(config: ConfigView) -> bool {
    accepted_value(config.program()) && match config.token {
        Some(t) => accepted_value(t),
        None => true,
    }
}

proof fn lemma_fixed_texts_accepted()
    ensures
        accepted_value("Bearer "@),
        accepted_value("Executing command "@),
        accepted_value("Failed to spawn process "@),
        accepted_value("failed to wait on "@),
{
    reveal_strlit("Bearer ");
    reveal_strlit("Executing command ");
    reveal_strlit("Failed to spawn process ");
    reveal_strlit("failed to wait on ");
}

/// A notification is refused exactly where the title or the token is no
/// header value; the fixed words around them never are the reason.
pub proof fn lemma_notification_made(
    config: ConfigView,
    title: Seq<char>,
    content: Seq<char>,
    success: bool,
)
    ensures
        notification(config, title, content, success) is Ok <==> accepted_value(title) && (
        config.token is Some ==> accepted_value(config.token->0)),
{
    lemma_fixed_texts_accepted();
    if config.token is Some {
        lemma_accepted_concat("Bearer "@, config.token->0);
    }
}

/// With a deliverable configuration the summary and both alerts are made,
/// whatever they report; without one, none is.
pub proof fn lemma_deliverable(config: ConfigView, content: Seq<char>, success: bool)
    requires
        config.wf(),
    ensures
        deliverable(config) <==> notification(
            config,
            summary_title(config.program()),
            content,
            success,
        ) is Ok,
        deliverable(config) <==> notification(
            config,
            spawn_alert_title(config.program()),
            content,
            success,
        ) is Ok,
        deliverable(config) <==> notification(
            config,
            wait_alert_title(config.program()),
            content,
            success,
        ) is Ok,
{
    lemma_fixed_texts_accepted();
    let p = config.program();
    lemma_accepted_concat("Executing command "@, p);
    lemma_accepted_concat("Failed to spawn process "@, p);
    lemma_accepted_concat("failed to wait on "@, p);
    lemma_notification_made(config, summary_title(p), content, success);
    lemma_notification_made(config, spawn_alert_title(p), content, success);
    lemma_notification_made(config, wait_alert_title(p), content, success);
}

/// Without an endpoint, neither in the flag nor in the environment, no
/// configuration is made, whatever else is given: there is nothing to run
/// a command with and nowhere to post to. With an endpoint and a command
/// one always is.
pub proof fn law_endpoint_required(
    url_flag: Option<Seq<char>>,
    url_env: Option<Seq<char>>,
    token_flag: Option<Seq<char>>,
    token_env: Option<Seq<char>>,
    cmd_args: Seq<Seq<char>>,
)
    ensures
        url_flag is None && url_env is None ==> resolved(
            url_flag,
            url_env,
            token_flag,
            token_env,
            cmd_args,
        ) is Err,
        resolved(url_flag, url_env, token_flag, token_env, cmd_args) == Err::<
            ConfigView,
            ConfigError,
        >(ConfigError::MissingUrl) <==> cmd_args.len() > 0 && url_flag is None && url_env is None,
        resolved(url_flag, url_env, token_flag, token_env, cmd_args) is Ok <==> cmd_args.len() > 0
            && (url_flag is Some || url_env is Some),
{
}

/// The state that a sequence of events leads to.
pub open spec fn state_after(config: ConfigView, state: State, events: Seq<EventView>) -> State
    decreases events.len(),
{
    if events.len() == 0 {
        state
    } else {
        state_after(config, transition(config, state, events[0]).state, events.drop_first())
    }
}

/// How many requests are posted along a sequence of events.
pub open spec fn posts_during(config: ConfigView, state: State, events: Seq<EventView>) -> nat
    decreases events.len(),
{
    if events.len() == 0 {
        0
    } else {
        let step = transition(config, state, events[0]);
        let here: nat = if step.action is Post {
            1
        } else {
            0
        };
        here + posts_during(config, step.state, events.drop_first())
    }
}

/// No step leads back: an event that is not ignored takes the invocation to
/// a later stage, an ignored one leaves the state as it is, and nothing
/// follows the end.
pub proof fn law_no_way_back(config: ConfigView, state: State, event: EventView)
    ensures
        ({
            let step = transition(config, state, event);
            &&& step.action is Ignore ==> step.state == state
            &&& !(step.action is Ignore) ==> step.state.stage() > state.stage()
            &&& state.is_final() ==> step.action is Ignore
        }),
{
}

/// A request is posted exactly on the step that begins an alert or the
/// summary, and the invocation ends exactly on a step whose action is to
/// succeed or to fail.
pub proof fn law_post_begins_notifying(config: ConfigView, state: State, event: EventView)
    ensures
        ({
            let step = transition(config, state, event);
            &&& step.action is Post <==> state.stage() < 3 && step.state.stage() == 3
            &&& step.action is Succeed <==> state.stage() < 4 && step.state is Done
            &&& step.action is Fail <==> state.stage() < 4 && step.state is Aborted
            &&& step.action is Fail ==> step.state == State::Aborted(step.action->Fail_0)
        }),
{
}

/// Along any sequence of events at most one request is posted, and none
/// once an alert or the summary has begun. An invocation that ends in
/// success has posted exactly one, and so has one that ends in failure,
/// provided the configuration is deliverable; with one that is not, it has
/// posted none.
pub proof fn law_one_notification(config: ConfigView, state: State, events: Seq<EventView>)
    requires
        config.wf(),
    ensures
        posts_during(config, state, events) <= 1,
        state.stage() >= 3 ==> posts_during(config, state, events) == 0,
        state.stage() < 3 && state_after(config, state, events) is Done ==> posts_during(
            config,
            state,
            events,
        ) == 1,
        state.stage() < 3 && state_after(config, state, events).is_final() ==> (posts_during(
            config,
            state,
            events,
        ) == 1 <==> deliverable(config)),
    decreases events.len(),
{
    if events.len() > 0 {
        let step = transition(config, state, events[0]);
        law_no_way_back(config, state, events[0]);
        law_post_begins_notifying(config, state, events[0]);
        law_one_notification(config, step.state, events.drop_first());
        lemma_no_return(config, step.state, events.drop_first());
        match events[0] {
            EventView::SpawnFailed { detail } => {
                lemma_deliverable(config, alert_body(detail), false);
            },
            EventView::WaitFailed { detail } => {
                lemma_deliverable(config, alert_body(detail), false);
            },
            EventView::Exited { stdout, stderr, code } => {
                lemma_deliverable(
                    config,
                    summary_body(lossy_text(stdout), lossy_text(stderr)),
                    crate::text::reported_code(code) == 0,
                );
            },
            _ => {},
        }
    }
}

/// No sequence of events leads to an earlier stage. An invocation that has
/// ended stays as it is, and from an alert the only way on is to fail with
/// the error that the alert is about.
pub proof fn lemma_no_return(config: ConfigView, state: State, events: Seq<EventView>)
    ensures
        state.is_final() ==> state_after(config, state, events) == state,
        state_after(config, state, events).stage() >= state.stage(),
        state is Alerting ==> state_after(config, state, events) == state || state_after(
            config,
            state,
            events,
        ) == State::Aborted(state->Alerting_0),
    decreases events.len(),
{
    if events.len() > 0 {
        law_no_way_back(config, state, events[0]);
        lemma_no_return(config, transition(config, state, events[0]).state, events.drop_first());
    }
}

/// An invocation whose command could be run takes four steps, whatever the
/// command printed and however it ended: it is started, waited for and
/// summarised, and the delivery of the summary decides. With a deliverable
/// configuration exactly one request is posted on the way.
pub proof fn law_course_of_a_run(
    config: ConfigView,
    stdout: Seq<u8>,
    stderr: Seq<u8>,
    code: Option<i32>,
    delivered: bool,
)
    requires
        config.wf(),
        deliverable(config),
    ensures
        ({
            let events = seq![
                EventView::Start,
                EventView::Spawned,
                EventView::Exited { stdout, stderr, code },
                if delivered {
                    EventView::Delivered
                } else {
                    EventView::DeliveryFailed
                },
            ];
            &&& posts_during(config, State::Idle, events) == 1
            &&& state_after(config, State::Idle, events) == if delivered {
                State::Done
            } else {
                State::Aborted(Failure::Notification)
            }
        }),
{
    let last = if delivered {
        EventView::Delivered
    } else {
        EventView::DeliveryFailed
    };
    let exited = EventView::Exited { stdout, stderr, code };
    let e4 = seq![EventView::Start, EventView::Spawned, exited, last];
    let e3 = seq![EventView::Spawned, exited, last];
    let e2 = seq![exited, last];
    let e1 = seq![last];
    let e0 = Seq::<EventView>::empty();
    assert(e4.drop_first() =~= e3);
    assert(e3.drop_first() =~= e2);
    assert(e2.drop_first() =~= e1);
    assert(e1.drop_first() =~= e0);
    law_output_never_fails(config, stdout, stderr, code);
    let end = if delivered {
        State::Done
    } else {
        State::Aborted(Failure::Notification)
    };
    assert(state_after(config, end, e0) == end);
    assert(state_after(config, State::Summarising, e1) == end);
    assert(state_after(config, State::Running, e2) == end);
    assert(state_after(config, State::Spawning, e3) == end);
    assert(state_after(config, State::Idle, e4) == end);
    law_one_notification(config, State::Idle, e4);
}

/// A command that ends with exit code 0 is summarised as a success: where
/// the configuration is deliverable, the step posts one request to the
/// configured endpoint, with low priority and the check mark, titled with
/// the executable, and with both streams in the body.
pub proof fn law_success_summary(config: ConfigView, stdout: Seq<u8>, stderr: Seq<u8>)
    requires
        config.wf(),
        deliverable(config),
    ensures
        ({
            let step = transition(
                config,
                State::Running,
                EventView::Exited { stdout, stderr, code: Some(0i32) },
            );
            &&& step.state == State::Summarising
            &&& step.action is Post
            &&& step.action->Post_0.url == config.url
            &&& step.action->Post_0.headers == headers_of(
                config.token,
                summary_title(config.program()),
                true,
            )
            &&& step.action->Post_0.has_header("x-priority"@, "low"@)
            &&& step.action->Post_0.has_header("x-tags"@, "heavy_check_mark"@)
            &&& step.action->Post_0.body == summary_body(lossy_text(stdout), lossy_text(stderr))
        }),
{
    let body = summary_body(lossy_text(stdout), lossy_text(stderr));
    lemma_deliverable(config, body, true);
    lemma_headers_of(config.token, summary_title(config.program()), true);
}

/// A command that ends with another exit code, or with none, is summarised
/// as a failure: where the configuration is deliverable, the step posts one
/// request with high priority and the warning light, whose body holds the
/// block of the standard output and the block of the standard error, each
/// under its label, empty or not.
pub proof fn law_failure_summary(
    config: ConfigView,
    stdout: Seq<u8>,
    stderr: Seq<u8>,
    code: Option<i32>,
)
    requires
        config.wf(),
        deliverable(config),
        code != Some(0i32),
    ensures
        ({
            let step = transition(
                config,
                State::Running,
                EventView::Exited { stdout, stderr, code },
            );
            &&& step.state == State::Summarising
            &&& step.action is Post
            &&& step.action->Post_0.url == config.url
            &&& step.action->Post_0.headers == headers_of(
                config.token,
                summary_title(config.program()),
                false,
            )
            &&& step.action->Post_0.has_header("x-priority"@, "high"@)
            &&& step.action->Post_0.has_header("x-tags"@, "rotating_light"@)
            &&& step.action->Post_0.body == "stdout:\n\n```\n"@ + lossy_text(stdout)
                + "\n```\n\nstderr:\n\n```\n"@ + lossy_text(stderr) + "\n```"@
        }),
{
    let body = summary_body(lossy_text(stdout), lossy_text(stderr));
    lemma_deliverable(config, body, false);
    lemma_headers_of(config.token, summary_title(config.program()), false);
}

/// Every notification that is made carries the token where one is
/// configured, as the authorization `Bearer` and the token, and carries no
/// authorization header where none is.
pub proof fn law_notification_authorized(
    config: ConfigView,
    title: Seq<char>,
    content: Seq<char>,
    success: bool,
)
    requires
        notification(config, title, content, success) is Ok,
    ensures
        ({
            let r = notification(config, title, content, success)->Ok_0;
            match config.token {
                Some(t) => r.has_header("authorization"@, "Bearer "@ + t),
                None => !r.names_header("authorization"@),
            }
        }),
{
    lemma_headers_of(config.token, title, success);
}

/// Every request that a step posts, alert or summary, goes to the
/// configured endpoint and carries the token where one is configured, and
/// no authorization header where none is.
pub proof fn law_every_post_authorized(config: ConfigView, state: State, event: EventView)
    requires
        config.wf(),
        transition(config, state, event).action is Post,
    ensures
        ({
            let r = transition(config, state, event).action->Post_0;
            &&& r.url == config.url
            &&& match config.token {
                Some(t) => r.has_header("authorization"@, "Bearer "@ + t),
                None => !r.names_header("authorization"@),
            }
        }),
{
    let p = config.program();
    match event {
        EventView::SpawnFailed { detail } => {
            law_notification_authorized(config, spawn_alert_title(p), alert_body(detail), false);
        },
        EventView::WaitFailed { detail } => {
            law_notification_authorized(config, wait_alert_title(p), alert_body(detail), false);
        },
        EventView::Exited { stdout, stderr, code } => {
            law_notification_authorized(
                config,
                summary_title(p),
                summary_body(lossy_text(stdout), lossy_text(stderr)),
                crate::text::reported_code(code) == 0,
            );
        },
        _ => {},
    }
}

/// A command that cannot be started is reported by one alert: where the
/// configuration is deliverable, the step posts a request of high
/// priority whose title ends in the executable's name and whose body holds
/// the system's error. Whatever follows, the command is never waited for,
/// nothing more is posted, and the invocation can only fail with the spawn
/// error.
pub proof fn law_spawn_failure(
    config: ConfigView,
    detail: Seq<char>,
    events: Seq<EventView>,
    later: EventView,
)
    requires
        config.wf(),
        deliverable(config),
    ensures
        ({
            let step = transition(config, State::Spawning, EventView::SpawnFailed { detail });
            let next = transition(config, step.state, later);
            let end = state_after(config, step.state, events);
            &&& step.state == State::Alerting(Failure::Spawn)
            &&& step.action is Post
            &&& step.action->Post_0.has_header(
                "x-title"@,
                "Failed to spawn process "@ + config.program(),
            )
            &&& step.action->Post_0.has_header("x-priority"@, "high"@)
            &&& step.action->Post_0.has_header("x-tags"@, "rotating_light"@)
            &&& step.action->Post_0.body == "Error:\n "@ + detail
            &&& next.action == ActionView::Fail(Failure::Spawn) || next.action is Ignore
            &&& posts_during(config, step.state, events) == 0
            &&& end == step.state || end == State::Aborted(Failure::Spawn)
        }),
{
    lemma_deliverable(config, alert_body(detail), false);
    let step = transition(config, State::Spawning, EventView::SpawnFailed { detail });
    lemma_headers_of(config.token, spawn_alert_title(config.program()), false);
    law_one_notification(config, step.state, events);
    lemma_no_return(config, step.state, events);
}

/// No output makes the summary fail: whether the step that follows the end
/// of a command posts a request depends on the configuration alone, not on
/// a byte of what the command printed nor on its exit code.
pub proof fn law_output_never_fails(
    config: ConfigView,
    stdout: Seq<u8>,
    stderr: Seq<u8>,
    code: Option<i32>,
)
    requires
        config.wf(),
    ensures
        transition(config, State::Running, EventView::Exited { stdout, stderr, code }).action is Post
            <==> deliverable(config),
{
    lemma_deliverable(
        config,
        summary_body(lossy_text(stdout), lossy_text(stderr)),
        crate::text::reported_code(code) == 0,
    );
}

} // verus!
