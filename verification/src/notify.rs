//! The notifier: from a title, a body and a verdict to the request that is
//! posted.

use crate::config::{ConfigView, NtfyConfig};
use crate::header::{
    accepted_value, entries_of, fixed_value, new_headers, no_entries, plain_name, set_header,
};
use reqwest::header::{HeaderMap, HeaderValue};
use vstd::prelude::*;
use vstd::utf8::encode_utf8;

verus! {

/// A POST that delivers one notification: where it goes, its headers and
/// its payload.
#[derive(Debug)]
pub struct Request {
    pub url: String,
    pub headers: HeaderMap,
    pub body: String,
}

/// A request as plain values. The headers are given as the map holds them:
/// under each name, in lower case, the values set for it, as bytes.
pub struct RequestView {
    pub url: Seq<char>,
    pub headers: Map<Seq<char>, Seq<Seq<u8>>>,
    pub body: Seq<char>,
}

impl View for Request {
    type V = RequestView;

    open spec fn view(&self) -> RequestView {
        RequestView { url: self.url@, headers: entries_of(self.headers), body: self.body@ }
    }
}

impl RequestView {
    /// Whether the request carries the header `name` with the one value
    /// `value`.
    pub open spec fn has_header(self, name: Seq<char>, value: Seq<char>) -> bool {
        self.headers.contains_key(name) && self.headers[name] == one_value(value)
    }

    /// Whether the request carries a header called `name`.
    pub open spec fn names_header(self, name: Seq<char>) -> bool {
        self.headers.contains_key(name)
    }
}

/// What a header holds that was set to a text: the one value, in UTF-8.
pub open spec fn one_value(text: Seq<char>) -> Seq<Seq<u8>> {
    seq![encode_utf8(text)]
}

/// Which header a notification could not be given.
#[derive(Clone, Copy, Debug, PartialEq, Eq, Structural)]
pub enum HeaderError {
    /// The title is no header value.
    Title,
    /// The token makes no header value.
    Authorization,
}

/// The priority of a notification: low for a success, high for a failure.
pub open spec fn priority_of(success: bool) -> Seq<char> {
    if success {
        "low"@
    } else {
        "high"@
    }
}

/// The tag of a notification: a check mark for a success, a warning light
/// for a failure.
pub open spec fn tag_of(success: bool) -> Seq<char> {
    if success {
        "heavy_check_mark"@
    } else {
        "rotating_light"@
    }
}

/// The value of the authorization header for a token.
pub open spec fn bearer(token: Seq<char>) -> Seq<char> {
    "Bearer "@ + token
}

/// The headers of a notification: the markdown marker, the title, the
/// priority, the tag and, where a token is configured, the authorization.
/// Names are written in lower case, as the map keeps them and as they go
/// over the wire.
pub open spec fn headers_of(token: Option<Seq<char>>, title: Seq<char>, success: bool) -> Map<
    Seq<char>,
    Seq<Seq<u8>>,
> {
    let fixed = no_entries().insert("x-markdown"@, one_value("yes"@)).insert(
        "x-title"@,
        one_value(title),
    ).insert("x-priority"@, one_value(priority_of(success))).insert(
        "x-tags"@,
        one_value(tag_of(success)),
    );
    match token {
        Some(t) => fixed.insert("authorization"@, one_value(bearer(t))),
        None => fixed,
    }
}

/// What [`notify`] returns, over plain values: the request, unless the title
/// or, after it, the token is refused as a header value.
pub open spec fn notification(
    config: ConfigView,
    title: Seq<char>,
    content: Seq<char>,
    success: bool,
) -> Result<RequestView, HeaderError> {
    if !accepted_value(title) {
        Err(HeaderError::Title)
    } else if config.token is Some && !accepted_value(bearer(config.token->0)) {
        Err(HeaderError::Authorization)
    } else {
        Ok(
            RequestView {
                url: config.url,
                headers: headers_of(config.token, title, success),
                body: content,
            },
        )
    }
}

/// The title of the summary of a run.
pub open spec fn summary_title(program: Seq<char>) -> Seq<char> {
    "Executing command "@ + program
}

/// The body of the summary of a run: what the command printed, each stream
/// under its label in a fenced block.
pub open spec fn summary_body(stdout: Seq<char>, stderr: Seq<char>) -> Seq<char> {
    "stdout:\n\n```\n"@ + stdout + "\n```\n\nstderr:\n\n```\n"@ + stderr + "\n```"@
}

/// What [`send_message`] returns, over plain values.
pub open spec fn summary(config: ConfigView, stdout: Seq<char>, stderr: Seq<char>, exit_code: i32)
    -> Result<RequestView, HeaderError> {
    notification(
        config,
        summary_title(config.program()),
        summary_body(stdout, stderr),
        exit_code == 0,
    )
}

/// The title of the alert for a command that could not be started.
pub open spec fn spawn_alert_title(program: Seq<char>) -> Seq<char> {
    "Failed to spawn process "@ + program
}

/// The title of the alert for a command whose end could not be observed.
pub open spec fn wait_alert_title(program: Seq<char>) -> Seq<char> {
    "failed to wait on "@ + program
}

/// The body of an alert: the error as the system worded it.
pub open spec fn alert_body(detail: Seq<char>) -> Seq<char> {
    "Error:\n "@ + detail
}

/// What [`spawn_alert`] returns, over plain values.
pub open spec fn spawn_alert_of(config: ConfigView, detail: Seq<char>) -> Result<
    RequestView,
    HeaderError,
> {
    notification(config, spawn_alert_title(config.program()), alert_body(detail), false)
}

/// What [`wait_alert`] returns, over plain values.
pub open spec fn wait_alert_of(config: ConfigView, detail: Seq<char>) -> Result<
    RequestView,
    HeaderError,
> {
    notification(config, wait_alert_title(config.program()), alert_body(detail), false)
}

/// An outcome as plain values: the request by its view, the error as it is.
pub open spec fn outcome_view(res: Result<Request, HeaderError>) -> Result<
    RequestView,
    HeaderError,
> {
    match res {
        Ok(r) => Ok(r@),
        Err(e) => Err(e),
    }
}

/// What the headers of a notification hold, name by name: each of the four
/// fixed names holds its one value, and the authorization is there exactly
/// where a token is configured, and then holds `Bearer ` and the token.
pub proof fn lemma_headers_of(token: Option<Seq<char>>, title: Seq<char>, success: bool)
    ensures
        ({
            let r = RequestView {
                url: Seq::empty(),
                headers: headers_of(token, title, success),
                body: Seq::empty(),
            };
            &&& r.has_header("x-markdown"@, "yes"@)
            &&& r.has_header("x-title"@, title)
            &&& r.has_header("x-priority"@, priority_of(success))
            &&& r.has_header("x-tags"@, tag_of(success))
            &&& r.names_header("authorization"@) <==> token is Some
            &&& token is Some ==> r.has_header("authorization"@, bearer(token->0))
        }),
{
    reveal_strlit("x-markdown");
    reveal_strlit("x-title");
    reveal_strlit("x-priority");
    reveal_strlit("x-tags");
    reveal_strlit("authorization");
    assert("x-markdown"@.len() == 10 && "x-priority"@.len() == 10);
    assert("x-title"@.len() == 7 && "x-tags"@.len() == 6 && "authorization"@.len() == 13);
    assert("x-markdown"@[2] != "x-priority"@[2]);
}

proof fn lemma_fixed_words()
    ensures
        plain_name("x-markdown"@),
        plain_name("x-title"@),
        plain_name("x-priority"@),
        plain_name("x-tags"@),
        plain_name("authorization"@),
        fixed_value("yes"@),
        fixed_value("low"@),
        fixed_value("high"@),
        fixed_value("heavy_check_mark"@),
        fixed_value("rotating_light"@),
{
    reveal_strlit("x-markdown");
    reveal_strlit("x-title");
    reveal_strlit("x-priority");
    reveal_strlit("x-tags");
    reveal_strlit("authorization");
    reveal_strlit("yes");
    reveal_strlit("low");
    reveal_strlit("high");
    reveal_strlit("heavy_check_mark");
    reveal_strlit("rotating_light");
}

/// Makes the request that delivers one notification to the configured
/// endpoint. It is refused where the title, or the token behind `Bearer `,
/// is no header value.
pub fn notify(config: &NtfyConfig, title: &str, content: String, success: bool) -> (res: Result<
    Request,
    HeaderError,
>)
    ensures
        outcome_view(res) == notification(config@, title@, content@, success),
{
    proof {
        lemma_fixed_words();
    }
    let mut headers = new_headers();
    set_header(&mut headers, "x-markdown", HeaderValue::from_static("yes"));
    match HeaderValue::from_str(title) {
        Ok(value) => set_header(&mut headers, "x-title", value),
        Err(_) => {
            return Err(HeaderError::Title);
        },
    }
    if success {
        set_header(&mut headers, "x-priority", HeaderValue::from_static("low"));
        set_header(&mut headers, "x-tags", HeaderValue::from_static("heavy_check_mark"));
    } else {
        set_header(&mut headers, "x-priority", HeaderValue::from_static("high"));
        set_header(&mut headers, "x-tags", HeaderValue::from_static("rotating_light"));
    }
    match &config.token {
        Some(t) => {
            let text = String::from_str("Bearer ").concat(t.as_str());
            match HeaderValue::from_str(text.as_str()) {
                Ok(value) => set_header(&mut headers, "authorization", value),
                Err(_) => {
                    return Err(HeaderError::Authorization);
                },
            }
        },
        None => {},
    }
    Ok(Request { url: config.url.clone(), headers, body: content })
}

/// Makes the request that reports a finished run: titled with the
/// executable, with both streams in the body, and marked a success exactly
/// when the exit code is 0.
pub fn send_message(config: &NtfyConfig, stdout: &str, stderr: &str, exit_code: i32) -> (res:
    Result<Request, HeaderError>)
    requires
        config.wf(),
    ensures
        outcome_view(res) == summary(config@, stdout@, stderr@, exit_code),
{
    let content = String::from_str("stdout:\n\n```\n").concat(stdout).concat(
        "\n```\n\nstderr:\n\n```\n",
    ).concat(stderr).concat("\n```");
    let title = String::from_str("Executing command ").concat(config.program());
    notify(config, title.as_str(), content, exit_code == 0)
}

/// Makes the request that reports that the command could not be started;
/// `detail` is the system's error.
pub fn spawn_alert(config: &NtfyConfig, detail: &str) -> (res: Result<Request, HeaderError>)
    requires
        config.wf(),
    ensures
        outcome_view(res) == spawn_alert_of(config@, detail@),
{
    let title = String::from_str("Failed to spawn process ").concat(config.program());
    let content = String::from_str("Error:\n ").concat(detail);
    notify(config, title.as_str(), content, false)
}

/// Makes the request that reports that the end of the command could not be
/// observed; `detail` is the system's error.
pub fn wait_alert(config: &NtfyConfig, detail: &str) -> (res: Result<Request, HeaderError>)
    requires
        config.wf(),
    ensures
        outcome_view(res) == wait_alert_of(config@, detail@),
{
    let title = String::from_str("failed to wait on ").concat(config.program());
    let content = String::from_str("Error:\n ").concat(detail);
    notify(config, title.as_str(), content, false)
}

} // verus!
