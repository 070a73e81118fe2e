//! The command-line client's decisions: the request it sends for a command,
//! and the action it runs itself when it bypasses the daemon.

use vstd::prelude::*;
use vstd::string::{StrSliceExecFns, StringExecFns};

use crate::json::{lookup, ArgValue, JsonObject, opt_string_view};
use crate::dispatch::{Action, browser_level, command_name_facts, plan_spec, CommandError};
use crate::protocol::{
    parse_idle_timeout, timeout_error_message,
    DaemonIdleTimeout, DaemonRequest, DaemonResponse, IdleTimeoutError, DAEMON_IDLE_TIMEOUT_ENV,
};

verus! {

/// A subcommand of the command line; `S` is the string type.
#[derive(Debug, Clone)]
pub enum Command<S> {
    ListPages,
    Navigate { url: Option<S>, back: bool, forward: bool, reload: bool },
    NewPage { url: S },
    ClosePage { index: usize },
    SelectPage { index: usize },
    Screenshot { output: Option<S>, format: S, full_page: bool },
    Evaluate { expression: S },
    Click { selector: S },
    Fill { selector: S, value: S },
    TypeText { text: S },
    PressKey { key: S },
    Hover { selector: S },
    Snapshot,
    Resize { width: u32, height: u32 },
    WaitFor { text: S, timeout: u64 },
    RecordVideo {
        output: S,
        duration: u64,
        fps: u32,
        quality: u32,
        width: Option<u32>,
        height: Option<u32>,
    },
}

impl View for Command<String> {
    type V = Command<Seq<char>>;

    open spec fn view(&self) -> Command<Seq<char>> {
        match self {
            Command::ListPages => Command::ListPages,
            Command::Navigate { url, back, forward, reload } => Command::Navigate {
                url: opt_string_view(*url),
                back: *back,
                forward: *forward,
                reload: *reload,
            },
            Command::NewPage { url } => Command::NewPage { url: url@ },
            Command::ClosePage { index } => Command::ClosePage { index: *index },
            Command::SelectPage { index } => Command::SelectPage { index: *index },
            Command::Screenshot { output, format, full_page } => Command::Screenshot {
                output: opt_string_view(*output),
                format: format@,
                full_page: *full_page,
            },
            Command::Evaluate { expression } => Command::Evaluate { expression: expression@ },
            Command::Click { selector } => Command::Click { selector: selector@ },
            Command::Fill { selector, value } => Command::Fill {
                selector: selector@,
                value: value@,
            },
            Command::TypeText { text } => Command::TypeText { text: text@ },
            Command::PressKey { key } => Command::PressKey { key: key@ },
            Command::Hover { selector } => Command::Hover { selector: selector@ },
            Command::Snapshot => Command::Snapshot,
            Command::Resize { width, height } => Command::Resize {
                width: *width,
                height: *height,
            },
            Command::WaitFor { text, timeout } => Command::WaitFor {
                text: text@,
                timeout: *timeout,
            },
            Command::RecordVideo { output, duration, fps, quality, width, height } =>
                Command::RecordVideo {
                output: output@,
                duration: *duration,
                fps: *fps,
                quality: *quality,
                width: *width,
                height: *height,
            },
        }
    }
}

/// The options of the command line.
#[derive(Debug, Clone)]
pub struct CliOptions {
    pub ws_endpoint: Option<String>,
    pub user_data_dir: Option<String>,
    pub channel: String,
    pub page: Option<usize>,
    pub target: Option<String>,
    pub json: bool,
    pub daemon_idle_timeout: Option<String>,
    pub command: Command<String>,
}

/// The name under which the daemon knows a command.
pub open spec fn command_name(c: Command<Seq<char>>) -> Seq<char> {
    match c {
        Command::ListPages => "list-pages"@,
        Command::Navigate { .. } => "navigate"@,
        Command::NewPage { .. } => "new-page"@,
        Command::ClosePage { .. } => "close-page"@,
        Command::SelectPage { .. } => "select-page"@,
        Command::Screenshot { .. } => "screenshot"@,
        Command::Evaluate { .. } => "evaluate"@,
        Command::Click { .. } => "click"@,
        Command::Fill { .. } => "fill"@,
        Command::TypeText { .. } => "type-text"@,
        Command::PressKey { .. } => "press-key"@,
        Command::Hover { .. } => "hover"@,
        Command::Snapshot => "snapshot"@,
        Command::Resize { .. } => "resize"@,
        Command::WaitFor { .. } => "wait-for"@,
        Command::RecordVideo { .. } => "record-video"@,
    }
}

/// A string that may be absent, as JSON (`null` when absent).
pub open spec fn opt_text(o: Option<Seq<char>>) -> ArgValue<Seq<char>> {
    match o {
        Some(s) => ArgValue::Text(s),
        None => ArgValue::Null,
    }
}

/// A number that may be absent, as JSON (`null` when absent).
pub open spec fn opt_number(o: Option<u32>) -> ArgValue<Seq<char>> {
    match o {
        Some(n) => ArgValue::Number(n as u64),
        None => ArgValue::Null,
    }
}

/// The arguments object that the client sends for a command.
pub open spec fn command_args(c: Command<Seq<char>>) -> Seq<(Seq<char>, ArgValue<Seq<char>>)> {
    match c {
        Command::ListPages => seq![],
        Command::Navigate { url, back, forward, reload } => seq![
            ("url"@, opt_text(url)),
            ("back"@, ArgValue::Bool(back)),
            ("forward"@, ArgValue::Bool(forward)),
            ("reload"@, ArgValue::Bool(reload)),
        ],
        Command::NewPage { url } => seq![("url"@, ArgValue::Text(url))],
        Command::ClosePage { index } => seq![("index"@, ArgValue::Number(index as u64))],
        Command::SelectPage { index } => seq![("index"@, ArgValue::Number(index as u64))],
        Command::Screenshot { output, format, full_page } => seq![
            ("output"@, opt_text(output)),
            ("format"@, ArgValue::Text(format)),
            ("full_page"@, ArgValue::Bool(full_page)),
        ],
        Command::Evaluate { expression } => seq![("expression"@, ArgValue::Text(expression))],
        Command::Click { selector } => seq![("selector"@, ArgValue::Text(selector))],
        Command::Fill { selector, value } => seq![
            ("selector"@, ArgValue::Text(selector)),
            ("value"@, ArgValue::Text(value)),
        ],
        Command::TypeText { text } => seq![("text"@, ArgValue::Text(text))],
        Command::PressKey { key } => seq![("key"@, ArgValue::Text(key))],
        Command::Hover { selector } => seq![("selector"@, ArgValue::Text(selector))],
        Command::Snapshot => seq![],
        Command::Resize { width, height } => seq![
            ("width"@, ArgValue::Number(width as u64)),
            ("height"@, ArgValue::Number(height as u64)),
        ],
        Command::WaitFor { text, timeout } => seq![
            ("text"@, ArgValue::Text(text)),
            ("timeout"@, ArgValue::Number(timeout)),
        ],
        Command::RecordVideo { output, duration, fps, quality, width, height } => seq![
            ("output"@, ArgValue::Text(output)),
            ("duration"@, ArgValue::Number(duration)),
            ("fps"@, ArgValue::Number(fps as u64)),
            ("quality"@, ArgValue::Number(quality as u64)),
            ("width"@, opt_number(width)),
            ("height"@, opt_number(height)),
        ],
    }
}

/// The action the client runs itself for a command.
pub open spec fn direct_action(c: Command<Seq<char>>, json: bool) -> Action<Seq<char>> {
    match c {
        Command::ListPages => Action::ListPages { json },
        Command::Navigate { url, back, forward, reload } => Action::Navigate {
            url,
            back,
            forward,
            reload,
        },
        Command::NewPage { url } => Action::NewPage { url },
        Command::ClosePage { index } => Action::ClosePage { index },
        Command::SelectPage { index } => Action::SelectPage { index },
        Command::Screenshot { output, format, full_page } => Action::Screenshot {
            output,
            format,
            full_page,
        },
        Command::Evaluate { expression } => Action::Evaluate { expression, json },
        Command::Click { selector } => Action::Click { selector },
        Command::Fill { selector, value } => Action::Fill { selector, value },
        Command::TypeText { text } => Action::TypeText { text },
        Command::PressKey { key } => Action::PressKey { key },
        Command::Hover { selector } => Action::Hover { selector },
        Command::Snapshot => Action::Snapshot { json },
        Command::Resize { width, height } => Action::Resize { width, height },
        Command::WaitFor { text, timeout } => Action::WaitFor { text, timeout },
        Command::RecordVideo { output, duration, fps, quality, width, height } =>
            Action::RecordVideo {
            output,
            duration_secs: duration,
            fps,
            quality,
            max_width: width,
            max_height: height,
        },
    }
}

/// The commands that act on the browser as a whole.
pub open spec fn is_browser_command(c: Command<Seq<char>>) -> bool {
    ||| c is ListPages
    ||| c is NewPage
    ||| c is ClosePage
    ||| c is SelectPage
}

/// Whether `c` acts on the browser as a whole, so that it runs without first
/// attaching to a page.
pub fn acts_on_browser(c: &Command<String>) -> (b: bool)
    ensures
        b == is_browser_command(c@),
{
    match c {
        Command::ListPages | Command::NewPage { .. } | Command::ClosePage { .. }
        | Command::SelectPage { .. } => true,
        _ => false,
    }
}

fn text_arg(s: &String) -> (v: ArgValue<String>)
    ensures
        v@ == ArgValue::Text(s@),
{
    ArgValue::Text(s.clone())
}

fn opt_text_arg(o: &Option<String>) -> (v: ArgValue<String>)
    ensures
        v@ == opt_text(opt_string_view(*o)),
{
    match o {
        Some(s) => ArgValue::Text(s.clone()),
        None => ArgValue::Null,
    }
}

fn opt_number_arg(o: Option<u32>) -> (v: ArgValue<String>)
    ensures
        v@ == opt_number(o),
{
    match o {
        Some(n) => ArgValue::Number(n as u64),
        None => ArgValue::Null,
    }
}

fn clone_opt(o: &Option<String>) -> (r: Option<String>)
    ensures
        opt_string_view(r) == opt_string_view(*o),
{
    match o {
        Some(s) => Some(s.clone()),
        None => None,
    }
}

/// The command name and arguments object that the client sends for `c`.
pub fn command_request_parts(c: &Command<String>) -> (r: (String, JsonObject))
    ensures
        r.0@ == command_name(c@),
        r.1@ == command_args(c@),
{
    let mut a = JsonObject::new();
    let name = match c {
        Command::ListPages => String::from_str("list-pages"),
        Command::Navigate { url, back, forward, reload } => {
            a.push(String::from_str("url"), opt_text_arg(url));
            a.push(String::from_str("back"), ArgValue::Bool(*back));
            a.push(String::from_str("forward"), ArgValue::Bool(*forward));
            a.push(String::from_str("reload"), ArgValue::Bool(*reload));
            String::from_str("navigate")
        },
        Command::NewPage { url } => {
            a.push(String::from_str("url"), text_arg(url));
            String::from_str("new-page")
        },
        Command::ClosePage { index } => {
            a.push(String::from_str("index"), ArgValue::Number(*index as u64));
            String::from_str("close-page")
        },
        Command::SelectPage { index } => {
            a.push(String::from_str("index"), ArgValue::Number(*index as u64));
            String::from_str("select-page")
        },
        Command::Screenshot { output, format, full_page } => {
            a.push(String::from_str("output"), opt_text_arg(output));
            a.push(String::from_str("format"), text_arg(format));
            a.push(String::from_str("full_page"), ArgValue::Bool(*full_page));
            String::from_str("screenshot")
        },
        Command::Evaluate { expression } => {
            a.push(String::from_str("expression"), text_arg(expression));
            String::from_str("evaluate")
        },
        Command::Click { selector } => {
            a.push(String::from_str("selector"), text_arg(selector));
            String::from_str("click")
        },
        Command::Fill { selector, value } => {
            a.push(String::from_str("selector"), text_arg(selector));
            a.push(String::from_str("value"), text_arg(value));
            String::from_str("fill")
        },
        Command::TypeText { text } => {
            a.push(String::from_str("text"), text_arg(text));
            String::from_str("type-text")
        },
        Command::PressKey { key } => {
            a.push(String::from_str("key"), text_arg(key));
            String::from_str("press-key")
        },
        Command::Hover { selector } => {
            a.push(String::from_str("selector"), text_arg(selector));
            String::from_str("hover")
        },
        Command::Snapshot => String::from_str("snapshot"),
        Command::Resize { width, height } => {
            a.push(String::from_str("width"), ArgValue::Number(*width as u64));
            a.push(String::from_str("height"), ArgValue::Number(*height as u64));
            String::from_str("resize")
        },
        Command::WaitFor { text, timeout } => {
            a.push(String::from_str("text"), text_arg(text));
            a.push(String::from_str("timeout"), ArgValue::Number(*timeout));
            String::from_str("wait-for")
        },
        Command::RecordVideo { output, duration, fps, quality, width, height } => {
            a.push(String::from_str("output"), text_arg(output));
            a.push(String::from_str("duration"), ArgValue::Number(*duration));
            a.push(String::from_str("fps"), ArgValue::Number(*fps as u64));
            a.push(String::from_str("quality"), ArgValue::Number(*quality as u64));
            a.push(String::from_str("width"), opt_number_arg(*width));
            a.push(String::from_str("height"), opt_number_arg(*height));
            String::from_str("record-video")
        },
    };
    assert(a@ =~= command_args(c@));
    (name, a)
}

/// The request that the client sends to the daemon for the command line `cli`.
pub fn build_request(cli: &CliOptions, daemon_idle_timeout: Option<DaemonIdleTimeout>) -> (r:
    DaemonRequest)
    ensures
        r.command@ == command_name(cli.command@),
        r.args@ == command_args(cli.command@),
        r.page == cli.page,
        opt_string_view(r.target) == opt_string_view(cli.target),
        r.json_output == cli.json,
        r.daemon_idle_timeout == daemon_idle_timeout,
        opt_string_view(r.ws_endpoint) == opt_string_view(cli.ws_endpoint),
        opt_string_view(r.user_data_dir) == opt_string_view(cli.user_data_dir),
        r.channel@ == cli.channel@,
{
    let (command, args) = command_request_parts(&cli.command);
    DaemonRequest {
        command,
        args,
        page: cli.page,
        target: clone_opt(&cli.target),
        json_output: cli.json,
        daemon_idle_timeout,
        ws_endpoint: clone_opt(&cli.ws_endpoint),
        user_data_dir: clone_opt(&cli.user_data_dir),
        channel: cli.channel.clone(),
    }
}

/// The action the client runs itself for `command`; `json` asks for
/// machine-readable output.
pub fn direct_plan(command: &Command<String>, json: bool) -> (a: Action<String>)
    ensures
        a@ == direct_action(command@, json),
{
    match command {
        Command::ListPages => Action::ListPages { json },
        Command::Navigate { url, back, forward, reload } => Action::Navigate {
            url: clone_opt(url),
            back: *back,
            forward: *forward,
            reload: *reload,
        },
        Command::NewPage { url } => Action::NewPage { url: url.clone() },
        Command::ClosePage { index } => Action::ClosePage { index: *index },
        Command::SelectPage { index } => Action::SelectPage { index: *index },
        Command::Screenshot { output, format, full_page } => Action::Screenshot {
            output: clone_opt(output),
            format: format.clone(),
            full_page: *full_page,
        },
        Command::Evaluate { expression } => Action::Evaluate { expression: expression.clone(), json },
        Command::Click { selector } => Action::Click { selector: selector.clone() },
        Command::Fill { selector, value } => Action::Fill {
            selector: selector.clone(),
            value: value.clone(),
        },
        Command::TypeText { text } => Action::TypeText { text: text.clone() },
        Command::PressKey { key } => Action::PressKey { key: key.clone() },
        Command::Hover { selector } => Action::Hover { selector: selector.clone() },
        Command::Snapshot => Action::Snapshot { json },
        Command::Resize { width, height } => Action::Resize { width: *width, height: *height },
        Command::WaitFor { text, timeout } => Action::WaitFor {
            text: text.clone(),
            timeout: *timeout,
        },
        Command::RecordVideo { output, duration, fps, quality, width, height } =>
            Action::RecordVideo {
            output: output.clone(),
            duration_secs: *duration,
            fps: *fps,
            quality: *quality,
            max_width: *width,
            max_height: *height,
        },
    }
}

/// What the environment holds for a variable; `S` is the string type.
#[derive(Debug, Clone)]
pub enum EnvValue<S> {
    Present(S),
    NotPresent,
    /// The variable is set but cannot be read; holds the reason.
    Unreadable(S),
}

impl View for EnvValue<String> {
    type V = EnvValue<Seq<char>>;

    open spec fn view(&self) -> EnvValue<Seq<char>> {
        match self {
            EnvValue::Present(s) => EnvValue::Present(s@),
            EnvValue::NotPresent => EnvValue::NotPresent,
            EnvValue::Unreadable(s) => EnvValue::Unreadable(s@),
        }
    }
}

/// Why no idle timeout could be settled.
#[derive(Debug, Clone)]
pub enum ResolveError<S> {
    /// The `--daemon-idle-timeout` value was refused.
    InvalidCliValue(IdleTimeoutError<S>),
    /// The environment's value was refused.
    InvalidEnvValue { value: S, error: IdleTimeoutError<S> },
    /// The environment variable could not be read; holds the reason.
    EnvUnreadable(S),
}

impl View for ResolveError<String> {
    type V = ResolveError<Seq<char>>;

    open spec fn view(&self) -> ResolveError<Seq<char>> {
        match self {
            ResolveError::InvalidCliValue(e) => ResolveError::InvalidCliValue(e@),
            ResolveError::InvalidEnvValue { value, error } => ResolveError::InvalidEnvValue {
                value: value@,
                error: error@,
            },
            ResolveError::EnvUnreadable(s) => ResolveError::EnvUnreadable(s@),
        }
    }
}

/// The idle timeout a command line asks for: the option's value when given,
/// else the environment's, else none.
pub open spec fn resolve_spec(cli_value: Option<Seq<char>>, env: EnvValue<Seq<char>>) -> Result<
    Option<DaemonIdleTimeout>,
    ResolveError<Seq<char>>,
> {
    match cli_value {
        Some(v) => match parse_idle_timeout(v) {
            Ok(t) => Ok(Some(t)),
            Err(e) => Err(ResolveError::InvalidCliValue(e)),
        },
        None => match env {
            EnvValue::Present(v) => match parse_idle_timeout(v) {
                Ok(t) => Ok(Some(t)),
                Err(e) => Err(ResolveError::InvalidEnvValue { value: v, error: e }),
            },
            EnvValue::NotPresent => Ok(None),
            EnvValue::Unreadable(m) => Err(ResolveError::EnvUnreadable(m)),
        },
    }
}

pub open spec fn resolve_result_view(
    r: Result<Option<DaemonIdleTimeout>, ResolveError<String>>,
) -> Result<Option<DaemonIdleTimeout>, ResolveError<Seq<char>>> {
    match r {
        Ok(t) => Ok(t),
        Err(e) => Err(e@),
    }
}

/// The idle timeout for the daemon, from `--daemon-idle-timeout` or else from
/// the environment variable `CHROME_DEVTOOLS_DAEMON_IDLE_TIMEOUT`.
pub fn resolve_daemon_idle_timeout(cli_value: Option<&str>, env: &EnvValue<String>) -> (r: Result<
    Option<DaemonIdleTimeout>,
    ResolveError<String>,
>)
    ensures
        resolve_result_view(r) == resolve_spec(
            match cli_value {
                Some(v) => Some(v@),
                None => None,
            },
            env@,
        ),
{
    match cli_value {
        Some(v) => match DaemonIdleTimeout::parse(v) {
            Ok(t) => Ok(Some(t)),
            Err(e) => Err(ResolveError::InvalidCliValue(e)),
        },
        None => match env {
            EnvValue::Present(v) => match DaemonIdleTimeout::parse(v.as_str()) {
                Ok(t) => Ok(Some(t)),
                Err(e) => Err(ResolveError::InvalidEnvValue { value: v.clone(), error: e }),
            },
            EnvValue::NotPresent => Ok(None),
            EnvValue::Unreadable(m) => Err(ResolveError::EnvUnreadable(m.clone())),
        },
    }
}

/// The text of a refusal, as the client reports it.
pub open spec fn resolve_error_message(e: ResolveError<Seq<char>>) -> Seq<char> {
    match e {
        ResolveError::InvalidCliValue(err) => timeout_error_message(err),
        ResolveError::InvalidEnvValue { value, error } => "invalid "@ + DAEMON_IDLE_TIMEOUT_ENV@
            + " value '"@ + value + "': "@ + timeout_error_message(error),
        ResolveError::EnvUnreadable(m) => "failed to read "@ + DAEMON_IDLE_TIMEOUT_ENV@ + ": "@
            + m,
    }
}

impl ResolveError<String> {
    /// The text of the refusal.
    pub fn message(&self) -> (m: String)
        ensures
            m@ == resolve_error_message(self@),
    {
        match self {
            ResolveError::InvalidCliValue(e) => e.message(),
            ResolveError::InvalidEnvValue { value, error } => {
                let mut m = String::from_str("invalid ");
                m.append(DAEMON_IDLE_TIMEOUT_ENV);
                m.append(" value '");
                m.append(value.as_str());
                m.append("': ");
                let inner = error.message();
                m.append(inner.as_str());
                m
            },
            ResolveError::EnvUnreadable(reason) => {
                let mut m = String::from_str("failed to read ");
                m.append(DAEMON_IDLE_TIMEOUT_ENV);
                m.append(": ");
                m.append(reason.as_str());
                m
            },
        }
    }
}

/// What printing an output writes: nothing for an empty output, else the
/// output ending in a newline.
pub open spec fn printed_output(output: Seq<char>) -> Seq<char> {
    if output.len() == 0 {
        output
    } else if output.last() == '\n' {
        output
    } else {
        output.push('\n')
    }
}

/// The text that printing `output` writes to standard output.
pub fn printed_output_text(output: &str) -> (r: String)
    ensures
        r@ == printed_output(output@),
{
    let n = output.unicode_len();
    let mut r = String::from_str(output);
    if n > 0 && output.get_char(n - 1) != '\n' {
        crate::text::push_char(&mut r, '\n');
    }
    r
}

/// What the client writes and whether it then exits with failure.
#[derive(Debug, Clone)]
pub struct Rendered {
    pub stdout: String,
    pub stderr: String,
    pub failed: bool,
}

/// How the client reports a daemon's response: a success prints the output,
/// a failure prints `error: ...` to standard error and fails.
pub fn render_response(resp: &DaemonResponse) -> (r: Rendered)
    ensures
        r.failed == !resp.success,
        resp.success ==> r.stdout@ == printed_output(resp.output@) && r.stderr@ == Seq::<
            char,
        >::empty(),
        !resp.success ==> r.stdout@ == Seq::<char>::empty() && r.stderr@ == "error: "@
            + resp.error@ + "\n"@,
{
    if resp.success {
        Rendered { stdout: printed_output_text(resp.output.as_str()), stderr: String::new(), failed: false }
    } else {
        let mut e = String::from_str("error: ");
        e.append(resp.error.as_str());
        e.append("\n");
        Rendered { stdout: String::new(), stderr: e, failed: true }
    }
}

/// Where the client stands in getting a command done through the daemon.
#[derive(Debug, Clone, Copy, PartialEq, Eq, Structural)]
pub enum ClientStage {
    /// The request goes to a daemon that may already run.
    FirstAttempt,
    /// No daemon answered; the client starts one.
    Spawning,
    /// The client waits for the new daemon's socket.
    Waiting,
    /// The request goes to the new daemon.
    SecondAttempt,
}

/// What the client met; `S` is the string type.
#[derive(Debug, Clone)]
pub enum ClientEvent<S> {
    /// The daemon answered; `retryable` tells whether its error reports a lost
    /// browser connection.
    Replied { success: bool, retryable: bool },
    /// The daemon could not be reached; holds the reason.
    Unreachable(S),
    /// Starting the daemon failed; holds the reason.
    SpawnFailed(S),
    /// The daemon process was started.
    Spawned,
    /// The daemon's socket did not appear in time; holds the reason.
    WaitFailed(S),
    /// The daemon's socket is ready.
    Ready,
}

/// What the client does next.
#[derive(Debug, Clone)]
pub enum ClientAction {
    /// Report the daemon's response; the command is done.
    PrintResponse,
    /// Print the warning to standard error and run the command without the
    /// daemon; the command is done after that.
    RunDirect(String),
    /// Start the daemon.
    Spawn,
    /// Wait for the daemon's socket.
    Wait,
    /// Send the request again.
    SendAgain,
}

/// Whether `event` can follow `stage`.
pub open spec fn client_event_fits(stage: ClientStage, event: ClientEvent<String>) -> bool {
    match stage {
        ClientStage::FirstAttempt => event is Replied || event is Unreachable,
        ClientStage::Spawning => event is SpawnFailed || event is Spawned,
        ClientStage::Waiting => event is WaitFailed || event is Ready,
        ClientStage::SecondAttempt => event is Replied || event is Unreachable,
    }
}

/// How far along the client is; every step that does not finish moves it on.
pub open spec fn stage_rank(stage: ClientStage) -> nat {
    match stage {
        ClientStage::FirstAttempt => 0,
        ClientStage::Spawning => 1,
        ClientStage::Waiting => 2,
        ClientStage::SecondAttempt => 3,
    }
}

pub open spec fn finishes(a: ClientAction) -> bool {
    a is PrintResponse || a is RunDirect
}

/// One step of the client: a success is printed; a daemon that lost its
/// browser connection is bypassed; a missing daemon is started, waited for,
/// and asked again; whenever starting or reaching it fails, the client runs
/// the command itself.
pub fn client_step(stage: ClientStage, event: &ClientEvent<String>) -> (r: (ClientStage, ClientAction))
    requires
        client_event_fits(stage, *event),
    ensures
        finishes(r.1) || stage_rank(r.0) > stage_rank(stage),
        match (stage, *event) {
            (ClientStage::FirstAttempt, ClientEvent::Replied { success, retryable }) => {
                if !success && retryable {
                    r.1 matches ClientAction::RunDirect(w)
                        && w@ == "Warning: daemon browser connection was stale, running directly"@
                } else {
                    r.1 is PrintResponse
                }
            },
            (ClientStage::FirstAttempt, ClientEvent::Unreachable(_)) => {
                &&& r.0 == ClientStage::Spawning
                &&& r.1 is Spawn
            },
            (ClientStage::Spawning, ClientEvent::SpawnFailed(e)) => {
                r.1 matches ClientAction::RunDirect(w) && w@ == "Warning: failed to spawn daemon ("@
                    + e@ + "), running directly"@
            },
            (ClientStage::Spawning, ClientEvent::Spawned) => {
                &&& r.0 == ClientStage::Waiting
                &&& r.1 is Wait
            },
            (ClientStage::Waiting, ClientEvent::WaitFailed(e)) => {
                r.1 matches ClientAction::RunDirect(w)
                    && w@ == "Warning: daemon failed to become ready ("@ + e@
                    + "), running directly"@
            },
            (ClientStage::Waiting, ClientEvent::Ready) => {
                &&& r.0 == ClientStage::SecondAttempt
                &&& r.1 is SendAgain
            },
            (ClientStage::SecondAttempt, ClientEvent::Replied { success, retryable }) => {
                if !success && retryable {
                    r.1 matches ClientAction::RunDirect(w)
                        && w@
                        == "Warning: daemon browser connection was stale after startup, running directly"@
                } else {
                    r.1 is PrintResponse
                }
            },
            (ClientStage::SecondAttempt, ClientEvent::Unreachable(e)) => {
                r.1 matches ClientAction::RunDirect(w) && w@ == "Warning: daemon unavailable ("@
                    + e@ + "), running directly"@
            },
            _ => false,
        },
{
    match stage {
        ClientStage::FirstAttempt => match event {
            ClientEvent::Replied { success, retryable } => {
                if !*success && *retryable {
                    (
                        stage,
                        ClientAction::RunDirect(
                            String::from_str(
                                "Warning: daemon browser connection was stale, running directly",
                            ),
                        ),
                    )
                } else {
                    (stage, ClientAction::PrintResponse)
                }
            },
            _ => (ClientStage::Spawning, ClientAction::Spawn),
        },
        ClientStage::Spawning => match event {
            ClientEvent::SpawnFailed(e) => {
                let mut w = String::from_str("Warning: failed to spawn daemon (");
                w.append(e.as_str());
                w.append("), running directly");
                (stage, ClientAction::RunDirect(w))
            },
            _ => (ClientStage::Waiting, ClientAction::Wait),
        },
        ClientStage::Waiting => match event {
            ClientEvent::WaitFailed(e) => {
                let mut w = String::from_str("Warning: daemon failed to become ready (");
                w.append(e.as_str());
                w.append("), running directly");
                (stage, ClientAction::RunDirect(w))
            },
            _ => (ClientStage::SecondAttempt, ClientAction::SendAgain),
        },
        ClientStage::SecondAttempt => match event {
            ClientEvent::Replied { success, retryable } => {
                if !*success && *retryable {
                    (
                        stage,
                        ClientAction::RunDirect(
                            String::from_str(
                                "Warning: daemon browser connection was stale after startup, running directly",
                            ),
                        ),
                    )
                } else {
                    (stage, ClientAction::PrintResponse)
                }
            },
            ClientEvent::Unreachable(e) => {
                let mut w = String::from_str("Warning: daemon unavailable (");
                w.append(e.as_str());
                w.append("), running directly");
                (stage, ClientAction::RunDirect(w))
            },
            _ => (stage, ClientAction::PrintResponse),
        },
    }
}

/// How long the client waits for a daemon's socket: five seconds.
pub const DAEMON_START_DEADLINE_NS: u128 = 5_000_000_000;

/// How long the client pauses between tries to reach a starting daemon.
pub const DAEMON_POLL_INTERVAL_MS: u64 = 100;

/// The error of a daemon that did not start in time.
pub const DAEMON_START_TIMEOUT: &'static str = "Daemon failed to start within 5 seconds";

/// Whether the client gives up waiting for a starting daemon, `elapsed_ns`
/// nanoseconds after it began: once the deadline is passed, not when it is
/// just reached. Before that it tries to connect and, failing, pauses for
/// `DAEMON_POLL_INTERVAL_MS`.
pub fn daemon_wait_expired(elapsed_ns: u128) -> (b: bool)
    ensures
        b == (elapsed_ns > 5_000_000_000),
{
    elapsed_ns > DAEMON_START_DEADLINE_NS
}

/// Lengths and telling characters of the argument names, which show distinct
/// the names that one command sends.
proof fn arg_name_facts()
    ensures
        "url"@.len() == 3,
        "back"@.len() == 4,
        "forward"@.len() == 7,
        "reload"@.len() == 6,
        "output"@.len() == 6 && "output"@[0] == 'o',
        "format"@.len() == 6 && "format"@[0] == 'f',
        "full_page"@.len() == 9,
        "selector"@.len() == 8,
        "value"@.len() == 5,
        "width"@.len() == 5,
        "height"@.len() == 6 && "height"@[0] == 'h',
        "text"@.len() == 4,
        "timeout"@.len() == 7,
        "duration"@.len() == 8,
        "fps"@.len() == 3,
        "quality"@.len() == 7,
{
    reveal_strlit("url");
    reveal_strlit("back");
    reveal_strlit("forward");
    reveal_strlit("reload");
    reveal_strlit("output");
    reveal_strlit("format");
    reveal_strlit("full_page");
    reveal_strlit("selector");
    reveal_strlit("value");
    reveal_strlit("width");
    reveal_strlit("height");
    reveal_strlit("text");
    reveal_strlit("timeout");
    reveal_strlit("duration");
    reveal_strlit("fps");
    reveal_strlit("quality");
}

/// The daemon runs, for the request that the client builds from any command,
/// the very action that the client runs when it bypasses the daemon, and
/// treats the command as browser-level exactly when the client does.
pub proof fn lemma_daemon_runs_direct_action(c: Command<Seq<char>>, json: bool)
    ensures
        plan_spec(command_name(c), command_args(c), json) == Ok::<
            Action<Seq<char>>,
            CommandError<Seq<char>>,
        >(direct_action(c, json)),
        browser_level(command_name(c)) == is_browser_command(c),
{
    command_name_facts();
    arg_name_facts();
    reveal_with_fuel(crate::json::lookup, 7);
    let args = command_args(c);
    if args.len() > 0 {
        assert(args.drop_first().len() == args.len() - 1);
    }
    if args.len() > 1 {
        assert(args.drop_first()[0] == args[1]);
        assert(args.drop_first().drop_first().len() == args.len() - 2);
    }
    if args.len() > 2 {
        assert(args.drop_first().drop_first()[0] == args[2]);
        assert(args.drop_first().drop_first().drop_first().len() == args.len() - 3);
    }
    if args.len() > 3 {
        assert(args.drop_first().drop_first().drop_first()[0] == args[3]);
        assert(args.drop_first().drop_first().drop_first().drop_first().len() == args.len() - 4);
    }
    if args.len() > 4 {
        assert(args.drop_first().drop_first().drop_first().drop_first()[0] == args[4]);
        assert(args.drop_first().drop_first().drop_first().drop_first().drop_first().len()
            == args.len() - 5);
    }
    if args.len() > 5 {
        assert(args.drop_first().drop_first().drop_first().drop_first().drop_first()[0] == args[5]);
        assert(args.drop_first().drop_first().drop_first().drop_first().drop_first().drop_first().len()
            == args.len() - 6);
    }
}


/// The request that the client sends for a command names the command and
/// holds each of its values under the key of that value: the page to open or
/// navigate to under "url", the flags under "back", "forward", "reload" and
/// "full_page", the viewport's width under "width" and its height under
/// "height", the wait's timeout under "timeout", and so on; an absent optional
/// value is sent as `null`.
pub proof fn lemma_request_holds_command_fields(c: Command<Seq<char>>)
    ensures
        c matches Command::ListPages ==> command_name(c) == "list-pages"@,
        c matches Command::Navigate { url, back, forward, reload } ==> command_name(c) == "navigate"@
            && (url matches Some(u) ==> lookup(command_args(c), "url"@) == ArgValue::Text(u))
            && (url is None ==> lookup(command_args(c), "url"@) == ArgValue::<Seq<char>>::Null)
            && lookup(command_args(c), "back"@) == ArgValue::<Seq<char>>::Bool(back)
            && lookup(command_args(c), "forward"@) == ArgValue::<Seq<char>>::Bool(forward)
            && lookup(command_args(c), "reload"@) == ArgValue::<Seq<char>>::Bool(reload),
        c matches Command::NewPage { url } ==> command_name(c) == "new-page"@
            && lookup(command_args(c), "url"@) == ArgValue::Text(url),
        c matches Command::ClosePage { index } ==> command_name(c) == "close-page"@
            && lookup(command_args(c), "index"@) == ArgValue::<Seq<char>>::Number(index as u64),
        c matches Command::SelectPage { index } ==> command_name(c) == "select-page"@
            && lookup(command_args(c), "index"@) == ArgValue::<Seq<char>>::Number(index as u64),
        c matches Command::Screenshot { output, format, full_page } ==> command_name(c) == "screenshot"@
            && (output matches Some(o) ==> lookup(command_args(c), "output"@) == ArgValue::Text(o))
            && (output is None ==> lookup(command_args(c), "output"@) == ArgValue::<Seq<char>>::Null)
            && lookup(command_args(c), "format"@) == ArgValue::Text(format)
            && lookup(command_args(c), "full_page"@) == ArgValue::<Seq<char>>::Bool(full_page),
        c matches Command::Evaluate { expression } ==> command_name(c) == "evaluate"@
            && lookup(command_args(c), "expression"@) == ArgValue::Text(expression),
        c matches Command::Click { selector } ==> command_name(c) == "click"@
            && lookup(command_args(c), "selector"@) == ArgValue::Text(selector),
        c matches Command::Fill { selector, value } ==> command_name(c) == "fill"@
            && lookup(command_args(c), "selector"@) == ArgValue::Text(selector)
            && lookup(command_args(c), "value"@) == ArgValue::Text(value),
        c matches Command::TypeText { text } ==> command_name(c) == "type-text"@
            && lookup(command_args(c), "text"@) == ArgValue::Text(text),
        c matches Command::PressKey { key } ==> command_name(c) == "press-key"@
            && lookup(command_args(c), "key"@) == ArgValue::Text(key),
        c matches Command::Hover { selector } ==> command_name(c) == "hover"@
            && lookup(command_args(c), "selector"@) == ArgValue::Text(selector),
        c matches Command::Snapshot ==> command_name(c) == "snapshot"@,
        c matches Command::Resize { width, height } ==> command_name(c) == "resize"@
            && lookup(command_args(c), "width"@) == ArgValue::<Seq<char>>::Number(width as u64)
            && lookup(command_args(c), "height"@) == ArgValue::<Seq<char>>::Number(height as u64),
        c matches Command::WaitFor { text, timeout } ==> command_name(c) == "wait-for"@
            && lookup(command_args(c), "text"@) == ArgValue::Text(text)
            && lookup(command_args(c), "timeout"@) == ArgValue::<Seq<char>>::Number(timeout),
        c matches Command::RecordVideo { output, duration, fps, quality, width, height } ==> command_name(c)
            == "record-video"@
            && lookup(command_args(c), "output"@) == ArgValue::Text(output)
            && lookup(command_args(c), "duration"@) == ArgValue::<Seq<char>>::Number(duration)
            && lookup(command_args(c), "fps"@) == ArgValue::<Seq<char>>::Number(fps as u64)
            && lookup(command_args(c), "quality"@) == ArgValue::<Seq<char>>::Number(quality as u64)
            && (width matches Some(w) ==> lookup(command_args(c), "width"@) == ArgValue::<Seq<char>>::Number(w as u64))
            && (width is None ==> lookup(command_args(c), "width"@) == ArgValue::<Seq<char>>::Null)
            && (height matches Some(h) ==> lookup(command_args(c), "height"@) == ArgValue::<Seq<char>>::Number(h as u64))
            && (height is None ==> lookup(command_args(c), "height"@) == ArgValue::<Seq<char>>::Null),
{
    arg_name_facts();
    reveal_with_fuel(crate::json::lookup, 7);
    let args = command_args(c);
    if args.len() > 0 {
        assert(args.drop_first().len() == args.len() - 1);
    }
    if args.len() > 1 {
        assert(args.drop_first()[0] == args[1]);
        assert(args.drop_first().drop_first().len() == args.len() - 2);
    }
    if args.len() > 2 {
        assert(args.drop_first().drop_first()[0] == args[2]);
        assert(args.drop_first().drop_first().drop_first().len() == args.len() - 3);
    }
    if args.len() > 3 {
        assert(args.drop_first().drop_first().drop_first()[0] == args[3]);
        assert(args.drop_first().drop_first().drop_first().drop_first().len() == args.len() - 4);
    }
    if args.len() > 4 {
        assert(args.drop_first().drop_first().drop_first().drop_first()[0] == args[4]);
        assert(args.drop_first().drop_first().drop_first().drop_first().drop_first().len()
            == args.len() - 5);
    }
    if args.len() > 5 {
        assert(args.drop_first().drop_first().drop_first().drop_first().drop_first()[0] == args[5]);
        assert(args.drop_first().drop_first().drop_first().drop_first().drop_first().drop_first().len()
            == args.len() - 6);
    }
}

/// The action that the client runs itself carries the command's own values:
/// the navigation's target and flags, the screenshot's file, format and
/// extent, the viewport's width and height, the wait's text and timeout, the
/// recording's settings, and the output form asked for where the action has
/// one.
pub proof fn lemma_direct_action_holds_command_fields(c: Command<Seq<char>>, json: bool)
    ensures
        c matches Command::ListPages ==> direct_action(c, json) == (Action::<Seq<char>>::ListPages { json }),
        c matches Command::Navigate { url, back, forward, reload } ==> direct_action(c, json) == (
        Action::<Seq<char>>::Navigate { url, back, forward, reload }),
        c matches Command::NewPage { url } ==> direct_action(c, json) == (Action::<Seq<char>>::NewPage { url }),
        c matches Command::ClosePage { index } ==> direct_action(c, json) == (Action::<Seq<char>>::ClosePage {
            index,
        }),
        c matches Command::SelectPage { index } ==> direct_action(c, json) == (Action::<Seq<char>>::SelectPage {
            index,
        }),
        c matches Command::Screenshot { output, format, full_page } ==> direct_action(c, json) == (
        Action::<Seq<char>>::Screenshot { output, format, full_page }),
        c matches Command::Evaluate { expression } ==> direct_action(c, json) == (Action::<Seq<char>>::Evaluate {
            expression,
            json,
        }),
        c matches Command::Click { selector } ==> direct_action(c, json) == (Action::<Seq<char>>::Click {
            selector,
        }),
        c matches Command::Fill { selector, value } ==> direct_action(c, json) == (Action::<Seq<char>>::Fill {
            selector,
            value,
        }),
        c matches Command::TypeText { text } ==> direct_action(c, json) == (Action::<Seq<char>>::TypeText { text }),
        c matches Command::PressKey { key } ==> direct_action(c, json) == (Action::<Seq<char>>::PressKey { key }),
        c matches Command::Hover { selector } ==> direct_action(c, json) == (Action::<Seq<char>>::Hover {
            selector,
        }),
        c matches Command::Snapshot ==> direct_action(c, json) == (Action::<Seq<char>>::Snapshot { json }),
        c matches Command::Resize { width, height } ==> direct_action(c, json) == (Action::<Seq<char>>::Resize {
            width,
            height,
        }),
        c matches Command::WaitFor { text, timeout } ==> direct_action(c, json) == (Action::<Seq<char>>::WaitFor {
            text,
            timeout,
        }),
        c matches Command::RecordVideo { output, duration, fps, quality, width, height } ==> direct_action(c, json)
            == (Action::<Seq<char>>::RecordVideo {
            output,
            duration_secs: duration,
            fps,
            quality,
            max_width: width,
            max_height: height,
        }),
{
}


/// `--daemon-idle-timeout` takes precedence over the environment: when it is
/// given, the environment plays no part and the timeout is the option's, or
/// its refusal; without it, a set variable gives its timeout (or is refused
/// with its value), an unset one gives none, and an unreadable one is
/// reported.
pub proof fn lemma_option_overrides_environment(
    v: Seq<char>,
    env: EnvValue<Seq<char>>,
    other: EnvValue<Seq<char>>,
)
    ensures
        resolve_spec(Some(v), env) == resolve_spec(Some(v), other),
        parse_idle_timeout(v) matches Ok(t) ==> resolve_spec(Some(v), env) == Ok::<
            Option<DaemonIdleTimeout>,
            ResolveError<Seq<char>>,
        >(Some(t)),
        parse_idle_timeout(v) matches Err(e) ==> resolve_spec(Some(v), env) == Err::<
            Option<DaemonIdleTimeout>,
            ResolveError<Seq<char>>,
        >(ResolveError::InvalidCliValue(e)),
        parse_idle_timeout(v) matches Ok(t) ==> resolve_spec(None, EnvValue::Present(v)) == Ok::<
            Option<DaemonIdleTimeout>,
            ResolveError<Seq<char>>,
        >(Some(t)),
        parse_idle_timeout(v) matches Err(e) ==> resolve_spec(None, EnvValue::Present(v)) == Err::<
            Option<DaemonIdleTimeout>,
            ResolveError<Seq<char>>,
        >(ResolveError::InvalidEnvValue { value: v, error: e }),
        resolve_spec(None, EnvValue::NotPresent) == Ok::<Option<DaemonIdleTimeout>, ResolveError<Seq<char>>>(
            None,
        ),
        resolve_spec(None, EnvValue::Unreadable(v)) == Err::<
            Option<DaemonIdleTimeout>,
            ResolveError<Seq<char>>,
        >(ResolveError::EnvUnreadable(v)),
{
}


/// Printing an output writes nothing for an empty output, writes an output
/// that already ends a line as it is, and otherwise ends it with one newline;
/// printing what was printed writes it unchanged.
pub proof fn lemma_printed_output_ends_a_line(output: Seq<char>)
    ensures
        output.len() == 0 ==> printed_output(output).len() == 0,
        output.len() > 0 ==> printed_output(output).last() == '\n',
        output.len() > 0 && output.last() == '\n' ==> printed_output(output) == output,
        output.len() > 0 && output.last() != '\n' ==> printed_output(output) == output + seq!['\n'],
        printed_output(printed_output(output)) == printed_output(output),
{
    assert(output.push('\n') =~= output + seq!['\n']);
}

} // verus!
