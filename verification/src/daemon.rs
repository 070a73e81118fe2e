//! The daemon's life: the command line it is started with, what its accept
//! loop does with each event, and how it retries a request after a lost
//! browser connection.

use vstd::prelude::*;
use vstd::string::StringExecFns;

use crate::dispatch::{error_response, success_response};
use crate::protocol::{
    format_idle_timeout, lemma_parse_format_roundtrip, parse_idle_timeout, timeout_error_message,
    DaemonIdleTimeout, DaemonResponse, IdleTimeoutError,
};
use crate::text::{str_eq, strings_view};

verus! {

/// The first argument that starts the program as a daemon.
pub open spec fn daemon_flag() -> Seq<char> {
    "__daemon__"@
}

/// The arguments (after the program's path) that start a daemon for the
/// browser at `ws_url`: the timeout is passed as its text, when given.
pub open spec fn daemon_argv_spec(ws_url: Seq<char>, t: Option<DaemonIdleTimeout>) -> Seq<
    Seq<char>,
> {
    match t {
        Some(t) => seq![daemon_flag(), ws_url, format_idle_timeout(t)],
        None => seq![daemon_flag(), ws_url],
    }
}

/// The arguments that `spawn_daemon` starts the daemon process with.
pub fn daemon_argv(ws_url: &str, idle_timeout: Option<DaemonIdleTimeout>) -> (v: Vec<String>)
    ensures
        strings_view(v@) == daemon_argv_spec(ws_url@, idle_timeout),
{
    let mut v: Vec<String> = Vec::new();
    v.push(String::from_str("__daemon__"));
    v.push(String::from_str(ws_url));
    match idle_timeout {
        Some(t) => {
            v.push(t.to_string());
        },
        None => {},
    }
    assert(strings_view(v@) =~= daemon_argv_spec(ws_url@, idle_timeout));
    v
}

/// What the program's arguments ask for; `S` is the string type.
#[derive(Debug, Clone)]
pub enum DaemonArgs<S> {
    /// The program runs as the command-line client.
    NotDaemon,
    /// The program runs as a daemon for the browser at `ws_url`.
    Launch { ws_url: S, idle_timeout: Option<DaemonIdleTimeout> },
    /// The daemon flag is not followed by a browser address.
    MissingWsUrl,
    /// The timeout argument was refused.
    InvalidTimeout { raw: S, error: IdleTimeoutError<S> },
}

impl View for DaemonArgs<String> {
    type V = DaemonArgs<Seq<char>>;

    open spec fn view(&self) -> DaemonArgs<Seq<char>> {
        match self {
            DaemonArgs::NotDaemon => DaemonArgs::NotDaemon,
            DaemonArgs::Launch { ws_url, idle_timeout } => DaemonArgs::Launch {
                ws_url: ws_url@,
                idle_timeout: *idle_timeout,
            },
            DaemonArgs::MissingWsUrl => DaemonArgs::MissingWsUrl,
            DaemonArgs::InvalidTimeout { raw, error } => DaemonArgs::InvalidTimeout {
                raw: raw@,
                error: error@,
            },
        }
    }
}

/// What the program's arguments `args` (its path first) ask for.
pub open spec fn parse_daemon_argv_spec(args: Seq<Seq<char>>) -> DaemonArgs<Seq<char>> {
    if args.len() < 2 || args[1] != daemon_flag() {
        DaemonArgs::NotDaemon
    } else if args.len() < 3 {
        DaemonArgs::MissingWsUrl
    } else if args.len() < 4 {
        DaemonArgs::Launch { ws_url: args[2], idle_timeout: None }
    } else {
        match parse_idle_timeout(args[3]) {
            Ok(t) => DaemonArgs::Launch { ws_url: args[2], idle_timeout: Some(t) },
            Err(e) => DaemonArgs::InvalidTimeout { raw: args[3], error: e },
        }
    }
}

/// Whether the program runs as a daemon, and with what, given its arguments
/// (its path first).
pub fn parse_daemon_argv(args: &Vec<String>) -> (r: DaemonArgs<String>)
    ensures
        r@ == parse_daemon_argv_spec(strings_view(args@)),
{
    let ghost a = strings_view(args@);
    if args.len() < 2 {
        return DaemonArgs::NotDaemon;
    }
    assert(a[1] == args@[1]@);
    if !str_eq(args[1].as_str(), "__daemon__") {
        return DaemonArgs::NotDaemon;
    }
    if args.len() < 3 {
        return DaemonArgs::MissingWsUrl;
    }
    assert(a[2] == args@[2]@);
    let ws_url = args[2].clone();
    if args.len() < 4 {
        return DaemonArgs::Launch { ws_url, idle_timeout: None };
    }
    assert(a[3] == args@[3]@);
    match DaemonIdleTimeout::parse(args[3].as_str()) {
        Ok(t) => DaemonArgs::Launch { ws_url, idle_timeout: Some(t) },
        Err(e) => DaemonArgs::InvalidTimeout { raw: args[3].clone(), error: e },
    }
}

/// The text that a daemon started with a refused timeout prints before it exits.
pub open spec fn invalid_timeout_message(raw: Seq<char>, error: IdleTimeoutError<Seq<char>>) -> Seq<
    char,
> {
    "daemon error: invalid idle timeout '"@ + raw + "': "@ + timeout_error_message(error)
}

impl DaemonArgs<String> {
    /// The text that reports arguments that cannot start a daemon.
    pub fn message(&self) -> (m: String)
        ensures
            match self@ {
                DaemonArgs::MissingWsUrl => m@ == "daemon requires ws_url argument"@,
                DaemonArgs::InvalidTimeout { raw, error } => m@ == invalid_timeout_message(
                    raw,
                    error,
                ),
                _ => m@ == Seq::<char>::empty(),
            },
    {
        match self {
            DaemonArgs::MissingWsUrl => String::from_str("daemon requires ws_url argument"),
            DaemonArgs::InvalidTimeout { raw, error } => {
                let mut m = String::from_str("daemon error: invalid idle timeout '");
                m.append(raw.as_str());
                m.append("': ");
                let inner = error.message();
                m.append(inner.as_str());
                m
            },
            _ => String::new(),
        }
    }
}

/// A daemon reads back from its command line the browser address and the
/// idle timeout that the client started it with, for every timeout the client
/// can hold (`never` or a positive number of seconds).
pub proof fn lemma_daemon_argv_roundtrip(program: Seq<char>, ws_url: Seq<char>, t: Option<DaemonIdleTimeout>)
    requires
        t matches Some(DaemonIdleTimeout::Seconds(s)) ==> s > 0,
    ensures
        parse_daemon_argv_spec(seq![program] + daemon_argv_spec(ws_url, t))
            == (DaemonArgs::Launch::<Seq<char>> { ws_url, idle_timeout: t }),
{
    let args = seq![program] + daemon_argv_spec(ws_url, t);
    assert(args[1] == daemon_flag());
    assert(args[2] == ws_url);
    match t {
        Some(timeout) => {
            lemma_parse_format_roundtrip(timeout);
            assert(args[3] == format_idle_timeout(timeout));
        },
        None => {},
    }
}

/// What the daemon's accept loop meets; `S` is the string type.
#[derive(Debug, Clone)]
pub enum ServerEvent<S> {
    /// No client connected within the idle timeout.
    IdleTimeoutElapsed,
    /// Accepting a connection failed; holds the reason.
    AcceptFailed(S),
    /// Reading a request failed; holds the reason.
    ReadFailed(S),
    /// The request could not be decoded; holds the reason.
    InvalidRequest(S),
    /// A request arrived, asking for this idle timeout from now on, if any.
    Request(Option<DaemonIdleTimeout>),
}

/// What the daemon's accept loop does next.
#[derive(Debug, Clone)]
pub enum ServerAction {
    /// Stop, remove the socket and the pid file.
    Exit,
    /// Print the line to standard error and wait for the next client.
    Log(String),
    /// Send this response and wait for the next client.
    Reply(DaemonResponse),
    /// Run the request, send its response and wait for the next client.
    Handle,
}

/// The timeout a daemon starts with: the one it was given, else five minutes.
pub fn initial_idle_timeout(given: Option<DaemonIdleTimeout>) -> (t: DaemonIdleTimeout)
    ensures
        t == match given {
            Some(g) => g,
            None => DaemonIdleTimeout::Seconds(300),
        },
{
    match given {
        Some(g) => g,
        None => DaemonIdleTimeout::default_timeout(),
    }
}

/// One turn of the daemon's accept loop: the idle timeout it keeps and what it
/// does about `event`. A request that names a timeout replaces the current
/// one for the idle periods that follow.
pub fn server_step(idle: DaemonIdleTimeout, event: &ServerEvent<String>) -> (r: (
    DaemonIdleTimeout,
    ServerAction,
))
    ensures
        match event {
            ServerEvent::IdleTimeoutElapsed => r.0 == idle && r.1 is Exit,
            ServerEvent::AcceptFailed(e) => {
                &&& r.0 == idle
                &&& r.1 matches ServerAction::Log(m) && m@ == "daemon: accept error: "@ + e@
            },
            ServerEvent::ReadFailed(e) => {
                &&& r.0 == idle
                &&& r.1 matches ServerAction::Log(m) && m@ == "daemon: read error: "@ + e@
            },
            ServerEvent::InvalidRequest(e) => {
                &&& r.0 == idle
                &&& r.1 matches ServerAction::Reply(resp)
                &&& !resp.success
                &&& resp.output@ == Seq::<char>::empty()
                &&& resp.error@ == "Invalid request: "@ + e@
            },
            ServerEvent::Request(requested) => {
                &&& r.1 is Handle
                &&& r.0 == match requested {
                    Some(t) => *t,
                    None => idle,
                }
            },
        },
{
    match event {
        ServerEvent::IdleTimeoutElapsed => (idle, ServerAction::Exit),
        ServerEvent::AcceptFailed(e) => {
            let mut m = String::from_str("daemon: accept error: ");
            m.append(e.as_str());
            (idle, ServerAction::Log(m))
        },
        ServerEvent::ReadFailed(e) => {
            let mut m = String::from_str("daemon: read error: ");
            m.append(e.as_str());
            (idle, ServerAction::Log(m))
        },
        ServerEvent::InvalidRequest(e) => {
            let mut m = String::from_str("Invalid request: ");
            m.append(e.as_str());
            (idle, ServerAction::Reply(error_response(m)))
        },
        ServerEvent::Request(requested) => {
            let next = match requested {
                Some(t) => *t,
                None => idle,
            };
            (next, ServerAction::Handle)
        },
    }
}

/// Where the daemon stands in serving one request; `S` is the string type.
#[derive(Debug, Clone)]
pub enum HandleStage<S> {
    /// The command runs for the first time.
    FirstAttempt,
    /// The command failed on a lost connection, which the daemon re-opens.
    Reconnecting { first_error: S },
    /// The command runs again on the re-opened connection.
    Retried,
}

/// What running a command, or re-opening the browser connection, gave.
#[derive(Debug, Clone)]
pub enum HandleEvent<S> {
    /// The command succeeded with this output.
    Succeeded(S),
    /// The command failed; `retryable` tells whether the browser connection was lost.
    Failed { error: S, retryable: bool },
    /// The browser connection was re-opened.
    Reconnected,
    /// Re-opening the browser connection failed; holds the reason.
    ReconnectFailed(S),
}

/// What the daemon does next for the request.
#[derive(Debug, Clone)]
pub enum HandleAction {
    /// Send this response; the request is done.
    Reply(DaemonResponse),
    /// Re-open the browser connection.
    Reconnect,
    /// Run the command again.
    Retry,
}

/// Whether `event` can follow `stage`: a command's outcome follows a run of
/// it, a reconnection's outcome follows a reconnection.
pub open spec fn event_fits(stage: HandleStage<String>, event: HandleEvent<String>) -> bool {
    match stage {
        HandleStage::Reconnecting { .. } => event is Reconnected || event is ReconnectFailed,
        _ => event is Succeeded || event is Failed,
    }
}

/// The text that reports a failed reconnection after a lost connection.
pub open spec fn reconnect_failure_message(first_error: Seq<char>, reason: Seq<char>) -> Seq<char> {
    "failed to reconnect daemon browser session after retryable error: "@ + first_error + ": "@
        + reason
}

/// One step of serving a request: a success is answered with its output; a
/// failure on a lost connection, the first time only, makes the daemon
/// reconnect and run the command once more; every other failure is answered
/// with its text.
pub fn handle_step(stage: HandleStage<String>, event: HandleEvent<String>) -> (r: (
    HandleStage<String>,
    HandleAction,
))
    requires
        event_fits(stage, event),
    ensures
        match (stage, event) {
            (HandleStage::Reconnecting { first_error }, HandleEvent::Reconnected) => {
                &&& r.0 is Retried
                &&& r.1 is Retry
            },
            (HandleStage::Reconnecting { first_error }, HandleEvent::ReconnectFailed(reason)) => {
                &&& r.1 matches HandleAction::Reply(resp)
                &&& !resp.success
                &&& resp.output@ == Seq::<char>::empty()
                &&& resp.error@ == reconnect_failure_message(first_error@, reason@)
            },
            (HandleStage::FirstAttempt, HandleEvent::Failed { error, retryable: true }) => {
                &&& r.0 matches HandleStage::Reconnecting { first_error }
                &&& first_error@ == error@
                &&& r.1 is Reconnect
            },
            (_, HandleEvent::Succeeded(output)) => {
                &&& r.1 matches HandleAction::Reply(resp)
                &&& resp.success
                &&& resp.output@ == output@
                &&& resp.error@ == Seq::<char>::empty()
            },
            (_, HandleEvent::Failed { error, retryable }) => {
                &&& r.1 matches HandleAction::Reply(resp)
                &&& !resp.success
                &&& resp.output@ == Seq::<char>::empty()
                &&& resp.error@ == error@
            },
            _ => false,
        },
{
    match stage {
        HandleStage::Reconnecting { first_error } => match event {
            HandleEvent::Reconnected => (HandleStage::Retried, HandleAction::Retry),
            HandleEvent::ReconnectFailed(reason) => {
                let mut m = String::from_str(
                    "failed to reconnect daemon browser session after retryable error: ",
                );
                m.append(first_error.as_str());
                m.append(": ");
                m.append(reason.as_str());
                (HandleStage::Retried, HandleAction::Reply(error_response(m)))
            },
            _ => (HandleStage::Retried, HandleAction::Retry),
        },
        HandleStage::FirstAttempt => match event {
            HandleEvent::Succeeded(output) => (
                HandleStage::FirstAttempt,
                HandleAction::Reply(success_response(output)),
            ),
            HandleEvent::Failed { error, retryable } => {
                if retryable {
                    (HandleStage::Reconnecting { first_error: error }, HandleAction::Reconnect)
                } else {
                    (HandleStage::FirstAttempt, HandleAction::Reply(error_response(error)))
                }
            },
            _ => (HandleStage::FirstAttempt, HandleAction::Retry),
        },
        HandleStage::Retried => match event {
            HandleEvent::Succeeded(output) => (
                HandleStage::Retried,
                HandleAction::Reply(success_response(output)),
            ),
            HandleEvent::Failed { error, retryable } => (
                HandleStage::Retried,
                HandleAction::Reply(error_response(error)),
            ),
            _ => (HandleStage::Retried, HandleAction::Retry),
        },
    }
}


/// A daemon is started with the daemon flag first, the browser's address
/// second and, only when a timeout is given, the timeout's text third.
pub proof fn lemma_daemon_argv_order(ws_url: Seq<char>, t: Option<DaemonIdleTimeout>)
    ensures
        daemon_argv_spec(ws_url, t)[0] == "__daemon__"@,
        daemon_argv_spec(ws_url, t)[1] == ws_url,
        t is None ==> daemon_argv_spec(ws_url, t).len() == 2,
        t matches Some(x) ==> daemon_argv_spec(ws_url, t).len() == 3 && daemon_argv_spec(ws_url, t)[2]
            == format_idle_timeout(x),
{
}

} // verus!
