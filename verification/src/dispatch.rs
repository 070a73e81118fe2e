//! The daemon's side of a request: which browser action a command name and
//! its arguments ask for, and the response that reports an outcome.

use vstd::prelude::*;
use vstd::string::StringExecFns;

use crate::json::{arg_bool, arg_str, arg_u64, lookup, opt_string_view, ArgValue, JsonObject};
use crate::protocol::DaemonResponse;
use crate::text::str_eq;

verus! {

/// A browser action; `S` is the string type.
#[derive(Debug, Clone)]
pub enum Action<S> {
    ListPages { json: bool },
    NewPage { url: S },
    ClosePage { index: usize },
    SelectPage { index: usize },
    Navigate { url: Option<S>, back: bool, forward: bool, reload: bool },
    Screenshot { output: Option<S>, format: S, full_page: bool },
    Evaluate { expression: S, json: bool },
    Click { selector: S },
    Fill { selector: S, value: S },
    TypeText { text: S },
    PressKey { key: S },
    Hover { selector: S },
    Snapshot { json: bool },
    Resize { width: u32, height: u32 },
    WaitFor { text: S, timeout: u64 },
    RecordVideo {
        output: S,
        duration_secs: u64,
        fps: u32,
        quality: u32,
        max_width: Option<u32>,
        max_height: Option<u32>,
    },
}

impl View for Action<String> {
    type V = Action<Seq<char>>;

    open spec fn view(&self) -> Action<Seq<char>> {
        match self {
            Action::ListPages { json } => Action::ListPages { json: *json },
            Action::NewPage { url } => Action::NewPage { url: url@ },
            Action::ClosePage { index } => Action::ClosePage { index: *index },
            Action::SelectPage { index } => Action::SelectPage { index: *index },
            Action::Navigate { url, back, forward, reload } => Action::Navigate {
                url: opt_string_view(*url),
                back: *back,
                forward: *forward,
                reload: *reload,
            },
            Action::Screenshot { output, format, full_page } => Action::Screenshot {
                output: opt_string_view(*output),
                format: format@,
                full_page: *full_page,
            },
            Action::Evaluate { expression, json } => Action::Evaluate {
                expression: expression@,
                json: *json,
            },
            Action::Click { selector } => Action::Click { selector: selector@ },
            Action::Fill { selector, value } => Action::Fill { selector: selector@, value: value@ },
            Action::TypeText { text } => Action::TypeText { text: text@ },
            Action::PressKey { key } => Action::PressKey { key: key@ },
            Action::Hover { selector } => Action::Hover { selector: selector@ },
            Action::Snapshot { json } => Action::Snapshot { json: *json },
            Action::Resize { width, height } => Action::Resize { width: *width, height: *height },
            Action::WaitFor { text, timeout } => Action::WaitFor { text: text@, timeout: *timeout },
            Action::RecordVideo { output, duration_secs, fps, quality, max_width, max_height } =>
                Action::RecordVideo {
                output: output@,
                duration_secs: *duration_secs,
                fps: *fps,
                quality: *quality,
                max_width: *max_width,
                max_height: *max_height,
            },
        }
    }
}

/// Why the daemon refuses a command before running it.
#[derive(Debug, Clone)]
pub enum CommandError<S> {
    /// A required argument is missing or has the wrong type; holds its name.
    MissingArgument(S),
    /// No command has this name; holds the name.
    UnknownCommand(S),
}

impl View for CommandError<String> {
    type V = CommandError<Seq<char>>;

    open spec fn view(&self) -> CommandError<Seq<char>> {
        match self {
            CommandError::MissingArgument(s) => CommandError::MissingArgument(s@),
            CommandError::UnknownCommand(s) => CommandError::UnknownCommand(s@),
        }
    }
}

pub open spec fn plan_result_view(r: Result<Action<String>, CommandError<String>>) -> Result<
    Action<Seq<char>>,
    CommandError<Seq<char>>,
> {
    match r {
        Ok(a) => Ok(a@),
        Err(e) => Err(e@),
    }
}

/// The commands that act on the browser as a whole rather than on one page.
pub open spec fn browser_level(cmd: Seq<char>) -> bool {
    ||| cmd == "list-pages"@
    ||| cmd == "new-page"@
    ||| cmd == "close-page"@
    ||| cmd == "select-page"@
}

/// A number that must fit in 32 bits: larger numbers become `u32::MAX`, so
/// that a bound checked later still refuses them.
pub open spec fn saturate_u32(n: u64) -> u32 {
    if n > u32::MAX {
        u32::MAX
    } else {
        n as u32
    }
}

/// `args[key]` as a 32-bit number, absent when it is no unsigned integer.
pub open spec fn arg_u32(args: Seq<(Seq<char>, crate::json::ArgValue<Seq<char>>)>, key: Seq<char>) -> Option<u32> {
    match arg_u64(args, key) {
        Some(n) => Some(saturate_u32(n)),
        None => None,
    }
}

pub open spec fn missing(name: Seq<char>) -> Result<Action<Seq<char>>, CommandError<Seq<char>>> {
    Err(CommandError::MissingArgument(name))
}

/// The action that the daemon runs for command `cmd` with arguments `args`;
/// `json` asks for machine-readable output.
pub open spec fn plan_spec(
    cmd: Seq<char>,
    args: Seq<(Seq<char>, crate::json::ArgValue<Seq<char>>)>,
    json: bool,
) -> Result<Action<Seq<char>>, CommandError<Seq<char>>> {
    if cmd == "list-pages"@ {
        Ok(Action::ListPages { json })
    } else if cmd == "new-page"@ {
        match arg_str(args, "url"@) {
            Some(url) => Ok(Action::NewPage { url }),
            None => missing("url"@),
        }
    } else if cmd == "close-page"@ {
        match arg_u64(args, "index"@) {
            Some(i) => Ok(Action::ClosePage { index: i as usize }),
            None => missing("index"@),
        }
    } else if cmd == "select-page"@ {
        match arg_u64(args, "index"@) {
            Some(i) => Ok(Action::SelectPage { index: i as usize }),
            None => missing("index"@),
        }
    } else if cmd == "navigate"@ {
        Ok(
            Action::Navigate {
                url: arg_str(args, "url"@),
                back: arg_bool(args, "back"@).unwrap_or(false),
                forward: arg_bool(args, "forward"@).unwrap_or(false),
                reload: arg_bool(args, "reload"@).unwrap_or(false),
            },
        )
    } else if cmd == "screenshot"@ {
        Ok(
            Action::Screenshot {
                output: arg_str(args, "output"@),
                format: arg_str(args, "format"@).unwrap_or("png"@),
                full_page: arg_bool(args, "full_page"@).unwrap_or(false),
            },
        )
    } else if cmd == "evaluate"@ {
        match arg_str(args, "expression"@) {
            Some(expression) => Ok(Action::Evaluate { expression, json }),
            None => missing("expression"@),
        }
    } else if cmd == "click"@ {
        match arg_str(args, "selector"@) {
            Some(selector) => Ok(Action::Click { selector }),
            None => missing("selector"@),
        }
    } else if cmd == "fill"@ {
        match arg_str(args, "selector"@) {
            Some(selector) => match arg_str(args, "value"@) {
                Some(value) => Ok(Action::Fill { selector, value }),
                None => missing("value"@),
            },
            None => missing("selector"@),
        }
    } else if cmd == "type-text"@ {
        match arg_str(args, "text"@) {
            Some(text) => Ok(Action::TypeText { text }),
            None => missing("text"@),
        }
    } else if cmd == "press-key"@ {
        match arg_str(args, "key"@) {
            Some(key) => Ok(Action::PressKey { key }),
            None => missing("key"@),
        }
    } else if cmd == "hover"@ {
        match arg_str(args, "selector"@) {
            Some(selector) => Ok(Action::Hover { selector }),
            None => missing("selector"@),
        }
    } else if cmd == "snapshot"@ {
        Ok(Action::Snapshot { json })
    } else if cmd == "resize"@ {
        match arg_u64(args, "width"@) {
            Some(w) => match arg_u64(args, "height"@) {
                Some(h) => Ok(Action::Resize { width: w as u32, height: h as u32 }),
                None => missing("height"@),
            },
            None => missing("width"@),
        }
    } else if cmd == "wait-for"@ {
        match arg_str(args, "text"@) {
            Some(text) => Ok(
                Action::WaitFor { text, timeout: arg_u64(args, "timeout"@).unwrap_or(30000) },
            ),
            None => missing("text"@),
        }
    } else if cmd == "record-video"@ {
        match arg_str(args, "output"@) {
            Some(output) => Ok(
                Action::RecordVideo {
                    output,
                    duration_secs: arg_u64(args, "duration"@).unwrap_or(5),
                    fps: arg_u32(args, "fps"@).unwrap_or(12),
                    quality: arg_u32(args, "quality"@).unwrap_or(80),
                    max_width: arg_u32(args, "width"@),
                    max_height: arg_u32(args, "height"@),
                },
            ),
            None => missing("output"@),
        }
    } else {
        Err(CommandError::UnknownCommand(cmd))
    }
}

fn get_u32(args: &JsonObject, key: &str) -> (r: Option<u32>)
    ensures
        r == arg_u32(args@, key@),
{
    match args.get_u64(key) {
        Some(n) => if n > 0xffff_ffff {
            Some(u32::MAX)
        } else {
            Some(n as u32)
        },
        None => None,
    }
}

/// Whether `cmd` acts on the browser as a whole: such commands run without
/// first attaching to a page.
pub fn is_browser_level(cmd: &str) -> (b: bool)
    ensures
        b == browser_level(cmd@),
{
    str_eq(cmd, "list-pages") || str_eq(cmd, "new-page") || str_eq(cmd, "close-page") || str_eq(
        cmd,
        "select-page",
    )
}

fn missing_argument(name: &str) -> (r: Result<Action<String>, CommandError<String>>)
    ensures
        plan_result_view(r) == missing(name@),
{
    Err(CommandError::MissingArgument(String::from_str(name)))
}

/// The action that the daemon runs for `cmd` with `args`, or why it refuses
/// the command. A page-level command is refused only after the daemon has
/// attached to its page.
pub fn plan_command(cmd: &str, args: &JsonObject, json: bool) -> (r: Result<
    Action<String>,
    CommandError<String>,
>)
    ensures
        plan_result_view(r) == plan_spec(cmd@, args@, json),
{
    if str_eq(cmd, "list-pages") {
        Ok(Action::ListPages { json })
    } else if str_eq(cmd, "new-page") {
        match args.get_str("url") {
            Some(url) => Ok(Action::NewPage { url }),
            None => missing_argument("url"),
        }
    } else if str_eq(cmd, "close-page") {
        match args.get_u64("index") {
            Some(i) => Ok(Action::ClosePage { index: i as usize }),
            None => missing_argument("index"),
        }
    } else if str_eq(cmd, "select-page") {
        match args.get_u64("index") {
            Some(i) => Ok(Action::SelectPage { index: i as usize }),
            None => missing_argument("index"),
        }
    } else if str_eq(cmd, "navigate") {
        let url = args.get_str("url");
        let back = match args.get_bool("back") {
            Some(b) => b,
            None => false,
        };
        let forward = match args.get_bool("forward") {
            Some(b) => b,
            None => false,
        };
        let reload = match args.get_bool("reload") {
            Some(b) => b,
            None => false,
        };
        Ok(Action::Navigate { url, back, forward, reload })
    } else if str_eq(cmd, "screenshot") {
        let output = args.get_str("output");
        let format = match args.get_str("format") {
            Some(f) => f,
            None => String::from_str("png"),
        };
        let full_page = match args.get_bool("full_page") {
            Some(b) => b,
            None => false,
        };
        Ok(Action::Screenshot { output, format, full_page })
    } else if str_eq(cmd, "evaluate") {
        match args.get_str("expression") {
            Some(expression) => Ok(Action::Evaluate { expression, json }),
            None => missing_argument("expression"),
        }
    } else if str_eq(cmd, "click") {
        match args.get_str("selector") {
            Some(selector) => Ok(Action::Click { selector }),
            None => missing_argument("selector"),
        }
    } else if str_eq(cmd, "fill") {
        match args.get_str("selector") {
            Some(selector) => match args.get_str("value") {
                Some(value) => Ok(Action::Fill { selector, value }),
                None => missing_argument("value"),
            },
            None => missing_argument("selector"),
        }
    } else if str_eq(cmd, "type-text") {
        match args.get_str("text") {
            Some(text) => Ok(Action::TypeText { text }),
            None => missing_argument("text"),
        }
    } else if str_eq(cmd, "press-key") {
        match args.get_str("key") {
            Some(key) => Ok(Action::PressKey { key }),
            None => missing_argument("key"),
        }
    } else if str_eq(cmd, "hover") {
        match args.get_str("selector") {
            Some(selector) => Ok(Action::Hover { selector }),
            None => missing_argument("selector"),
        }
    } else if str_eq(cmd, "snapshot") {
        Ok(Action::Snapshot { json })
    } else if str_eq(cmd, "resize") {
        match args.get_u64("width") {
            Some(w) => match args.get_u64("height") {
                Some(h) => Ok(Action::Resize { width: w as u32, height: h as u32 }),
                None => missing_argument("height"),
            },
            None => missing_argument("width"),
        }
    } else if str_eq(cmd, "wait-for") {
        match args.get_str("text") {
            Some(text) => {
                let timeout = match args.get_u64("timeout") {
                    Some(t) => t,
                    None => 30000,
                };
                Ok(Action::WaitFor { text, timeout })
            },
            None => missing_argument("text"),
        }
    } else if str_eq(cmd, "record-video") {
        match args.get_str("output") {
            Some(output) => {
                let duration_secs = match args.get_u64("duration") {
                    Some(d) => d,
                    None => 5,
                };
                let fps = match get_u32(args, "fps") {
                    Some(f) => f,
                    None => 12,
                };
                let quality = match get_u32(args, "quality") {
                    Some(q) => q,
                    None => 80,
                };
                let max_width = get_u32(args, "width");
                let max_height = get_u32(args, "height");
                Ok(Action::RecordVideo { output, duration_secs, fps, quality, max_width, max_height })
            },
            None => missing_argument("output"),
        }
    } else {
        Err(CommandError::UnknownCommand(String::from_str(cmd)))
    }
}

/// The text of a refusal.
pub open spec fn command_error_message(e: CommandError<Seq<char>>) -> Seq<char> {
    match e {
        CommandError::MissingArgument(name) => name + " required"@,
        CommandError::UnknownCommand(cmd) => "Unknown command: "@ + cmd,
    }
}

impl CommandError<String> {
    /// Whether the daemon gives up on a page-level command without detaching
    /// from its page: it does for a missing argument, found while it runs the
    /// command; an unknown command runs to its end, detachment included.
    pub fn skips_detach(&self) -> (b: bool)
        ensures
            b == (self@ is MissingArgument),
    {
        match self {
            CommandError::MissingArgument(_) => true,
            CommandError::UnknownCommand(_) => false,
        }
    }

    /// The text of the refusal, as the daemon reports it.
    pub fn message(&self) -> (m: String)
        ensures
            m@ == command_error_message(self@),
    {
        match self {
            CommandError::MissingArgument(name) => {
                let mut m = name.clone();
                m.append(" required");
                m
            },
            CommandError::UnknownCommand(cmd) => {
                let mut m = String::from_str("Unknown command: ");
                m.append(cmd.as_str());
                m
            },
        }
    }
}

/// The response that reports a command's output.
pub fn success_response(output: String) -> (r: DaemonResponse)
    ensures
        r.success,
        r.output@ == output@,
        r.error@ == Seq::<char>::empty(),
{
    DaemonResponse { success: true, output, error: String::new() }
}

/// The response that reports a failure with the text `error`.
pub fn error_response(error: String) -> (r: DaemonResponse)
    ensures
        !r.success,
        r.output@ == Seq::<char>::empty(),
        r.error@ == error@,
{
    DaemonResponse { success: false, output: String::new(), error }
}

/// A page-level command's output followed by the line that names the page it
/// ran on, so that later commands can pin that page.
pub fn with_target_line(output: String, name: &str) -> (r: String)
    ensures
        r@ == output@ + "\n[target:"@ + name@ + "]"@,
{
    let mut r = output;
    r.append("\n[target:");
    r.append(name);
    r.append("]");
    r
}

/// Lengths and telling characters of the command names, which show them distinct.
pub(crate) proof fn command_name_facts()
    ensures
        "list-pages"@.len() == 10 && "list-pages"@[0] == 'l',
        "navigate"@.len() == 8 && "navigate"@[0] == 'n' && "navigate"@[1] == 'a',
        "new-page"@.len() == 8 && "new-page"@[0] == 'n' && "new-page"@[1] == 'e',
        "close-page"@.len() == 10 && "close-page"@[0] == 'c',
        "select-page"@.len() == 11,
        "screenshot"@.len() == 10 && "screenshot"@[0] == 's',
        "evaluate"@.len() == 8 && "evaluate"@[0] == 'e',
        "click"@.len() == 5 && "click"@[0] == 'c',
        "fill"@.len() == 4,
        "type-text"@.len() == 9 && "type-text"@[0] == 't',
        "press-key"@.len() == 9 && "press-key"@[0] == 'p',
        "hover"@.len() == 5 && "hover"@[0] == 'h',
        "snapshot"@.len() == 8 && "snapshot"@[0] == 's',
        "resize"@.len() == 6,
        "wait-for"@.len() == 8 && "wait-for"@[0] == 'w',
        "record-video"@.len() == 12,
{
    reveal_strlit("list-pages");
    reveal_strlit("navigate");
    reveal_strlit("new-page");
    reveal_strlit("close-page");
    reveal_strlit("select-page");
    reveal_strlit("screenshot");
    reveal_strlit("evaluate");
    reveal_strlit("click");
    reveal_strlit("fill");
    reveal_strlit("type-text");
    reveal_strlit("press-key");
    reveal_strlit("hover");
    reveal_strlit("snapshot");
    reveal_strlit("resize");
    reveal_strlit("wait-for");
    reveal_strlit("record-video");
}


/// The daemon navigates as the request asks: to `args["url"]` when it is a
/// string, back, forward or with a reload exactly when `args["back"]`,
/// `args["forward"]` or `args["reload"]` is `true` (an absent or non-boolean
/// flag counts as `false`).
pub proof fn lemma_plan_navigate_reads_arguments(
    args: Seq<(Seq<char>, ArgValue<Seq<char>>)>,
    json: bool,
)
    ensures
        plan_spec("navigate"@, args, json) matches Ok(Action::Navigate { url, back, forward, reload })
            && (back <==> lookup(args, "back"@) == ArgValue::<Seq<char>>::Bool(true))
            && (forward <==> lookup(args, "forward"@) == ArgValue::<Seq<char>>::Bool(true))
            && (reload <==> lookup(args, "reload"@) == ArgValue::<Seq<char>>::Bool(true))
            && (url is Some <==> lookup(args, "url"@) is Text)
            && (lookup(args, "url"@) matches ArgValue::Text(u) ==> url == Some(u)),
{
    command_name_facts();
}

/// The daemon takes the screenshot that the request asks for: into
/// `args["output"]` when it is a string, in the format `args["format"]` (PNG
/// when it is no string), of the whole page exactly when `args["full_page"]`
/// is `true`.
pub proof fn lemma_plan_screenshot_reads_arguments(
    args: Seq<(Seq<char>, ArgValue<Seq<char>>)>,
    json: bool,
)
    ensures
        plan_spec("screenshot"@, args, json) matches Ok(Action::Screenshot { output, format, full_page })
            && (full_page <==> lookup(args, "full_page"@) == ArgValue::<Seq<char>>::Bool(true))
            && (output is Some <==> lookup(args, "output"@) is Text)
            && (lookup(args, "output"@) matches ArgValue::Text(o) ==> output == Some(o))
            && (lookup(args, "format"@) matches ArgValue::Text(f) ==> format == f)
            && (!(lookup(args, "format"@) is Text) ==> format == "png"@),
{
    command_name_facts();
}

/// The daemon resizes the viewport to `args["width"]` by `args["height"]`
/// (each cut to 32 bits), and refuses a request that lacks either number,
/// naming the width first.
pub proof fn lemma_plan_resize_reads_arguments(
    args: Seq<(Seq<char>, ArgValue<Seq<char>>)>,
    json: bool,
)
    ensures
        lookup(args, "width"@) matches ArgValue::Number(w) ==> (lookup(args, "height"@) matches ArgValue::Number(h)
            ==> plan_spec("resize"@, args, json) == Ok::<Action<Seq<char>>, CommandError<Seq<char>>>(
                Action::Resize { width: w as u32, height: h as u32 },
            )),
        !(lookup(args, "width"@) is Number) ==> plan_spec("resize"@, args, json) == Err::<
            Action<Seq<char>>,
            CommandError<Seq<char>>,
        >(CommandError::MissingArgument("width"@)),
        lookup(args, "width"@) is Number && !(lookup(args, "height"@) is Number) ==> plan_spec(
            "resize"@,
            args,
            json,
        ) == Err::<Action<Seq<char>>, CommandError<Seq<char>>>(CommandError::MissingArgument("height"@)),
{
    command_name_facts();
}

/// The daemon waits for `args["text"]` for `args["timeout"]` milliseconds when
/// that is an unsigned integer, else for 30000; without a text it refuses.
pub proof fn lemma_plan_wait_for_reads_arguments(
    args: Seq<(Seq<char>, ArgValue<Seq<char>>)>,
    json: bool,
)
    ensures
        lookup(args, "text"@) matches ArgValue::Text(t) ==> (plan_spec("wait-for"@, args, json) matches Ok(
            Action::WaitFor { text, timeout },
        ) && text == t && (lookup(args, "timeout"@) matches ArgValue::Number(n) ==> timeout == n) && (!(
        lookup(args, "timeout"@) is Number) ==> timeout == 30000)),
        !(lookup(args, "text"@) is Text) ==> plan_spec("wait-for"@, args, json) == Err::<
            Action<Seq<char>>,
            CommandError<Seq<char>>,
        >(CommandError::MissingArgument("text"@)),
{
    command_name_facts();
}


/// The daemon records into `args["output"]` for `args["duration"]` seconds
/// (5 when absent), at `args["fps"]` frames per second (12 when absent) and
/// JPEG quality `args["quality"]` (80 when absent), capped to `args["width"]`
/// by `args["height"]` where given; numbers beyond 32 bits become
/// `u32::MAX`, which the recorder then refuses. Without an output it refuses.
pub proof fn lemma_plan_record_video_reads_arguments(
    args: Seq<(Seq<char>, ArgValue<Seq<char>>)>,
    json: bool,
)
    ensures
        lookup(args, "output"@) matches ArgValue::Text(o) ==> (plan_spec("record-video"@, args, json) matches Ok(
            Action::RecordVideo { output, duration_secs, fps, quality, max_width, max_height },
        ) && output == o
            && (lookup(args, "duration"@) matches ArgValue::Number(n) ==> duration_secs == n)
            && (!(lookup(args, "duration"@) is Number) ==> duration_secs == 5)
            && (lookup(args, "fps"@) matches ArgValue::Number(n) ==> (n <= u32::MAX ==> fps == n)
                && (n > u32::MAX ==> fps == u32::MAX))
            && (!(lookup(args, "fps"@) is Number) ==> fps == 12)
            && (lookup(args, "quality"@) matches ArgValue::Number(n) ==> (n <= u32::MAX ==> quality == n)
                && (n > u32::MAX ==> quality == u32::MAX))
            && (!(lookup(args, "quality"@) is Number) ==> quality == 80)
            && (max_width is Some <==> lookup(args, "width"@) is Number)
            && (lookup(args, "width"@) matches ArgValue::Number(n) ==> (n <= u32::MAX ==> max_width == Some(n as u32))
                && (n > u32::MAX ==> max_width == Some(u32::MAX)))
            && (max_height is Some <==> lookup(args, "height"@) is Number)
            && (lookup(args, "height"@) matches ArgValue::Number(n) ==> (n <= u32::MAX ==> max_height == Some(n as u32))
                && (n > u32::MAX ==> max_height == Some(u32::MAX)))),
        !(lookup(args, "output"@) is Text) ==> plan_spec("record-video"@, args, json) == Err::<
            Action<Seq<char>>,
            CommandError<Seq<char>>,
        >(CommandError::MissingArgument("output"@)),
{
    command_name_facts();
}

/// The daemon's page actions that take one string each read it from the
/// request under its own name, and refuse the request that lacks it; `fill`
/// asks for the selector before the value.
pub proof fn lemma_plan_text_commands_read_arguments(
    args: Seq<(Seq<char>, ArgValue<Seq<char>>)>,
    json: bool,
)
    ensures
        lookup(args, "expression"@) matches ArgValue::Text(e) ==> plan_spec("evaluate"@, args, json) == Ok::<
            Action<Seq<char>>,
            CommandError<Seq<char>>,
        >(Action::Evaluate { expression: e, json }),
        !(lookup(args, "expression"@) is Text) ==> plan_spec("evaluate"@, args, json) == Err::<
            Action<Seq<char>>,
            CommandError<Seq<char>>,
        >(CommandError::MissingArgument("expression"@)),
        lookup(args, "selector"@) matches ArgValue::Text(s) ==> plan_spec("click"@, args, json) == Ok::<
            Action<Seq<char>>,
            CommandError<Seq<char>>,
        >(Action::Click { selector: s }),
        lookup(args, "selector"@) matches ArgValue::Text(s) ==> plan_spec("hover"@, args, json) == Ok::<
            Action<Seq<char>>,
            CommandError<Seq<char>>,
        >(Action::Hover { selector: s }),
        lookup(args, "selector"@) matches ArgValue::Text(s) ==> (lookup(args, "value"@) matches ArgValue::Text(v)
            ==> plan_spec("fill"@, args, json) == Ok::<Action<Seq<char>>, CommandError<Seq<char>>>(
            Action::Fill { selector: s, value: v },
        )),
        !(lookup(args, "selector"@) is Text) ==> plan_spec("fill"@, args, json) == Err::<
            Action<Seq<char>>,
            CommandError<Seq<char>>,
        >(CommandError::MissingArgument("selector"@)),
        lookup(args, "selector"@) is Text && !(lookup(args, "value"@) is Text) ==> plan_spec("fill"@, args, json)
            == Err::<Action<Seq<char>>, CommandError<Seq<char>>>(CommandError::MissingArgument("value"@)),
        lookup(args, "text"@) matches ArgValue::Text(t) ==> plan_spec("type-text"@, args, json) == Ok::<
            Action<Seq<char>>,
            CommandError<Seq<char>>,
        >(Action::TypeText { text: t }),
        lookup(args, "key"@) matches ArgValue::Text(k) ==> plan_spec("press-key"@, args, json) == Ok::<
            Action<Seq<char>>,
            CommandError<Seq<char>>,
        >(Action::PressKey { key: k }),
        lookup(args, "url"@) matches ArgValue::Text(u) ==> plan_spec("new-page"@, args, json) == Ok::<
            Action<Seq<char>>,
            CommandError<Seq<char>>,
        >(Action::NewPage { url: u }),
{
    command_name_facts();
}

/// The daemon closes or selects the page numbered `args["index"]`, lists the
/// pages and snapshots the page with the requested output form, and refuses a
/// command it does not know by its name.
pub proof fn lemma_plan_other_commands_read_arguments(
    cmd: Seq<char>,
    args: Seq<(Seq<char>, ArgValue<Seq<char>>)>,
    json: bool,
)
    ensures
        lookup(args, "index"@) matches ArgValue::Number(i) ==> plan_spec("close-page"@, args, json) == Ok::<
            Action<Seq<char>>,
            CommandError<Seq<char>>,
        >(Action::ClosePage { index: i as usize }),
        lookup(args, "index"@) matches ArgValue::Number(i) ==> plan_spec("select-page"@, args, json) == Ok::<
            Action<Seq<char>>,
            CommandError<Seq<char>>,
        >(Action::SelectPage { index: i as usize }),
        plan_spec("list-pages"@, args, json) == Ok::<Action<Seq<char>>, CommandError<Seq<char>>>(
            Action::ListPages { json },
        ),
        plan_spec("snapshot"@, args, json) == Ok::<Action<Seq<char>>, CommandError<Seq<char>>>(
            Action::Snapshot { json },
        ),
        cmd != "list-pages"@ && cmd != "new-page"@ && cmd != "close-page"@ && cmd != "select-page"@
            && cmd != "navigate"@ && cmd != "screenshot"@ && cmd != "evaluate"@ && cmd != "click"@
            && cmd != "fill"@ && cmd != "type-text"@ && cmd != "press-key"@ && cmd != "hover"@
            && cmd != "snapshot"@ && cmd != "resize"@ && cmd != "wait-for"@ && cmd != "record-video"@
            ==> plan_spec(cmd, args, json) == Err::<Action<Seq<char>>, CommandError<Seq<char>>>(
            CommandError::UnknownCommand(cmd),
        ),
{
    command_name_facts();
}

} // verus!
