//! What the command-line client and the daemon exchange: the daemon's idle
//! timeout, requests and responses.

use std::time::Duration;
use vstd::prelude::*;
use vstd::string::StringExecFns;

use crate::json::JsonObject;
use crate::text::{
    all_digits, chars_of, copy_range, decimal, digit_prefix_len, digits_to_u64, digits_value,
    is_ascii_digit, is_ascii_upper, lemma_decimal, lemma_digit_prefix_len_push, lemma_lower_noop,
    lemma_trim_noop, lower_all, lower_chars, string_of, trim, trim_chars, u64_decimal,
    char_is_ascii_digit,
};

verus! {

/// The environment variable that supplies a default idle timeout.
pub const DAEMON_IDLE_TIMEOUT_ENV: &'static str = "CHROME_DEVTOOLS_DAEMON_IDLE_TIMEOUT";

/// Idle timeout of the daemon, in seconds unless the daemon never times out.
#[derive(Debug, Clone, Copy, PartialEq, Eq, Structural)]
pub enum DaemonIdleTimeout {
    Seconds(u64),
    Never,
}

/// Why a timeout value was refused; `S` is the string type of the payloads.
#[derive(Debug, Clone)]
pub enum IdleTimeoutError<S> {
    /// The value is all digits (or empty): no unit follows the number.
    MissingUnit,
    /// No number precedes the unit; holds the value as given.
    InvalidFormat(S),
    /// The number does not fit in 64 bits; holds its digits.
    InvalidNumber(S),
    /// The number is zero.
    ZeroTimeout,
    /// The number of minutes or hours overflows 64 bits of seconds.
    TooLarge,
    /// The unit is none of `s`, `m`, `h`; holds the unit.
    InvalidUnit(S),
}

/// The error type of `DaemonIdleTimeout::parse`.
pub type TimeoutParseError = IdleTimeoutError<String>;

impl View for IdleTimeoutError<String> {
    type V = IdleTimeoutError<Seq<char>>;

    open spec fn view(&self) -> IdleTimeoutError<Seq<char>> {
        match self {
            IdleTimeoutError::MissingUnit => IdleTimeoutError::MissingUnit,
            IdleTimeoutError::InvalidFormat(s) => IdleTimeoutError::InvalidFormat(s@),
            IdleTimeoutError::InvalidNumber(s) => IdleTimeoutError::InvalidNumber(s@),
            IdleTimeoutError::ZeroTimeout => IdleTimeoutError::ZeroTimeout,
            IdleTimeoutError::TooLarge => IdleTimeoutError::TooLarge,
            IdleTimeoutError::InvalidUnit(s) => IdleTimeoutError::InvalidUnit(s@),
        }
    }
}

pub open spec fn never_word() -> Seq<char> {
    seq!['n', 'e', 'v', 'e', 'r']
}

/// A timeout value after trimming whitespace and folding ASCII case.
pub open spec fn normalize(value: Seq<char>) -> Seq<char> {
    lower_all(trim(value))
}

/// What parsing the text `value` as an idle timeout gives.
pub open spec fn parse_idle_timeout(value: Seq<char>) -> Result<
    DaemonIdleTimeout,
    IdleTimeoutError<Seq<char>>,
> {
    let n = normalize(value);
    if n == never_word() {
        Ok(DaemonIdleTimeout::Never)
    } else {
        let p = digit_prefix_len(n);
        let amount = digits_value(n.subrange(0, p as int));
        let unit = n.subrange(p as int, n.len() as int);
        if p == n.len() {
            Err(IdleTimeoutError::MissingUnit)
        } else if p == 0 {
            Err(IdleTimeoutError::InvalidFormat(value))
        } else if amount > u64::MAX {
            Err(IdleTimeoutError::InvalidNumber(n.subrange(0, p as int)))
        } else if amount == 0 {
            Err(IdleTimeoutError::ZeroTimeout)
        } else if unit == seq!['s'] {
            Ok(DaemonIdleTimeout::Seconds(amount as u64))
        } else if unit == seq!['m'] {
            if amount * 60 <= u64::MAX {
                Ok(DaemonIdleTimeout::Seconds((amount * 60) as u64))
            } else {
                Err(IdleTimeoutError::TooLarge)
            }
        } else if unit == seq!['h'] {
            if amount * 3600 <= u64::MAX {
                Ok(DaemonIdleTimeout::Seconds((amount * 3600) as u64))
            } else {
                Err(IdleTimeoutError::TooLarge)
            }
        } else {
            Err(IdleTimeoutError::InvalidUnit(unit))
        }
    }
}

/// The text of a timeout: `never`, or the largest whole unit among hours,
/// minutes and seconds.
pub open spec fn format_idle_timeout(t: DaemonIdleTimeout) -> Seq<char> {
    match t {
        DaemonIdleTimeout::Never => never_word(),
        DaemonIdleTimeout::Seconds(s) => if s % 3600 == 0 {
            decimal((s / 3600) as nat).push('h')
        } else if s % 60 == 0 {
            decimal((s / 60) as nat).push('m')
        } else {
            decimal(s as nat).push('s')
        },
    }
}

pub open spec fn timeout_result_view(r: Result<DaemonIdleTimeout, TimeoutParseError>) -> Result<
    DaemonIdleTimeout,
    IdleTimeoutError<Seq<char>>,
> {
    match r {
        Ok(t) => Ok(t),
        Err(e) => Err(e@),
    }
}

/// The duration of `secs` seconds, as `Duration::from_secs` makes it.
pub uninterp spec fn duration_from_secs(secs: u64) -> Duration;

/// Calls `Duration::from_secs`; the contract claims only that equal seconds
/// give equal durations, named by `duration_from_secs`.
#[verifier::external_body]
fn secs_to_duration(secs: u64) -> (d: Duration)
    ensures
        d == duration_from_secs(secs),
{
    Duration::from_secs(secs)
}

fn is_never_word(n: &Vec<char>) -> (b: bool)
    ensures
        b == (n@ == never_word()),
{
    if n.len() == 5 && n[0] == 'n' && n[1] == 'e' && n[2] == 'v' && n[3] == 'e' && n[4] == 'r' {
        assert(n@ =~= never_word());
        true
    } else {
        false
    }
}

impl DaemonIdleTimeout {
    /// The timeout a daemon starts with when none is given: five minutes.
    pub fn default_timeout() -> (t: DaemonIdleTimeout)
        ensures
            t == DaemonIdleTimeout::Seconds(300),
    {
        DaemonIdleTimeout::Seconds(300)
    }

    /// Parses `30m`, `1h`, `300s` or `never` (surrounding whitespace and the
    /// case of letters do not matter).
    pub fn parse(value: &str) -> (r: Result<DaemonIdleTimeout, TimeoutParseError>)
        ensures
            timeout_result_view(r) == parse_idle_timeout(value@),
    {
        let raw = chars_of(value);
        let trimmed = trim_chars(&raw);
        let n = lower_chars(&trimmed);
        assert(n@ == normalize(value@));
        if is_never_word(&n) {
            return Ok(DaemonIdleTimeout::Never);
        }
        let len = n.len();
        let mut p: usize = 0;
        assert(n@.subrange(0, len as int) =~= n@);
        assert(n@.subrange(0, 0) =~= Seq::<char>::empty());
        while p < len && char_is_ascii_digit(n[p as usize])
            invariant
                len == n@.len(),
                p <= len,
                digit_prefix_len(n@) == p + digit_prefix_len(n@.subrange(p as int, len as int)),
                all_digits(n@.subrange(0, p as int)),
            decreases len - p,
        {
            proof {
                let sub = n@.subrange(p as int, len as int);
                assert(sub.drop_first() =~= n@.subrange(p + 1, len as int));
                assert(sub[0] == n@[p as int]);
                let pre = n@.subrange(0, p + 1);
                assert forall|i: int| 0 <= i < pre.len() implies is_ascii_digit(#[trigger] pre[i]) by {
                    if i < p {
                        assert(pre[i] == n@.subrange(0, p as int)[i]);
                    }
                }
            }
            p = p + 1;
        }
        proof {
            let sub = n@.subrange(p as int, len as int);
            if p < len {
                assert(sub[0] == n@[p as int]);
            }
            assert(digit_prefix_len(sub) == 0);
        }
        if p == len {
            return Err(IdleTimeoutError::MissingUnit);
        }
        if p == 0 {
            return Err(IdleTimeoutError::InvalidFormat(String::from_str(value)));
        }
        let amount = match digits_to_u64(&n, 0, p) {
            None => {
                let digits = copy_range(&n, 0, p);
                return Err(IdleTimeoutError::InvalidNumber(string_of(&digits)));
            },
            Some(a) => a,
        };
        if amount == 0 {
            return Err(IdleTimeoutError::ZeroTimeout);
        }
        let ghost unit = n@.subrange(p as int, len as int);
        if len - p == 1 && n[p] == 's' {
            assert(unit =~= seq!['s']);
            Ok(DaemonIdleTimeout::Seconds(amount))
        } else if len - p == 1 && n[p] == 'm' {
            assert(unit =~= seq!['m']);
            assert(unit != seq!['s']);
            match amount.checked_mul(60) {
                Some(secs) => Ok(DaemonIdleTimeout::Seconds(secs)),
                None => Err(IdleTimeoutError::TooLarge),
            }
        } else if len - p == 1 && n[p] == 'h' {
            assert(unit =~= seq!['h']);
            assert(unit != seq!['s']);
            assert(unit != seq!['m']);
            match amount.checked_mul(3600) {
                Some(secs) => Ok(DaemonIdleTimeout::Seconds(secs)),
                None => Err(IdleTimeoutError::TooLarge),
            }
        } else {
            proof {
                if unit.len() == 1 {
                    assert(unit[0] == n@[p as int]);
                }
                assert(seq!['s'].len() == 1 && seq!['s'][0] == 's');
                assert(seq!['m'].len() == 1 && seq!['m'][0] == 'm');
                assert(seq!['h'].len() == 1 && seq!['h'][0] == 'h');
            }
            let u = copy_range(&n, p, len);
            Err(IdleTimeoutError::InvalidUnit(string_of(&u)))
        }
    }

    /// The duration to wait before the daemon exits, or `None` when it never does.
    pub fn as_duration(self) -> (d: Option<Duration>)
        ensures
            d == match self {
                DaemonIdleTimeout::Seconds(s) => Some(duration_from_secs(s)),
                DaemonIdleTimeout::Never => None,
            },
    {
        match self {
            DaemonIdleTimeout::Seconds(seconds) => Some(secs_to_duration(seconds)),
            DaemonIdleTimeout::Never => None,
        }
    }

    /// The text of the timeout (`never`, `2h`, `30m`, `90s`), which `parse` reads back.
    pub fn to_string(&self) -> (s: String)
        ensures
            s@ == format_idle_timeout(*self),
    {
        let mut v: Vec<char>;
        match *self {
            DaemonIdleTimeout::Never => {
                v = Vec::new();
                v.push('n');
                v.push('e');
                v.push('v');
                v.push('e');
                v.push('r');
                assert(v@ =~= never_word());
            },
            DaemonIdleTimeout::Seconds(seconds) => {
                if seconds % 3600 == 0 {
                    v = u64_decimal(seconds / 3600);
                    v.push('h');
                } else if seconds % 60 == 0 {
                    v = u64_decimal(seconds / 60);
                    v.push('m');
                } else {
                    v = u64_decimal(seconds);
                    v.push('s');
                }
            },
        }
        string_of(&v)
    }
}

/// The text of a refusal, as the client reports it.
pub open spec fn timeout_error_message(e: IdleTimeoutError<Seq<char>>) -> Seq<char> {
    match e {
        IdleTimeoutError::MissingUnit => "expected a unit suffix: s, m, h, or 'never'"@,
        IdleTimeoutError::InvalidFormat(v) => "invalid timeout '"@ + v
            + "', expected format like 30m, 1h, 300s, or never"@,
        IdleTimeoutError::InvalidNumber(d) => "invalid timeout number '"@ + d + "'"@,
        IdleTimeoutError::ZeroTimeout => "idle timeout must be greater than zero, or use 'never'"@,
        IdleTimeoutError::TooLarge => "timeout too large"@,
        IdleTimeoutError::InvalidUnit(u) => "invalid timeout unit '"@ + u
            + "', expected s, m, h, or 'never'"@,
    }
}

impl IdleTimeoutError<String> {
    /// The text of the refusal.
    pub fn message(&self) -> (m: String)
        ensures
            m@ == timeout_error_message(self@),
    {
        match self {
            IdleTimeoutError::MissingUnit => String::from_str(
                "expected a unit suffix: s, m, h, or 'never'",
            ),
            IdleTimeoutError::InvalidFormat(v) => {
                let mut m = String::from_str("invalid timeout '");
                m.append(v.as_str());
                m.append("', expected format like 30m, 1h, 300s, or never");
                m
            },
            IdleTimeoutError::InvalidNumber(d) => {
                let mut m = String::from_str("invalid timeout number '");
                m.append(d.as_str());
                m.append("'");
                m
            },
            IdleTimeoutError::ZeroTimeout => String::from_str(
                "idle timeout must be greater than zero, or use 'never'",
            ),
            IdleTimeoutError::TooLarge => String::from_str("timeout too large"),
            IdleTimeoutError::InvalidUnit(u) => {
                let mut m = String::from_str("invalid timeout unit '");
                m.append(u.as_str());
                m.append("', expected s, m, h, or 'never'");
                m
            },
        }
    }
}

/// Request from the command-line client to the daemon.
#[derive(Debug, Clone)]
pub struct DaemonRequest {
    pub command: String,
    pub args: JsonObject,
    pub page: Option<usize>,
    pub target: Option<String>,
    pub json_output: bool,
    pub daemon_idle_timeout: Option<DaemonIdleTimeout>,
    pub ws_endpoint: Option<String>,
    pub user_data_dir: Option<String>,
    pub channel: String,
}

/// Response from the daemon to the command-line client.
#[derive(Debug, Clone)]
pub struct DaemonResponse {
    pub success: bool,
    pub output: String,
    pub error: String,
}

/// The browser channel of a request that names none.
pub fn default_channel() -> (s: String)
    ensures
        s@ == "stable"@,
{
    String::from_str("stable")
}

/// Every timeout that parsing accepts is `never` or a positive number of seconds.
pub proof fn lemma_parsed_timeout_positive(value: Seq<char>)
    ensures
        parse_idle_timeout(value) matches Ok(DaemonIdleTimeout::Seconds(s)) ==> s > 0,
{
}

proof fn lemma_format_unit_roundtrip(q: nat, u: char)
    requires
        q > 0,
        q <= u64::MAX,
        u == 's' || u == 'm' || u == 'h',
    ensures
        ({
            let f = decimal(q).push(u);
            let n = normalize(f);
            &&& n == f
            &&& n != never_word()
            &&& digit_prefix_len(n) == decimal(q).len()
            &&& n.subrange(0, decimal(q).len() as int) == decimal(q)
            &&& n.subrange(decimal(q).len() as int, n.len() as int) == seq![u]
            &&& digits_value(decimal(q)) == q
        }),
{
    lemma_decimal(q);
    let d = decimal(q);
    let f = d.push(u);
    assert(f[0] == d[0]);
    assert(is_ascii_digit(d[0]));
    assert(f.last() == u);
    lemma_trim_noop(f);
    assert forall|i: int| 0 <= i < f.len() implies !is_ascii_upper(#[trigger] f[i]) by {
        if i < d.len() {
            assert(f[i] == d[i]);
            assert(is_ascii_digit(d[i]));
        }
    }
    lemma_lower_noop(f);
    lemma_digit_prefix_len_push(d, u);
    assert(f.subrange(0, d.len() as int) =~= d);
    assert(f.subrange(d.len() as int, f.len() as int) =~= seq![u]);
    if f == never_word() {
        assert(f[0] == 'n');
    }
}

/// Parsing the text of a timeout gives the timeout back, for every timeout
/// that parsing can produce (`never` and every positive number of seconds).
pub proof fn lemma_parse_format_roundtrip(t: DaemonIdleTimeout)
    requires
        t matches DaemonIdleTimeout::Seconds(s) ==> s > 0,
    ensures
        parse_idle_timeout(format_idle_timeout(t)) == Ok::<
            DaemonIdleTimeout,
            IdleTimeoutError<Seq<char>>,
        >(t),
{
    match t {
        DaemonIdleTimeout::Never => {
            let f = never_word();
            lemma_trim_noop(f);
            assert forall|i: int| 0 <= i < f.len() implies !is_ascii_upper(#[trigger] f[i]) by {}
            lemma_lower_noop(f);
        },
        DaemonIdleTimeout::Seconds(s) => {
            if s % 3600 == 0 {
                lemma_format_unit_roundtrip((s / 3600) as nat, 'h');
                assert(seq!['h'] != seq!['s']) by {
                    assert(seq!['h'][0] != seq!['s'][0]);
                }
                assert(seq!['h'] != seq!['m']) by {
                    assert(seq!['h'][0] != seq!['m'][0]);
                }
            } else if s % 60 == 0 {
                lemma_format_unit_roundtrip((s / 60) as nat, 'm');
                assert(seq!['m'] != seq!['s']) by {
                    assert(seq!['m'][0] != seq!['s'][0]);
                }
            } else {
                lemma_format_unit_roundtrip(s as nat, 's');
            }
        },
    }
}


/// A timeout of `q` followed by `s`, `m` or `h` lasts `q` seconds, minutes or
/// hours, counted in seconds (refused when that overflows 64 bits), and
/// `never` means no timeout.
pub proof fn lemma_units_count_seconds(q: nat)
    requires
        0 < q <= u64::MAX,
    ensures
        parse_idle_timeout(decimal(q).push('s')) == Ok::<DaemonIdleTimeout, IdleTimeoutError<Seq<char>>>(
            DaemonIdleTimeout::Seconds(q as u64),
        ),
        q * 60 <= u64::MAX ==> parse_idle_timeout(decimal(q).push('m')) == Ok::<
            DaemonIdleTimeout,
            IdleTimeoutError<Seq<char>>,
        >(DaemonIdleTimeout::Seconds((q * 60) as u64)),
        q * 60 > u64::MAX ==> parse_idle_timeout(decimal(q).push('m')) == Err::<
            DaemonIdleTimeout,
            IdleTimeoutError<Seq<char>>,
        >(IdleTimeoutError::TooLarge),
        q * 3600 <= u64::MAX ==> parse_idle_timeout(decimal(q).push('h')) == Ok::<
            DaemonIdleTimeout,
            IdleTimeoutError<Seq<char>>,
        >(DaemonIdleTimeout::Seconds((q * 3600) as u64)),
        q * 3600 > u64::MAX ==> parse_idle_timeout(decimal(q).push('h')) == Err::<
            DaemonIdleTimeout,
            IdleTimeoutError<Seq<char>>,
        >(IdleTimeoutError::TooLarge),
        parse_idle_timeout(seq!['n', 'e', 'v', 'e', 'r']) == Ok::<DaemonIdleTimeout, IdleTimeoutError<Seq<char>>>(
            DaemonIdleTimeout::Never,
        ),
{
    assert(seq!['h'] != seq!['s']) by {
        assert(seq!['h'][0] != seq!['s'][0]);
    }
    assert(seq!['h'] != seq!['m']) by {
        assert(seq!['h'][0] != seq!['m'][0]);
    }
    assert(seq!['m'] != seq!['s']) by {
        assert(seq!['m'][0] != seq!['s'][0]);
    }
    lemma_format_unit_roundtrip(q, 's');
    lemma_format_unit_roundtrip(q, 'm');
    lemma_format_unit_roundtrip(q, 'h');
    lemma_parse_format_roundtrip(DaemonIdleTimeout::Never);
}

} // verus!
