use chrome_devtools::protocol::{default_channel, DaemonIdleTimeout, IdleTimeoutError};
use std::time::Duration;

#[test]
fn parses_supported_timeout_values() {
    assert_eq!(
        DaemonIdleTimeout::parse("30m").unwrap(),
        DaemonIdleTimeout::Seconds(1800)
    );
    assert_eq!(
        DaemonIdleTimeout::parse("1h").unwrap(),
        DaemonIdleTimeout::Seconds(3600)
    );
    assert_eq!(
        DaemonIdleTimeout::parse("300s").unwrap(),
        DaemonIdleTimeout::Seconds(300)
    );
    assert_eq!(
        DaemonIdleTimeout::parse("never").unwrap(),
        DaemonIdleTimeout::Never
    );
}

#[test]
fn rejects_invalid_timeout_values() {
    assert!(DaemonIdleTimeout::parse("0m").is_err());
    assert!(DaemonIdleTimeout::parse("30").is_err());
    assert!(DaemonIdleTimeout::parse("15d").is_err());
}

#[test]
fn converts_to_duration_when_finite() {
    assert_eq!(
        DaemonIdleTimeout::Seconds(90).as_duration(),
        Some(Duration::from_secs(90))
    );
    assert_eq!(DaemonIdleTimeout::Never.as_duration(), None);
}

#[test]
fn parse_ignores_surrounding_whitespace_and_case() {
    assert_eq!(
        DaemonIdleTimeout::parse("  30M\t").unwrap(),
        DaemonIdleTimeout::Seconds(1800)
    );
    assert_eq!(
        DaemonIdleTimeout::parse("\u{a0}NEVER\n").unwrap(),
        DaemonIdleTimeout::Never
    );
    assert_eq!(
        DaemonIdleTimeout::parse("007s").unwrap(),
        DaemonIdleTimeout::Seconds(7)
    );
}

#[test]
fn parse_reports_each_error() {
    assert!(matches!(
        DaemonIdleTimeout::parse("30"),
        Err(IdleTimeoutError::MissingUnit)
    ));
    assert!(matches!(
        DaemonIdleTimeout::parse(""),
        Err(IdleTimeoutError::MissingUnit)
    ));
    match DaemonIdleTimeout::parse(" m") {
        Err(IdleTimeoutError::InvalidFormat(v)) => assert_eq!(v, " m"),
        other => panic!("unexpected {:?}", other),
    }
    match DaemonIdleTimeout::parse("99999999999999999999s") {
        Err(IdleTimeoutError::InvalidNumber(d)) => assert_eq!(d, "99999999999999999999"),
        other => panic!("unexpected {:?}", other),
    }
    assert!(matches!(
        DaemonIdleTimeout::parse("0d"),
        Err(IdleTimeoutError::ZeroTimeout)
    ));
    assert!(matches!(
        DaemonIdleTimeout::parse("18446744073709551615m"),
        Err(IdleTimeoutError::TooLarge)
    ));
    assert!(matches!(
        DaemonIdleTimeout::parse("5124095576030432h"),
        Err(IdleTimeoutError::TooLarge)
    ));
    assert_eq!(
        DaemonIdleTimeout::parse("5124095576030431h").unwrap(),
        DaemonIdleTimeout::Seconds(5124095576030431 * 3600)
    );
    match DaemonIdleTimeout::parse("15D") {
        Err(IdleTimeoutError::InvalidUnit(u)) => assert_eq!(u, "d"),
        other => panic!("unexpected {:?}", other),
    }
    match DaemonIdleTimeout::parse("3 m") {
        Err(IdleTimeoutError::InvalidUnit(u)) => assert_eq!(u, " m"),
        other => panic!("unexpected {:?}", other),
    }
}

#[test]
fn error_messages_match_the_cli() {
    let msg = |v: &str| DaemonIdleTimeout::parse(v).unwrap_err().message();
    assert_eq!(msg("30"), "expected a unit suffix: s, m, h, or 'never'");
    assert_eq!(
        msg("h"),
        "invalid timeout 'h', expected format like 30m, 1h, 300s, or never"
    );
    assert_eq!(
        msg("99999999999999999999s"),
        "invalid timeout number '99999999999999999999'"
    );
    assert_eq!(
        msg("0m"),
        "idle timeout must be greater than zero, or use 'never'"
    );
    assert_eq!(msg("18446744073709551615h"), "timeout too large");
    assert_eq!(
        msg("15d"),
        "invalid timeout unit 'd', expected s, m, h, or 'never'"
    );
}

#[test]
fn formats_with_the_largest_whole_unit() {
    assert_eq!(DaemonIdleTimeout::Never.to_string(), "never");
    assert_eq!(DaemonIdleTimeout::Seconds(7200).to_string(), "2h");
    assert_eq!(DaemonIdleTimeout::Seconds(1800).to_string(), "30m");
    assert_eq!(DaemonIdleTimeout::Seconds(90).to_string(), "90s");
    assert_eq!(DaemonIdleTimeout::Seconds(0).to_string(), "0h");
}

#[test]
fn formatted_timeouts_parse_back() {
    for t in [
        DaemonIdleTimeout::Never,
        DaemonIdleTimeout::Seconds(1),
        DaemonIdleTimeout::Seconds(59),
        DaemonIdleTimeout::Seconds(60),
        DaemonIdleTimeout::Seconds(3600),
        DaemonIdleTimeout::Seconds(3660),
        DaemonIdleTimeout::Seconds(u64::MAX),
    ] {
        assert_eq!(DaemonIdleTimeout::parse(&t.to_string()).unwrap(), t);
    }
}

#[test]
fn default_timeout_is_five_minutes() {
    assert_eq!(
        DaemonIdleTimeout::default_timeout(),
        DaemonIdleTimeout::Seconds(300)
    );
    assert_eq!(default_channel(), "stable");
}
