use chrome_devtools::daemon::{
    daemon_argv, handle_step, initial_idle_timeout, parse_daemon_argv, server_step, DaemonArgs,
    HandleAction, HandleEvent, HandleStage, ServerAction, ServerEvent,
};
use chrome_devtools::protocol::DaemonIdleTimeout;

fn s(x: &str) -> String {
    x.to_string()
}

#[test]
fn daemon_reads_back_its_launch_arguments() {
    for t in [
        None,
        Some(DaemonIdleTimeout::Never),
        Some(DaemonIdleTimeout::Seconds(1800)),
        Some(DaemonIdleTimeout::Seconds(61)),
    ] {
        let mut args = vec![s("/usr/bin/chrome-devtools")];
        args.extend(daemon_argv("ws://h/x", t));
        match parse_daemon_argv(&args) {
            DaemonArgs::Launch {
                ws_url,
                idle_timeout,
            } => {
                assert_eq!(ws_url, "ws://h/x");
                assert_eq!(idle_timeout, t);
            }
            other => panic!("unexpected {:?}", other),
        }
    }
    assert_eq!(
        daemon_argv("ws://h/x", Some(DaemonIdleTimeout::Seconds(1800))),
        vec!["__daemon__", "ws://h/x", "30m"]
    );
}

#[test]
fn daemon_argument_errors() {
    assert!(matches!(
        parse_daemon_argv(&vec![s("prog"), s("list-pages")]),
        DaemonArgs::NotDaemon
    ));
    assert!(matches!(parse_daemon_argv(&vec![s("prog")]), DaemonArgs::NotDaemon));
    let missing = parse_daemon_argv(&vec![s("prog"), s("__daemon__")]);
    assert!(matches!(missing, DaemonArgs::MissingWsUrl));
    assert_eq!(missing.message(), "daemon requires ws_url argument");
    let bad = parse_daemon_argv(&vec![s("prog"), s("__daemon__"), s("ws://x"), s("5x")]);
    assert_eq!(
        bad.message(),
        "daemon error: invalid idle timeout '5x': invalid timeout unit 'x', expected s, m, h, or 'never'"
    );
}

#[test]
fn accept_loop_adopts_new_timeouts() {
    let idle = initial_idle_timeout(None);
    assert_eq!(idle, DaemonIdleTimeout::Seconds(300));
    assert_eq!(
        initial_idle_timeout(Some(DaemonIdleTimeout::Never)),
        DaemonIdleTimeout::Never
    );
    let (idle, a) = server_step(idle, &ServerEvent::Request(None));
    assert_eq!(idle, DaemonIdleTimeout::Seconds(300));
    assert!(matches!(a, ServerAction::Handle));
    let (idle, _) = server_step(
        idle,
        &ServerEvent::Request(Some(DaemonIdleTimeout::Seconds(3600))),
    );
    assert_eq!(idle, DaemonIdleTimeout::Seconds(3600));
    let (idle, a) = server_step(idle, &ServerEvent::InvalidRequest(s("eof")));
    assert_eq!(idle, DaemonIdleTimeout::Seconds(3600));
    match a {
        ServerAction::Reply(r) => {
            assert!(!r.success);
            assert_eq!(r.error, "Invalid request: eof");
        }
        other => panic!("unexpected {:?}", other),
    }
    match server_step(idle, &ServerEvent::ReadFailed(s("reset"))).1 {
        ServerAction::Log(m) => assert_eq!(m, "daemon: read error: reset"),
        other => panic!("unexpected {:?}", other),
    }
    match server_step(idle, &ServerEvent::AcceptFailed(s("emfile"))).1 {
        ServerAction::Log(m) => assert_eq!(m, "daemon: accept error: emfile"),
        other => panic!("unexpected {:?}", other),
    }
    assert!(matches!(
        server_step(idle, &ServerEvent::IdleTimeoutElapsed).1,
        ServerAction::Exit
    ));
}

#[test]
fn lost_connection_is_retried_once() {
    let (st, a) = handle_step(
        HandleStage::FirstAttempt,
        HandleEvent::Failed {
            error: s("closed"),
            retryable: true,
        },
    );
    assert!(matches!(a, HandleAction::Reconnect));
    let (st, a) = handle_step(st, HandleEvent::Reconnected);
    assert!(matches!(a, HandleAction::Retry));
    let (_, a) = handle_step(
        st,
        HandleEvent::Failed {
            error: s("closed again"),
            retryable: true,
        },
    );
    match a {
        HandleAction::Reply(r) => {
            assert!(!r.success);
            assert_eq!(r.error, "closed again");
        }
        other => panic!("unexpected {:?}", other),
    }
    let (_, a) = handle_step(
        HandleStage::Reconnecting {
            first_error: s("closed"),
        },
        HandleEvent::ReconnectFailed(s("no browser")),
    );
    match a {
        HandleAction::Reply(r) => assert_eq!(
            r.error,
            "failed to reconnect daemon browser session after retryable error: closed: no browser"
        ),
        other => panic!("unexpected {:?}", other),
    }
    match handle_step(HandleStage::FirstAttempt, HandleEvent::Succeeded(s("ok"))).1 {
        HandleAction::Reply(r) => {
            assert!(r.success);
            assert_eq!(r.output, "ok");
        }
        other => panic!("unexpected {:?}", other),
    }
    match handle_step(
        HandleStage::FirstAttempt,
        HandleEvent::Failed {
            error: s("bad selector"),
            retryable: false,
        },
    )
    .1
    {
        HandleAction::Reply(r) => assert_eq!(r.error, "bad selector"),
        other => panic!("unexpected {:?}", other),
    }
}
