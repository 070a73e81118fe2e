use chrome_devtools::cli::{
    acts_on_browser, daemon_wait_expired,
    build_request, client_step, command_request_parts, direct_plan, printed_output_text,
    render_response, resolve_daemon_idle_timeout, ClientAction, ClientEvent, ClientStage,
    CliOptions, Command, EnvValue, ResolveError,
};
use chrome_devtools::dispatch::{is_browser_level, plan_command, Action};
use chrome_devtools::json::ArgValue;
use chrome_devtools::protocol::{DaemonIdleTimeout, DaemonResponse};

fn s(x: &str) -> String {
    x.to_string()
}

fn all_commands() -> Vec<Command<String>> {
    vec![
        Command::ListPages,
        Command::Navigate {
            url: Some(s("https://x.y")),
            back: false,
            forward: true,
            reload: false,
        },
        Command::Navigate {
            url: None,
            back: true,
            forward: false,
            reload: true,
        },
        Command::NewPage { url: s("about:blank") },
        Command::ClosePage { index: 2 },
        Command::SelectPage { index: 0 },
        Command::Screenshot {
            output: Some(s("/tmp/p.png")),
            format: s("jpeg"),
            full_page: true,
        },
        Command::Evaluate {
            expression: s("document.title"),
        },
        Command::Click { selector: s("#a") },
        Command::Fill {
            selector: s("#b"),
            value: s("hello"),
        },
        Command::TypeText { text: s("typed") },
        Command::PressKey { key: s("Enter") },
        Command::Hover { selector: s(".m") },
        Command::Snapshot,
        Command::Resize {
            width: 1280,
            height: 720,
        },
        Command::WaitFor {
            text: s("Done"),
            timeout: 10000,
        },
        Command::RecordVideo {
            output: s("/tmp/v.mp4"),
            duration: 3,
            fps: 30,
            quality: 90,
            width: None,
            height: Some(480),
        },
    ]
}

fn same_action(a: &Action<String>, b: &Action<String>) -> bool {
    format!("{:?}", a) == format!("{:?}", b)
}

#[test]
fn daemon_runs_what_the_client_would_run() {
    for json in [false, true] {
        for c in all_commands() {
            let (name, args) = command_request_parts(&c);
            let planned = plan_command(&name, &args, json).expect("planned");
            let direct = direct_plan(&c, json);
            assert!(same_action(&planned, &direct), "{:?}", c);
            let browser = acts_on_browser(&c);
            assert_eq!(browser, matches!(
                c,
                Command::ListPages
                    | Command::NewPage { .. }
                    | Command::ClosePage { .. }
                    | Command::SelectPage { .. }
            ));
            assert_eq!(is_browser_level(&name), browser);
        }
    }
}

#[test]
fn record_video_runs_through_the_daemon() {
    let c = Command::RecordVideo {
        output: s("/tmp/r.mp4"),
        duration: 5,
        fps: 12,
        quality: 80,
        width: Some(800),
        height: None,
    };
    let (name, args) = command_request_parts(&c);
    assert_eq!(name, "record-video");
    assert!(!is_browser_level(&name));
    let keys: Vec<&str> = args.fields.iter().map(|(k, _)| k.as_str()).collect();
    assert_eq!(
        keys,
        vec!["output", "duration", "fps", "quality", "width", "height"]
    );
    assert!(matches!(args.fields[4].1, ArgValue::Number(800)));
    assert!(matches!(args.fields[5].1, ArgValue::Null));
    let planned = plan_command(&name, &args, false).unwrap();
    match &planned {
        Action::RecordVideo {
            output,
            duration_secs,
            fps,
            quality,
            max_width,
            max_height,
        } => {
            assert_eq!(output, "/tmp/r.mp4");
            assert_eq!(*duration_secs, 5);
            assert_eq!(*fps, 12);
            assert_eq!(*quality, 80);
            assert_eq!(*max_width, Some(800));
            assert_eq!(*max_height, None);
        }
        other => panic!("unexpected {:?}", other),
    }
    assert!(same_action(&planned, &direct_plan(&c, false)));
}

#[test]
fn request_carries_the_global_options() {
    let cli = CliOptions {
        ws_endpoint: Some(s("ws://127.0.0.1:9222/devtools/browser/x")),
        user_data_dir: None,
        channel: s("beta"),
        page: Some(1),
        target: Some(s("red-snake")),
        json: true,
        daemon_idle_timeout: Some(s("30m")),
        command: Command::Snapshot,
    };
    let r = build_request(&cli, Some(DaemonIdleTimeout::Seconds(1800)));
    assert_eq!(r.command, "snapshot");
    assert!(r.args.fields.is_empty());
    assert_eq!(r.page, Some(1));
    assert_eq!(r.target.as_deref(), Some("red-snake"));
    assert!(r.json_output);
    assert_eq!(r.daemon_idle_timeout, Some(DaemonIdleTimeout::Seconds(1800)));
    assert_eq!(
        r.ws_endpoint.as_deref(),
        Some("ws://127.0.0.1:9222/devtools/browser/x")
    );
    assert_eq!(r.user_data_dir, None);
    assert_eq!(r.channel, "beta");
}

#[test]
fn option_wins_over_environment() {
    let env = EnvValue::Present(s("1h"));
    assert_eq!(
        resolve_daemon_idle_timeout(Some("30m"), &env).unwrap(),
        Some(DaemonIdleTimeout::Seconds(1800))
    );
    assert_eq!(
        resolve_daemon_idle_timeout(None, &env).unwrap(),
        Some(DaemonIdleTimeout::Seconds(3600))
    );
    assert_eq!(
        resolve_daemon_idle_timeout(None, &EnvValue::NotPresent).unwrap(),
        None
    );
}

#[test]
fn resolution_errors() {
    let e = resolve_daemon_idle_timeout(Some("0m"), &EnvValue::NotPresent).unwrap_err();
    assert!(matches!(e, ResolveError::InvalidCliValue(_)));
    assert_eq!(
        e.message(),
        "idle timeout must be greater than zero, or use 'never'"
    );
    let e = resolve_daemon_idle_timeout(None, &EnvValue::Present(s("15d"))).unwrap_err();
    assert_eq!(
        e.message(),
        "invalid CHROME_DEVTOOLS_DAEMON_IDLE_TIMEOUT value '15d': invalid timeout unit 'd', expected s, m, h, or 'never'"
    );
    let e = resolve_daemon_idle_timeout(None, &EnvValue::Unreadable(s("not unicode")))
        .unwrap_err();
    assert_eq!(
        e.message(),
        "failed to read CHROME_DEVTOOLS_DAEMON_IDLE_TIMEOUT: not unicode"
    );
}

#[test]
fn printing_ensures_a_trailing_newline() {
    assert_eq!(printed_output_text(""), "");
    assert_eq!(printed_output_text("a"), "a\n");
    assert_eq!(printed_output_text("a\n"), "a\n");
    let ok = render_response(&DaemonResponse {
        success: true,
        output: s("out"),
        error: s(""),
    });
    assert_eq!(ok.stdout, "out\n");
    assert_eq!(ok.stderr, "");
    assert!(!ok.failed);
    let bad = render_response(&DaemonResponse {
        success: false,
        output: s(""),
        error: s("boom"),
    });
    assert_eq!(bad.stdout, "");
    assert_eq!(bad.stderr, "error: boom\n");
    assert!(bad.failed);
}

#[test]
fn client_falls_back_to_running_directly() {
    let (st, a) = client_step(
        ClientStage::FirstAttempt,
        &ClientEvent::Replied {
            success: true,
            retryable: false,
        },
    );
    assert_eq!(st, ClientStage::FirstAttempt);
    assert!(matches!(a, ClientAction::PrintResponse));
    let (_, a) = client_step(
        ClientStage::FirstAttempt,
        &ClientEvent::Replied {
            success: false,
            retryable: true,
        },
    );
    match a {
        ClientAction::RunDirect(w) => assert_eq!(
            w,
            "Warning: daemon browser connection was stale, running directly"
        ),
        other => panic!("unexpected {:?}", other),
    }
    let (st, a) = client_step(
        ClientStage::FirstAttempt,
        &ClientEvent::Unreachable(s("no socket")),
    );
    assert_eq!(st, ClientStage::Spawning);
    assert!(matches!(a, ClientAction::Spawn));
    let (st, a) = client_step(st, &ClientEvent::Spawned);
    assert_eq!(st, ClientStage::Waiting);
    assert!(matches!(a, ClientAction::Wait));
    let (st, a) = client_step(st, &ClientEvent::Ready);
    assert_eq!(st, ClientStage::SecondAttempt);
    assert!(matches!(a, ClientAction::SendAgain));
    let (_, a) = client_step(st, &ClientEvent::Unreachable(s("refused")));
    match a {
        ClientAction::RunDirect(w) => {
            assert_eq!(w, "Warning: daemon unavailable (refused), running directly")
        }
        other => panic!("unexpected {:?}", other),
    }
    let (_, a) = client_step(ClientStage::Spawning, &ClientEvent::SpawnFailed(s("denied")));
    match a {
        ClientAction::RunDirect(w) => {
            assert_eq!(w, "Warning: failed to spawn daemon (denied), running directly")
        }
        other => panic!("unexpected {:?}", other),
    }
    let (_, a) = client_step(ClientStage::Waiting, &ClientEvent::WaitFailed(s("late")));
    match a {
        ClientAction::RunDirect(w) => assert_eq!(
            w,
            "Warning: daemon failed to become ready (late), running directly"
        ),
        other => panic!("unexpected {:?}", other),
    }
    let (_, a) = client_step(
        ClientStage::SecondAttempt,
        &ClientEvent::Replied {
            success: false,
            retryable: false,
        },
    );
    assert!(matches!(a, ClientAction::PrintResponse));
}

#[test]
fn waiting_for_the_daemon_gives_up_after_five_seconds() {
    assert!(!daemon_wait_expired(0));
    assert!(!daemon_wait_expired(5_000_000_000));
    assert!(daemon_wait_expired(5_000_000_001));
}
