use chrome_devtools::dispatch::{
    error_response, is_browser_level, plan_command, success_response, with_target_line, Action,
    CommandError,
};
use chrome_devtools::json::{ArgValue, JsonObject};

fn obj(fields: Vec<(&str, ArgValue<String>)>) -> JsonObject {
    JsonObject {
        fields: fields
            .into_iter()
            .map(|(k, v)| (k.to_string(), v))
            .collect(),
    }
}

fn text(s: &str) -> ArgValue<String> {
    ArgValue::Text(s.to_string())
}

#[test]
fn browser_level_commands() {
    for c in ["list-pages", "new-page", "close-page", "select-page"] {
        assert!(is_browser_level(c));
    }
    for c in ["navigate", "snapshot", "record-video", "", "list-pages "] {
        assert!(!is_browser_level(c));
    }
}

#[test]
fn plans_browser_level_commands() {
    assert!(matches!(
        plan_command("list-pages", &obj(vec![]), true),
        Ok(Action::ListPages { json: true })
    ));
    match plan_command("new-page", &obj(vec![("url", text("https://a.b"))]), false) {
        Ok(Action::NewPage { url }) => assert_eq!(url, "https://a.b"),
        other => panic!("unexpected {:?}", other),
    }
    assert!(matches!(
        plan_command("close-page", &obj(vec![("index", ArgValue::Number(3))]), false),
        Ok(Action::ClosePage { index: 3 })
    ));
    match plan_command("select-page", &obj(vec![("index", text("3"))]), false) {
        Err(e) => assert_eq!(e.message(), "index required"),
        other => panic!("unexpected {:?}", other),
    }
}

#[test]
fn plans_page_commands_with_defaults() {
    match plan_command("navigate", &obj(vec![("url", ArgValue::Null)]), false) {
        Ok(Action::Navigate {
            url,
            back,
            forward,
            reload,
        }) => {
            assert_eq!(url, None);
            assert!(!back && !forward && !reload);
        }
        other => panic!("unexpected {:?}", other),
    }
    match plan_command("screenshot", &obj(vec![]), false) {
        Ok(Action::Screenshot {
            output,
            format,
            full_page,
        }) => {
            assert_eq!(output, None);
            assert_eq!(format, "png");
            assert!(!full_page);
        }
        other => panic!("unexpected {:?}", other),
    }
    match plan_command("wait-for", &obj(vec![("text", text("Done"))]), false) {
        Ok(Action::WaitFor { text, timeout }) => {
            assert_eq!(text, "Done");
            assert_eq!(timeout, 30000);
        }
        other => panic!("unexpected {:?}", other),
    }
    assert!(matches!(
        plan_command(
            "resize",
            &obj(vec![
                ("width", ArgValue::Number(1280)),
                ("height", ArgValue::Number(720))
            ]),
            false
        ),
        Ok(Action::Resize {
            width: 1280,
            height: 720
        })
    ));
    assert!(matches!(
        plan_command("snapshot", &obj(vec![]), true),
        Ok(Action::Snapshot { json: true })
    ));
}

#[test]
fn first_missing_argument_is_reported() {
    let e = plan_command("fill", &obj(vec![("value", text("v"))]), false).unwrap_err();
    assert_eq!(e.message(), "selector required");
    let e = plan_command("fill", &obj(vec![("selector", text("#a"))]), false).unwrap_err();
    assert_eq!(e.message(), "value required");
    let e = plan_command("resize", &obj(vec![("height", ArgValue::Number(1))]), false)
        .unwrap_err();
    assert_eq!(e.message(), "width required");
    let e = plan_command("evaluate", &obj(vec![("expression", ArgValue::Other)]), false)
        .unwrap_err();
    assert_eq!(e.message(), "expression required");
}

#[test]
fn unknown_commands_are_refused() {
    match plan_command("record", &obj(vec![]), false) {
        Err(e @ CommandError::UnknownCommand(_)) => {
            assert_eq!(e.message(), "Unknown command: record")
        }
        other => panic!("unexpected {:?}", other),
    }
}

#[test]
fn the_first_field_with_a_key_counts() {
    match plan_command(
        "click",
        &obj(vec![("selector", text("#first")), ("selector", text("#second"))]),
        false,
    ) {
        Ok(Action::Click { selector }) => assert_eq!(selector, "#first"),
        other => panic!("unexpected {:?}", other),
    }
}

#[test]
fn responses_and_target_line() {
    let ok = success_response("done".to_string());
    assert!(ok.success);
    assert_eq!(ok.output, "done");
    assert_eq!(ok.error, "");
    let err = error_response("boom".to_string());
    assert!(!err.success);
    assert_eq!(err.output, "");
    assert_eq!(err.error, "boom");
    assert_eq!(
        with_target_line("Title".to_string(), "red-snake"),
        "Title\n[target:red-snake]"
    );
}

#[test]
fn record_video_arguments_default_and_saturate() {
    match plan_command("record-video", &obj(vec![("output", text("/tmp/a.mp4"))]), false) {
        Ok(Action::RecordVideo {
            output,
            duration_secs,
            fps,
            quality,
            max_width,
            max_height,
        }) => {
            assert_eq!(output, "/tmp/a.mp4");
            assert_eq!((duration_secs, fps, quality), (5, 12, 80));
            assert_eq!((max_width, max_height), (None, None));
        }
        other => panic!("unexpected {:?}", other),
    }
    match plan_command(
        "record-video",
        &obj(vec![
            ("output", text("o.mp4")),
            ("fps", ArgValue::Number(u64::MAX)),
            ("width", ArgValue::Number(640)),
        ]),
        false,
    ) {
        Ok(Action::RecordVideo { fps, max_width, .. }) => {
            assert_eq!(fps, u32::MAX);
            assert_eq!(max_width, Some(640));
        }
        other => panic!("unexpected {:?}", other),
    }
    assert_eq!(
        plan_command("record-video", &obj(vec![]), false)
            .unwrap_err()
            .message(),
        "output required"
    );
}

#[test]
fn only_a_missing_argument_skips_detaching() {
    let e = plan_command("fill", &obj(vec![("value", text("v"))]), false).unwrap_err();
    assert!(e.skips_detach());
    let e = plan_command("record", &obj(vec![]), false).unwrap_err();
    assert!(!e.skips_detach());
}
