use cmux_gtk::host::ScriptReply;
use cmux_gtk::runtime::{
    answer_to_dialog, dialog_kind, file_name_of_download, load_failed_event, next_dialog_id,
    next_download_id, process_ended_event, select_frame_script, strip_scheme, wait_for_download,
    wrap_script, DialogAnswer, DownloadChange, RuntimeRecord, ScriptMode,
};
use cmux_gtk::script::{key_script_text, KeyPhase};
use cmux_gtk::webview::{BrowserEvent, DialogInfo};

fn event(text: &str) -> BrowserEvent {
    BrowserEvent {
        level: String::from("info"),
        text: String::from(text),
        source: String::from("console"),
        line: None,
    }
}

#[test]
fn only_the_newest_events_are_kept() {
    let mut runtime = RuntimeRecord::new();
    for i in 0..1000 {
        runtime.push_console(event(&i.to_string()));
    }
    assert!(runtime.console.len() < 1000);
    assert_eq!(runtime.console.last().unwrap().text, "999");
    assert_eq!(runtime.console[0].text, (1000 - runtime.console.len()).to_string());
}

#[test]
fn events_are_heard_from_the_page() {
    let mut runtime = RuntimeRecord::new();
    let reply = "{\"console\":[{\"level\":\"warn\",\"text\":\"careful\",\"line\":7}],\
                 \"errors\":[{\"text\":\"boom\"}]}";
    runtime.refresh_script_events(&ScriptReply::Text(String::from(reply)));
    assert_eq!(runtime.console.len(), 1);
    assert_eq!(runtime.console[0].level, "warn");
    assert_eq!(runtime.console[0].text, "careful");
    assert_eq!(runtime.console[0].source, "console");
    assert_eq!(runtime.console[0].line, Some(7));
    assert_eq!(runtime.errors[0].text, "boom");
    assert_eq!(runtime.errors[0].source, "javascript");
    assert_eq!(runtime.errors[0].level, "info");
    runtime.refresh_script_events(&ScriptReply::Text(String::from("not json")));
    runtime.refresh_script_events(&ScriptReply::NotLive);
    assert_eq!(runtime.console.len(), 1);
}

#[test]
fn dialogs_wait_in_line() {
    let mut runtime = RuntimeRecord::new();
    let mut next: u64 = 1;
    assert_eq!(runtime.take_dialog().err(), Some(String::from("no pending dialog")));
    let first = next_dialog_id(&mut next);
    let second = next_dialog_id(&mut next);
    assert_ne!(first, second);
    for (i, id) in [first.clone(), second].into_iter().enumerate() {
        let info = DialogInfo {
            id,
            kind: dialog_kind(1),
            message: String::from("sure?"),
            default_text: String::new(),
        };
        runtime.push_dialog(info, i);
    }
    let taken = runtime.take_dialog().ok().unwrap();
    assert_eq!(taken.info.id, first);
    assert_eq!(taken.dialog, 0);
    assert_eq!(runtime.dialogs.len(), 1);
}

#[test]
fn dialogs_are_answered_by_kind() {
    assert!(matches!(answer_to_dialog("confirm", true, None), DialogAnswer::Confirm(true)));
    assert!(matches!(answer_to_dialog("alert", true, None), DialogAnswer::Nothing));
    match answer_to_dialog("prompt", true, Some(String::from("Ada"))) {
        DialogAnswer::Prompt(text) => assert_eq!(text, "Ada"),
        _ => panic!("a prompt is answered with a text"),
    }
    assert!(matches!(answer_to_dialog("prompt", false, None), DialogAnswer::Nothing));
}

#[test]
fn a_download_is_followed_to_its_end() {
    let mut runtime = RuntimeRecord::new();
    let mut next: u64 = 1;
    let id = next_download_id(&mut next);
    let other = next_download_id(&mut next);
    runtime.push_download(id.clone(), String::from("https://a.example/f"), String::from("/d/f"));
    runtime.push_download(other.clone(), String::from("https://a.example/g"), String::from("/d/g"));
    assert!(wait_for_download(Some(&runtime), false).is_none());
    assert_eq!(
        wait_for_download(Some(&runtime), true).unwrap().err(),
        Some(String::from("download timed out"))
    );
    assert!(wait_for_download(None, false).unwrap().is_err());
    runtime.update_download(&id, DownloadChange::Receiving { received_bytes: 10 });
    assert_eq!(runtime.downloads[0].status, "receiving");
    runtime.update_download(
        &id,
        DownloadChange::Finished { received_bytes: 20, destination: String::from("file:///d/f2") },
    );
    let done = wait_for_download(Some(&runtime), false).unwrap().ok().unwrap();
    assert_eq!(done.id, id);
    assert_eq!(done.status, "finished");
    assert_eq!(done.path, "/d/f2");
    assert_eq!(done.received_bytes, 20);
    runtime.update_download(
        &other,
        DownloadChange::Failed { received_bytes: 1, error: String::from("disk full") },
    );
    runtime.update_download(
        &other,
        DownloadChange::Finished { received_bytes: 1, destination: String::new() },
    );
    let failed = runtime.finished_download().unwrap();
    assert_eq!(failed.status, "failed");
    assert_eq!(failed.error, Some(String::from("disk full")));
    assert_eq!(failed.path, "/d/g");
}

#[test]
fn download_names_are_plain() {
    let name = file_name_of_download("https://a.example/x/re port.pdf?v=1", "download-1");
    assert_eq!(name, "download-1-re_port.pdf");
    assert_eq!(strip_scheme("file:///tmp/a"), "/tmp/a");
    assert_eq!(strip_scheme("/tmp/a"), "/tmp/a");
    assert!(!file_name_of_download("https://a.example/..%2f../", "download-2").contains('/'));
}

#[test]
fn scripts_run_in_the_selected_frame() {
    let plain = wrap_script(&None, "1 + 1", ScriptMode::Expression);
    assert!(plain.starts_with("JSON.stringify((() => { "));
    assert!(plain.contains("(1 + 1)"));
    let framed = wrap_script(&Some(String::from("#f\"")), "go()", ScriptMode::Statement);
    assert!(framed.contains("\"#f\\\"\""));
    assert!(framed.contains(
        "const __cmuxFrame = globalThis.document.querySelector(\"#f\\\"\"); if (!__cmuxFrame"
    ));
    assert!(framed.ends_with(" go() })())"));
    assert!(select_frame_script("#f").contains("document.querySelector(\"#f\")"));
}

#[test]
fn a_key_press_is_three_events() {
    let event = |name: &str| {
        format!(
            "const target = document.activeElement || document.body || document; \
             const key = \"a\"; target.dispatchEvent(new KeyboardEvent('{name}', \
             {{ key, bubbles: true, cancelable: true }}));"
        )
    };
    assert_eq!(
        key_script_text("a", KeyPhase::Press),
        format!(
            "{{ {} }} {{ {} }} {{ {} }} return true;",
            event("keydown"),
            event("keypress"),
            event("keyup")
        )
    );
    assert_eq!(
        key_script_text("a", KeyPhase::Down),
        format!("{} return true;", event("keydown"))
    );
    assert_eq!(key_script_text("a", KeyPhase::Up), format!("{} return true;", event("keyup")));
}

#[test]
fn a_frame_is_selected_only_if_it_can_be_reached() {
    let mut runtime = RuntimeRecord::new();
    let yes = ScriptReply::Text(String::from("true"));
    let no = ScriptReply::Text(String::from("false"));
    assert_eq!(
        runtime.select_frame("#f", &no).err(),
        Some(String::from("frame is not accessible"))
    );
    assert_eq!(runtime.active_frame_selector, None);
    assert!(runtime.select_frame("#f", &yes).is_ok());
    assert_eq!(runtime.active_frame_selector, Some(String::from("#f")));
    runtime.select_main_frame();
    assert_eq!(runtime.active_frame_selector, None);
    assert!(runtime.select_frame("#f", &ScriptReply::Failed(String::from("oops"))).is_err());
}

#[test]
fn failures_become_events() {
    let failed = load_failed_event("https://a.example/", "no route");
    assert_eq!(failed.level, "error");
    assert!(failed.text.contains("no route"));
    let ended = process_ended_event(1);
    assert_eq!(ended.level, "error");
    assert_eq!(dialog_kind(0), "alert");
}
