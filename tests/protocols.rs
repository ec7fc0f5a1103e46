use selection::clipboard::{ClipboardSnapshot, RawImage, RestoreAction};
use selection::fallback::{Fallback, FallbackStep, Method};
use selection::keys::{copy_gesture, recovery_after_failure, Direction, Key, Keystroke};
use selection::linux::{LinuxBackend, LinuxSelector};
use selection::macos::{get_macos_text, Lookup, MacOSSelector};
use selection::safe_copy::{CopyAction, CopyEvent, CopyPhase, SafeCopy, SETTLE_DELAY_MS};
use selection::windows::{
    get_windows_selection, AutomationReport, InitGate, InitState, WindowsSelector,
};
use selection::{ContentType, Selection, SelectionError};

#[derive(Clone, Debug, PartialEq)]
enum Clip {
    Text(String),
    Image(usize, usize, Vec<u8>),
    Empty,
}

struct FakeDesktop {
    clip: Clip,
    counter: Option<u64>,
    copies: Option<String>,
    read_error: Option<String>,
    restore_error: Option<String>,
    actions: Vec<String>,
}

impl FakeDesktop {
    fn new(clip: Clip, copies: Option<&str>) -> Self {
        FakeDesktop {
            clip,
            counter: Some(10),
            copies: copies.map(|s| s.to_string()),
            read_error: None,
            restore_error: None,
            actions: Vec::new(),
        }
    }

    fn perform(&mut self, a: &CopyAction) -> CopyEvent {
        match a {
            CopyAction::TakeSnapshot => {
                self.actions.push("snapshot".into());
                let snap = match &self.clip {
                    Clip::Text(t) => ClipboardSnapshot { text: Some(t.clone()), image: None },
                    Clip::Image(w, h, b) => ClipboardSnapshot {
                        text: None,
                        image: Some(RawImage { width: *w, height: *h, bytes: b.clone() }),
                    },
                    Clip::Empty => ClipboardSnapshot { text: None, image: None },
                };
                CopyEvent::Snapshot(Ok(snap))
            }
            CopyAction::SimulateCopy => {
                self.actions.push("copy".into());
                let before = self.counter;
                if let Some(t) = &self.copies {
                    self.clip = Clip::Text(t.clone());
                    self.counter = self.counter.map(|c| c + 1);
                }
                CopyEvent::CopyIssued { counter_before: before, result: Ok(()) }
            }
            CopyAction::Settle(ms) => {
                assert_eq!(*ms, SETTLE_DELAY_MS);
                self.actions.push("settle".into());
                CopyEvent::Settled { counter_after: self.counter }
            }
            CopyAction::ReadNew => {
                self.actions.push("read".into());
                match &self.read_error {
                    Some(m) => CopyEvent::NewContent(Err(m.clone())),
                    None => match &self.clip {
                        Clip::Text(t) => CopyEvent::NewContent(Ok(Some(t.clone()))),
                        _ => CopyEvent::NewContent(Ok(None)),
                    },
                }
            }
            CopyAction::Restore(r) => {
                self.actions.push("restore".into());
                if let Some(m) = &self.restore_error {
                    return CopyEvent::Restored(Err(m.clone()));
                }
                self.clip = match r {
                    RestoreAction::SetText(t) => Clip::Text(t.clone()),
                    RestoreAction::SetImage(i) => Clip::Image(i.width, i.height, i.bytes.clone()),
                    RestoreAction::Clear => Clip::Empty,
                };
                CopyEvent::Restored(Ok(()))
            }
            CopyAction::Finish(_) => unreachable!(),
        }
    }

    fn run(&mut self) -> Result<String, SelectionError> {
        let mut proto = SafeCopy::new();
        let mut action = proto.start();
        loop {
            if let CopyAction::Finish(r) = action {
                assert_eq!(proto.phase(), CopyPhase::Finished);
                return r;
            }
            let event = self.perform(&action);
            assert!(proto.accepts(&event));
            action = proto.step(event);
        }
    }
}

#[test]
fn copy_returns_new_text_and_restores_old() {
    let mut d = FakeDesktop::new(Clip::Text("OLD".into()), Some("NEW"));
    let r = d.run();
    assert_eq!(r, Ok("NEW".to_string()));
    let sel = Selection::new_text(r.unwrap());
    assert_eq!(sel.content_type, ContentType::Text);
    assert_eq!(sel.data, b"NEW".to_vec());
    assert_eq!(d.clip, Clip::Text("OLD".into()));
}

#[test]
fn unchanged_clipboard_gives_no_selection_and_same_state() {
    for start in [
        Clip::Text("keep".into()),
        Clip::Image(1, 1, vec![1, 2, 3, 4]),
        Clip::Empty,
    ] {
        let mut d = FakeDesktop::new(start.clone(), None);
        assert_eq!(d.run(), Err(SelectionError::NoSelectedContent));
        assert_eq!(d.clip, start);
        assert!(!d.actions.contains(&"read".to_string()));
    }
}

#[test]
fn failed_read_still_restores() {
    for start in [
        Clip::Text("before".into()),
        Clip::Image(2, 1, vec![0; 8]),
        Clip::Empty,
    ] {
        let mut d = FakeDesktop::new(start.clone(), Some("copied"));
        d.read_error = Some("read failed".into());
        assert_eq!(
            d.run(),
            Err(SelectionError::ClipboardError("read failed".into()))
        );
        assert_eq!(d.clip, start);
        assert_eq!(d.actions.last().map(|s| s.as_str()), Some("restore"));
    }
}

#[test]
fn copied_text_is_trimmed() {
    let mut d = FakeDesktop::new(Clip::Empty, Some("  padded text \n"));
    assert_eq!(d.run(), Ok("padded text".to_string()));
    assert_eq!(d.clip, Clip::Empty);
}

#[test]
fn white_space_copy_gives_empty_text() {
    let mut d = FakeDesktop::new(Clip::Text("x".into()), Some(" \t\n"));
    let r = d.run();
    assert_eq!(r, Ok(String::new()));
    assert_eq!(d.clip, Clip::Text("x".into()));
    assert_eq!(
        get_windows_selection(r.map(Selection::new_text)).unwrap_err(),
        SelectionError::NoSelectedContent
    );
}

#[test]
fn empty_copy_is_no_selection() {
    let mut d = FakeDesktop::new(Clip::Text("x".into()), Some(""));
    assert_eq!(d.run(), Err(SelectionError::NoSelectedContent));
    assert_eq!(d.clip, Clip::Text("x".into()));
}

#[test]
fn without_counter_unchanged_image_or_empty_is_no_selection() {
    for start in [Clip::Image(1, 1, vec![9, 9, 9, 9]), Clip::Empty] {
        let mut d = FakeDesktop::new(start.clone(), None);
        d.counter = None;
        assert_eq!(d.run(), Err(SelectionError::NoSelectedContent));
        assert_eq!(d.clip, start);
    }
}

#[test]
fn restore_failure_turns_success_into_clipboard_error() {
    let mut d = FakeDesktop::new(Clip::Text("OLD".into()), Some("NEW"));
    d.restore_error = Some("write failed".into());
    assert_eq!(
        d.run(),
        Err(SelectionError::ClipboardError("write failed".into()))
    );
}

#[test]
fn restore_failure_keeps_earlier_error() {
    let mut d = FakeDesktop::new(Clip::Text("OLD".into()), None);
    d.restore_error = Some("write failed".into());
    assert_eq!(d.run(), Err(SelectionError::NoSelectedContent));
}

#[test]
fn without_counter_content_is_compared() {
    let mut d = FakeDesktop::new(Clip::Text("same".into()), Some("same"));
    d.counter = None;
    assert_eq!(d.run(), Err(SelectionError::NoSelectedContent));
    let mut d = FakeDesktop::new(Clip::Text("old".into()), Some("fresh"));
    d.counter = None;
    assert_eq!(d.run(), Ok("fresh".to_string()));
    assert_eq!(d.clip, Clip::Text("old".into()));
}

#[test]
fn snapshot_failure_touches_nothing() {
    let mut proto = SafeCopy::new();
    let _ = proto.start();
    let a = proto.step(CopyEvent::Snapshot(Err("locked".into())));
    assert!(matches!(a, CopyAction::Finish(Err(SelectionError::ClipboardError(m))) if m == "locked"));
}

#[test]
fn gesture_failure_restores_then_fails() {
    let mut proto = SafeCopy::new();
    let _ = proto.start();
    let a = proto.step(CopyEvent::Snapshot(Ok(ClipboardSnapshot {
        text: Some("orig".into()),
        image: None,
    })));
    assert!(matches!(a, CopyAction::SimulateCopy));
    let a = proto.step(CopyEvent::CopyIssued {
        counter_before: Some(1),
        result: Err("no keyboard".into()),
    });
    assert!(matches!(a, CopyAction::Restore(RestoreAction::SetText(ref t)) if t == "orig"));
    assert!(!proto.accepts(&CopyEvent::Settled { counter_after: None }));
    let a = proto.step(CopyEvent::Restored(Ok(())));
    assert!(matches!(a, CopyAction::Finish(Err(SelectionError::ClipboardError(m))) if m == "no keyboard"));
}

fn nonempty(s: &str) -> Result<Selection, SelectionError> {
    Ok(Selection::new_text(s.to_string()))
}

#[test]
fn fallback_uses_clipboard_after_accessibility_error() {
    let mut f = MacOSSelector::new().plan();
    assert!(matches!(f.start(), FallbackStep::Attempt(Method::Accessibility)));
    let step = f.on_result(Err(SelectionError::NoFocusedElement));
    assert!(matches!(step, FallbackStep::Attempt(Method::Clipboard)));
    let step = f.on_result(nonempty("from clipboard"));
    match step {
        FallbackStep::Finish(Ok(s)) => assert_eq!(s.as_text(), Some("from clipboard".into())),
        other => panic!("unexpected {:?}", other),
    }
    assert!(!f.is_awaiting());
}

#[test]
fn fallback_uses_clipboard_after_empty_accessibility() {
    let mut f = MacOSSelector::new().plan();
    let _ = f.start();
    let step = f.on_result(nonempty(""));
    assert!(matches!(step, FallbackStep::Attempt(Method::Clipboard)));
    let step = f.on_result(Err(SelectionError::ClipboardError("x".into())));
    assert!(matches!(step, FallbackStep::Finish(Err(SelectionError::ClipboardError(m))) if m == "x"));
}

#[test]
fn fallback_skips_clipboard_after_accessibility_success() {
    let mut f = MacOSSelector::new().plan();
    let _ = f.start();
    let step = f.on_result(nonempty("from tree"));
    match step {
        FallbackStep::Finish(Ok(s)) => assert_eq!(s.as_text(), Some("from tree".into())),
        other => panic!("unexpected {:?}", other),
    }
    assert!(!f.is_awaiting());
}

#[test]
fn empty_plan_is_unsupported() {
    let mut f = Fallback::new(Vec::new());
    assert!(matches!(
        f.start(),
        FallbackStep::Finish(Err(SelectionError::UnsupportedPlatform))
    ));
}

#[test]
fn unknown_session_is_unsupported() {
    let l = LinuxSelector::new();
    assert_eq!(
        l.session_backend(Some("unknown".to_string())),
        Err(SelectionError::UnsupportedPlatform)
    );
    assert_eq!(l.session_backend(None), Err(SelectionError::UnsupportedPlatform));
    assert_eq!(l.session_backend(Some("x11".to_string())), Ok(LinuxBackend::X11));
    assert_eq!(
        l.session_backend(Some("wayland".to_string())),
        Ok(LinuxBackend::Wayland)
    );
}

#[test]
fn wayland_falls_back_to_x11() {
    let l = LinuxSelector::new();
    assert_eq!(l.wayland_backend(Some(true)), LinuxBackend::Wayland);
    assert_eq!(l.wayland_backend(Some(false)), LinuxBackend::X11);
    assert_eq!(l.wayland_backend(None), LinuxBackend::X11);
}

#[test]
fn primary_bytes_are_cleaned() {
    let l = LinuxSelector::new();
    let s = l.selection_from_primary(b"\0\0  hello world \n\0");
    assert_eq!(s.as_text(), Some("hello world".to_string()));
    let s = l.selection_from_primary(&[b'a', 0xff, b'b']);
    assert_eq!(s.as_text(), Some("a\u{fffd}b".to_string()));
}

#[test]
fn script_output_text_and_file() {
    let r = MacOSSelector::selection_from_script(true, b"some text".to_vec(), b"");
    let s = r.unwrap();
    assert_eq!(s.content_type, ContentType::Text);
    assert_eq!(s.as_text(), Some("some text".to_string()));

    let r = MacOSSelector::selection_from_script(true, b"[FILE]/Users/me/a.txt".to_vec(), b"");
    let s = r.unwrap();
    assert_eq!(s.content_type, ContentType::File);
    assert_eq!(s.as_file_path(), Some("/Users/me/a.txt".to_string()));

    let r = MacOSSelector::selection_from_script(true, b"[FILE][FILE]/x".to_vec(), b"");
    assert_eq!(r.unwrap().as_file_path(), Some("/x".to_string()));
}

#[test]
fn script_output_errors() {
    let r = MacOSSelector::selection_from_script(false, vec![], b"execution error");
    assert_eq!(
        r.unwrap_err(),
        SelectionError::AppleScriptError("execution error".to_string())
    );
    let r = MacOSSelector::selection_from_script(true, vec![0xc3, 0x28], b"");
    assert!(matches!(r, Err(SelectionError::Utf8Error(_))));
}

#[test]
fn accessibility_outcomes() {
    assert_eq!(
        MacOSSelector::accessibility_selection(Lookup::Absent, Lookup::Absent).unwrap_err(),
        SelectionError::NoFocusedElement
    );
    assert_eq!(
        MacOSSelector::accessibility_selection(Lookup::WrongType, Lookup::Found("x".into()))
            .unwrap_err(),
        SelectionError::NoFocusedElement
    );
    assert_eq!(
        MacOSSelector::accessibility_selection(Lookup::Found(()), Lookup::WrongType).unwrap_err(),
        SelectionError::NoSelectedContent
    );
    let s = MacOSSelector::accessibility_selection(Lookup::Found(()), Lookup::Found("sel".into()))
        .unwrap();
    assert_eq!(s.as_text(), Some("sel".to_string()));
    assert_eq!(get_macos_text(Ok(s)), Ok("sel".to_string()));
}

#[test]
fn windows_rules() {
    let mut gate = InitGate::new();
    assert!(gate.needs_attempt());
    gate.record(false);
    assert_eq!(gate.state, InitState::Failed);
    gate.record(true);
    assert_eq!(gate.state, InitState::Failed);
    let mut f = WindowsSelector::new(&gate).plan();
    assert!(matches!(f.start(), FallbackStep::Attempt(Method::Clipboard)));

    let mut ok_gate = InitGate::new();
    ok_gate.record(true);
    assert_eq!(ok_gate.state, InitState::Ready);
    let mut f = WindowsSelector::new(&ok_gate).plan();
    assert!(matches!(f.start(), FallbackStep::Attempt(Method::Accessibility)));

    let ranges = vec![" first ".to_string(), "second\n".to_string()];
    assert_eq!(WindowsSelector::automation_text(&ranges), "first second");
    assert_eq!(WindowsSelector::automation_text(&Vec::new()), "");

    assert_eq!(
        get_windows_selection(nonempty("")).unwrap_err(),
        SelectionError::NoSelectedContent
    );
    assert_eq!(
        get_windows_selection(nonempty("t")).unwrap().as_text(),
        Some("t".to_string())
    );
    assert_eq!(
        get_windows_selection(Err(SelectionError::NoFocusedElement)).unwrap_err(),
        SelectionError::NoFocusedElement
    );
}

#[test]
fn copy_gesture_order() {
    let g = copy_gesture(Key::Control);
    let expected = vec![
        (Key::Control, Direction::Release),
        (Key::Alt, Direction::Release),
        (Key::Shift, Direction::Release),
        (Key::Meta, Direction::Release),
        (Key::Control, Direction::Press),
        (Key::C, Direction::Click),
        (Key::Control, Direction::Release),
    ];
    let got: Vec<(Key, Direction)> = g.iter().map(|k: &Keystroke| (k.key, k.direction)).collect();
    assert_eq!(got, expected);
    assert_eq!(recovery_after_failure(Key::Meta, 5).len(), 1);
    assert_eq!(recovery_after_failure(Key::Meta, 5)[0].key, Key::Meta);
    assert!(recovery_after_failure(Key::Meta, 4).is_empty());
}

#[test]
fn automation_reports() {
    assert_eq!(
        WindowsSelector::automation_selection(AutomationReport::NoFocus).unwrap_err(),
        SelectionError::NoFocusedElement
    );
    assert_eq!(
        WindowsSelector::automation_selection(AutomationReport::Unavailable("no com".into()))
            .unwrap_err(),
        SelectionError::AccessibilityError("no com".into())
    );
    assert_eq!(
        WindowsSelector::automation_selection(AutomationReport::Failed("range".into()))
            .unwrap_err(),
        SelectionError::AccessibilityError("range".into())
    );
    let s = WindowsSelector::automation_selection(AutomationReport::NoTextPattern).unwrap();
    assert!(s.is_empty());
    assert_eq!(s.content_type, ContentType::Text);
    let s = WindowsSelector::automation_selection(AutomationReport::Ranges(vec![
        "  one".to_string(),
        " two  ".to_string(),
    ]))
    .unwrap();
    assert_eq!(s.as_text(), Some("one two".to_string()));
    let s = WindowsSelector::automation_selection(AutomationReport::Ranges(vec![])).unwrap();
    assert!(s.is_empty());
}
