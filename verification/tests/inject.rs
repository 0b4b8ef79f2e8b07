use holler::inject::{
    copy, copy_selection, deliver, paste, poll_clipboard, CopyStep, Delivery, InjectError,
    InjectMode, Stroke, COPY_POLL_ATTEMPTS,
};

#[test]
fn inject_mode_parses_case_insensitively() {
    assert_eq!(InjectMode::from_config("Type"), InjectMode::Type);
    assert_eq!(InjectMode::from_config("TYPING"), InjectMode::Type);
    assert_eq!(InjectMode::from_config("paste"), InjectMode::Paste);
    // Unknown -> default.
    assert_eq!(InjectMode::from_config("wat"), InjectMode::Paste);
    assert_eq!(InjectMode::default(), InjectMode::Paste);
}

/// The reads of a clipboard that yields each item in turn and then stays at the
/// last one.
fn reads(seq: Vec<Option<&str>>, attempts: usize) -> Vec<Option<String>> {
    (0..attempts)
        .map(|i| seq.get(i).or(seq.last()).cloned().flatten().map(|s| s.to_string()))
        .collect()
}

fn prior(s: &str) -> Option<String> {
    Some(s.to_string())
}

#[test]
fn poll_returns_first_fresh_nonempty_value() {
    // Prior was "old"; copy lands "selected text" on the 3rd poll.
    let read = reads(vec![Some("old"), Some("old"), Some("selected text")], 25);
    assert_eq!(poll_clipboard(&prior("old"), 25, &read), Some("selected text".to_string()));
}

#[test]
fn poll_skips_unchanged_clipboard() {
    // The synthetic copy never changes the clipboard (nothing was selected,
    // or it didn't land).
    let read = reads(vec![Some("unchanged")], 5);
    assert_eq!(poll_clipboard(&prior("unchanged"), 5, &read), None);
}

#[test]
fn poll_skips_blank_and_whitespace() {
    // Empty and whitespace-only reads are treated as "no selection yet".
    let read = reads(vec![Some(""), Some("   "), Some("\n\t")], 3);
    assert_eq!(poll_clipboard(&None, 3, &read), None);
}

#[test]
fn poll_accepts_value_when_prior_was_empty() {
    // Empty clipboard before copy, then a real selection lands.
    let read = reads(vec![None, Some("hello")], 5);
    assert_eq!(poll_clipboard(&None, 5, &read), Some("hello".to_string()));
}

#[test]
fn poll_gives_up_after_budget() {
    // Clipboard read always fails; bounded, returns None.
    let read = reads(vec![None], 10);
    assert_eq!(poll_clipboard(&prior("x"), 10, &read), None);
}

#[test]
fn poll_zero_attempts_is_none() {
    let read = reads(vec![Some("anything")], 1);
    assert_eq!(poll_clipboard(&None, 0, &read), None);
}

#[test]
fn chords_press_and_release() {
    assert_eq!(
        paste(),
        vec![Stroke::PressModifier, Stroke::Click('v'), Stroke::ReleaseModifier]
    );
    assert_eq!(copy(), vec![Stroke::PressModifier, Stroke::Click('c'), Stroke::ReleaseModifier]);
}

#[test]
fn delivery_types_or_pastes() {
    assert_eq!(deliver("hi", InjectMode::Type), Delivery::Text("hi".to_string()));
    assert_eq!(deliver("hi", InjectMode::Paste), Delivery::Keys(paste()));
}

#[test]
fn errors_say_what_failed() {
    let m = || "why".to_string();
    assert_eq!(
        InjectError::Init(m()).message(),
        "input backend init failed (grant Accessibility?): why"
    );
    assert_eq!(InjectError::Inject(m()).message(), "injection failed: why");
    assert_eq!(InjectError::Clipboard(m()).message(), "clipboard access failed: why");
}

#[test]
fn capture_restores_the_clipboard() {
    let capture = match copy_selection(Some(prior("before"))) {
        CopyStep::Fire(c) => c,
        other => panic!("unexpected step {other:?}"),
    };
    let capture = match capture.fired(true) {
        CopyStep::Look(c) => c,
        other => panic!("unexpected step {other:?}"),
    };
    let capture = match capture.looked(prior("before")) {
        CopyStep::Look(c) => c,
        other => panic!("unexpected step {other:?}"),
    };
    assert_eq!(
        capture.looked(prior("selection")),
        CopyStep::End { selection: prior("selection"), restore: prior("before") }
    );
}

#[test]
fn capture_gives_up() {
    let nothing = || CopyStep::End { selection: None, restore: None };
    assert_eq!(copy_selection(None), nothing());
    match copy_selection(Some(prior("before"))) {
        CopyStep::Fire(c) => assert_eq!(c.fired(false), nothing()),
        other => panic!("unexpected step {other:?}"),
    }
    let mut step = copy_selection(Some(None));
    let mut looks = 0;
    loop {
        step = match step {
            CopyStep::Fire(c) => c.fired(true),
            CopyStep::Look(c) => {
                looks += 1;
                c.looked(None)
            }
            CopyStep::End { selection, .. } => {
                assert_eq!(selection, None);
                break;
            }
        };
    }
    assert_eq!(looks, COPY_POLL_ATTEMPTS);
}
