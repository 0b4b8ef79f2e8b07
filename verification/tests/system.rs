use holler::diagnostics::{
    panic_banner, payload_str, redirects, start_banner, starts_afresh, unix_secs, Place,
    MAX_LOG_BYTES,
};
use holler::permissions::{
    accessibility_granted, microphone_status, open_accessibility_settings, open_mic_settings,
    secure_keyboard_entry_enabled, MicStatus, Platform,
};

#[test]
fn only_macos_restricts() {
    for p in [Platform::Windows, Platform::Other] {
        assert!(accessibility_granted(p, false));
        assert!(!secure_keyboard_entry_enabled(p, true));
        assert_eq!(microphone_status(p, Some(2)), MicStatus::Granted);
        assert_eq!(open_accessibility_settings(p), None);
    }
    assert!(!accessibility_granted(Platform::MacOs, false));
    assert!(accessibility_granted(Platform::MacOs, true));
    assert!(secure_keyboard_entry_enabled(Platform::MacOs, true));
    assert!(open_accessibility_settings(Platform::MacOs).is_some());
}

#[test]
fn authorization_numbers_have_meanings() {
    let status = |n| microphone_status(Platform::MacOs, Some(n));
    assert_eq!(status(3), MicStatus::Granted);
    assert_eq!(status(2), MicStatus::Denied);
    assert_eq!(status(1), MicStatus::Restricted);
    assert_eq!(status(0), MicStatus::NotDetermined);
    assert_eq!(status(9), MicStatus::NotDetermined);
    assert_eq!(microphone_status(Platform::MacOs, None), MicStatus::Granted);
}

#[test]
fn microphone_settings_are_found() {
    let l = open_mic_settings(Platform::Windows).unwrap();
    assert_eq!((l.program, l.argument), ("explorer.exe", "ms-settings:privacy-microphone"));
    assert_eq!(open_mic_settings(Platform::MacOs).unwrap().program, "open");
    assert_eq!(open_mic_settings(Platform::Other), None);
}

#[test]
fn the_log_is_started_afresh_when_it_grows() {
    assert!(!starts_afresh(None));
    assert!(!starts_afresh(Some(MAX_LOG_BYTES)));
    assert!(starts_afresh(Some(MAX_LOG_BYTES + 1)));
    assert!(redirects(true, false));
    assert!(!redirects(true, true) && !redirects(false, false));
}

#[test]
fn runs_and_panics_are_marked() {
    assert_eq!(start_banner("0.5.0", 12), "\n===== Holler v0.5.0 started (unix 12) =====");
    let place = Some(Place { file: "main.rs".to_string(), line: 3, column: 9 });
    assert_eq!(
        panic_banner(12, &place, "boom"),
        "\n===== PANIC (unix 12) at main.rs:3:9 =====\nboom\n"
    );
    assert_eq!(
        panic_banner(12, &None, "boom"),
        "\n===== PANIC (unix 12) at <unknown> =====\nboom\n"
    );
    assert_eq!(payload_str(Some("a"), Some("b")), "a");
    assert_eq!(payload_str(None, Some("b")), "b");
    assert_eq!(payload_str(None, None), "Box<dyn Any>");
    assert_eq!((unix_secs(Some(4)), unix_secs(None)), (4, 0));
}
