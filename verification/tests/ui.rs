use holler::config::Config;
use holler::permissions::{MicStatus, Platform};
use holler::secrets::SecretStatus;
use holler::store::{Entry, Stats};
use holler::ui::{
    captured_combo, combo_string, provider_display, provider_meta, Capture, HistoryBody, KeyEvent,
    KeyMods, KeySlot, Panel, ProviderRow, SettingsAction, TtsHotkey, UiState, PROVIDER_COUNT,
};

fn window() -> UiState {
    UiState::new(
        &Config::default(),
        "Ctrl+Alt+Space",
        SecretStatus::FromFile,
        SecretStatus::Missing,
        true,
        MicStatus::Granted,
    )
}

#[test]
fn provider_display_falls_back_to_raw_id() {
    assert_eq!(provider_display("deepgram"), "Deepgram");
    assert_eq!(provider_display("openai"), "OpenAI");
    assert_eq!(provider_display("future-provider"), "future-provider");
}

#[test]
fn only_the_first_two_providers_are_available() {
    let available: Vec<bool> = (0..PROVIDER_COUNT).map(|i| provider_meta(i).available).collect();
    assert_eq!(available, vec![true, true, false, false, false, false]);
    assert_eq!(provider_meta(0).default_model, "nova-3");
}

#[test]
fn every_panel_has_a_label() {
    let mut labels: Vec<&str> = Panel::all().iter().map(|p| p.label()).collect();
    labels.sort();
    labels.dedup();
    assert_eq!(labels.len(), 7);
    assert!(Panel::all().iter().all(|p| !p.blurb().is_empty()));
}

#[test]
fn saving_general_cleans_it() {
    let mut w = window();
    assert!(!w.general_dirty());
    w.vad_draft = false;
    assert!(w.general_dirty());
    w.save_general();
    assert_eq!(
        w.take_actions(),
        vec![SettingsAction::SaveGeneral {
            injection_mode: "paste".to_string(),
            vad: false,
            clipboard_toast: true,
        }]
    );
    w.general_feedback(Err("disk full".to_string()));
    assert!(w.general_dirty());
    assert_eq!(w.general_status, Some((false, "disk full".to_string())));
    w.general_feedback(Ok(()));
    assert!(!w.general_dirty());
    w.toast_draft = false;
    w.revert_general();
    assert!(w.toast_draft && !w.general_dirty());
}

#[test]
fn capture_takes_valid_combos_only() {
    let mut w = window();
    w.start_capture();
    w.captured(Capture::Nothing);
    assert!(w.capturing);
    w.captured(Capture::Combo("ctrl+nonsense".to_string()));
    assert!(w.capturing && !w.hotkey_status.as_ref().unwrap().0);
    w.captured(Capture::Combo("ctrl+shift+p".to_string()));
    assert!(!w.capturing);
    assert_eq!(
        w.hotkey_status,
        Some((true, "Registering Ctrl+Shift+P\u{2026}".to_string()))
    );
    assert_eq!(w.take_actions(), vec![SettingsAction::ApplyPttKey("ctrl+shift+p".to_string())]);
    w.hotkey_feedback(Ok("Ctrl+Shift+P".to_string()));
    assert_eq!(w.ptt_label, "Ctrl+Shift+P");
    assert_eq!(w.hotkey_status.unwrap().1, "Active \u{2014} hold Ctrl+Shift+P to talk");
    let mut w = window();
    w.start_capture();
    w.captured(Capture::Cancel);
    assert!(!w.capturing);
}

const NO_MODS: KeyMods =
    KeyMods { ctrl: false, alt: false, shift: false, mac_cmd: false, command: false };

#[test]
fn key_events_become_combos() {
    let event = |key: &str, pressed, mods| KeyEvent { key: key.to_string(), pressed, mods };
    let ctrl_shift = KeyMods { ctrl: true, shift: true, ..NO_MODS };
    assert_eq!(combo_string("P", ctrl_shift), "ctrl+shift+p");
    assert_eq!(combo_string("OpenBracket", NO_MODS), "bracketleft");
    assert_eq!(captured_combo(&vec![event("A", false, NO_MODS)]), Capture::Nothing);
    assert_eq!(captured_combo(&vec![event("Escape", true, NO_MODS)]), Capture::Cancel);
    assert_eq!(
        captured_combo(&vec![event("A", false, NO_MODS), event("Escape", true, ctrl_shift)]),
        Capture::Combo("ctrl+shift+escape".to_string())
    );
}

#[test]
fn picking_a_provider_drops_the_model() {
    let mut w = window();
    w.model_draft = " nova-2 ".to_string();
    w.pick_provider(KeySlot::Deepgram);
    assert_eq!(w.model_draft, " nova-2 ");
    w.save_providers();
    assert_eq!(
        w.take_actions(),
        vec![SettingsAction::SaveProviders {
            provider: "deepgram".to_string(),
            model: "nova-2".to_string(),
        }]
    );
    w.pick_provider(KeySlot::OpenAi);
    assert_eq!((w.provider_draft.as_str(), w.model_draft.as_str()), ("openai", ""));
    w.provider_feedback(Ok(()));
    assert!(!w.providers_dirty());
}

#[test]
fn keys_are_typed_stored_and_forgotten() {
    let mut w = window();
    w.openai_key.draft = " sk-1 ".to_string();
    match w.provider_row(1) {
        ProviderRow::Usable(row) => {
            assert!(row.can_set && !row.can_clear && !row.key_ok && !row.selected);
            assert_eq!(row.key_note, "no key \u{2717}");
            assert_eq!(row.model_hint, "default: gpt-4o-mini-transcribe");
        }
        other => panic!("unexpected row {other:?}"),
    }
    w.set_key(KeySlot::OpenAi);
    assert_eq!(w.openai_key.draft, "");
    w.clear_key(KeySlot::Deepgram);
    assert_eq!(
        w.take_actions(),
        vec![
            SettingsAction::SetKey { provider: "openai".to_string(), key: "sk-1".to_string() },
            SettingsAction::ClearKey { provider: "deepgram".to_string() },
        ]
    );
    w.key_feedback("openai", SecretStatus::FromFile, Ok(()));
    assert_eq!(w.openai_key.status, SecretStatus::FromFile);
    assert_eq!(w.provider_status, Some((true, "Key updated \u{2713}".to_string())));
    w.key_feedback("elsewhere", SecretStatus::Missing, Err("no".to_string()));
    assert_eq!(w.deepgram_key.status, SecretStatus::FromFile);
    assert_eq!(w.provider_status, Some((false, "no".to_string())));
    assert_eq!(
        w.provider_row(4),
        ProviderRow::Announced { note: "Local \u{b7} Coming soon".to_string() }
    );
}

#[test]
fn permissions_are_explained() {
    let mut w = window();
    w.refresh_permissions(false, MicStatus::Denied);
    let v = w.permissions_view(Platform::MacOs);
    assert!(v.mic_button && v.input_button);
    assert_eq!(v.mic, "Denied \u{2014} recordings will be silent.");
    let v = w.permissions_view(Platform::Windows);
    assert!(v.mic_button && !v.input_button);
    w.open_mic_settings();
    w.open_accessibility_settings();
    assert_eq!(
        w.take_actions(),
        vec![SettingsAction::OpenMicrophoneSettings, SettingsAction::OpenAccessibilitySettings]
    );
    assert!(w.take_actions().is_empty());
}

#[test]
fn history_is_loaded_once_per_query() {
    let mut w = window();
    w.select(Panel::History);
    assert_eq!(w.selected, Panel::History);
    let load = |q: &str| SettingsAction::LoadHistory { query: q.to_string() };
    w.history_frame();
    w.history_frame();
    assert_eq!(w.take_actions(), vec![load("")]);
    assert_eq!(w.history_body(), HistoryBody::Loading);
    w.history_loaded(Ok(vec![]));
    assert_eq!(w.history_body(), HistoryBody::NothingYet);
    w.history_query = "x".to_string();
    w.history_frame();
    assert_eq!(w.take_actions(), vec![load("x")]);
    assert_eq!(w.history_body(), HistoryBody::NoMatch);
    let entry =
        Entry { id: 4, text: "x".to_string(), provider: "openai".to_string(), created_at: 0 };
    w.history_loaded(Ok(vec![entry]));
    assert_eq!(w.history_body(), HistoryBody::Entries);
    w.refresh_history();
    w.history_frame();
    assert_eq!(w.take_actions(), vec![load("x")]);
}

#[test]
fn deletion_is_confirmed() {
    let mut w = window();
    w.set_confirm(Some(4));
    assert!(w.asks_to_confirm(4) && !w.asks_to_confirm(5));
    w.confirm_deletion(4);
    assert!(!w.asks_to_confirm(4));
    w.copy_entry("x".to_string());
    assert_eq!(
        w.take_actions(),
        vec![
            SettingsAction::DeleteHistory { id: 4, query: String::new() },
            SettingsAction::CopyHistory { text: "x".to_string() },
        ]
    );
    w.history_action_feedback(Ok("Deleted \u{2713}".to_string()));
    assert_eq!(w.history_status, Some((true, "Deleted \u{2713}".to_string())));
}

#[test]
fn statistics_and_voice_feedback_are_kept() {
    let mut w = window();
    w.stats_loaded(Err("locked".to_string()));
    assert_eq!(w.stats_status, Some((false, "locked".to_string())));
    w.stats_loaded(Ok(Stats::default()));
    assert_eq!((w.stats, w.stats_status), (Some(Stats::default()), None));
    let mut w = window();
    w.tts_feedback(Ok(()));
    assert_eq!(w.tts_status, Some((true, "Saved \u{2713}".to_string())));
    w.tts_hotkey_feedback(Err("taken".to_string()));
    assert_eq!(w.tts_hotkey_status, Some((false, "taken".to_string())));
}

#[test]
fn statistics_are_asked_for_once() {
    let mut w = window();
    w.stats_frame();
    w.stats_frame();
    assert_eq!(w.actions, vec![SettingsAction::LoadStats]);
    w.take_actions();
    w.stats_loaded(Err("locked".to_string()));
    w.stats_frame();
    assert_eq!(w.take_actions(), vec![]);
    w.refresh_stats();
    assert_eq!(w.take_actions(), vec![SettingsAction::LoadStats]);
    w.stats_loaded(Ok(Stats::default()));
    w.stats_frame();
    assert_eq!(w.take_actions(), vec![]);
}

#[test]
fn the_voice_is_saved_without_stray_blanks() {
    let mut w = window();
    w.save_tts("openai".to_string(), " nova ", 180);
    w.apply_tts_combo(TtsHotkey::Stop, " ctrl+alt+period ");
    w.speak_entry("hello".to_string());
    w.stop_speaking();
    assert_eq!(
        w.take_actions(),
        vec![
            SettingsAction::SaveTts {
                backend: "openai".to_string(),
                voice: "nova".to_string(),
                rate: 180,
            },
            SettingsAction::ApplyTtsHotkey {
                which: TtsHotkey::Stop,
                combo: "ctrl+alt+period".to_string(),
            },
            SettingsAction::SpeakHistory { text: "hello".to_string() },
            SettingsAction::StopSpeaking,
        ]
    );
}

#[test]
fn the_key_status_of_an_announced_provider_is_kept() {
    let mut w = window();
    w.key_feedback("groq", SecretStatus::FromFile, Ok(()));
    w.key_feedback("local-whisper", SecretStatus::FromEnv, Err("denied".to_string()));
    assert_eq!(w.announced_keys.groq, Some(SecretStatus::FromFile));
    assert_eq!(w.announced_keys.local_whisper, Some(SecretStatus::FromEnv));
    assert_eq!(w.announced_keys.elevenlabs, None);
    assert_eq!(w.provider_status, Some((false, "denied".to_string())));
    let before = w.announced_keys;
    w.key_feedback("elsewhere", SecretStatus::FromFile, Ok(()));
    w.key_feedback("openai", SecretStatus::FromFile, Ok(()));
    assert_eq!(w.announced_keys, before);
    w.key_feedback("elevenlabs", SecretStatus::Missing, Ok(()));
    w.key_feedback("parakeet", SecretStatus::Missing, Ok(()));
    assert_eq!(w.announced_keys.elevenlabs, Some(SecretStatus::Missing));
    assert_eq!(w.announced_keys.parakeet, Some(SecretStatus::Missing));
}
