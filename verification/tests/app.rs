use holler::app::edits::{Task, Topic};
use holler::app::menu::{
    menu_entries, opener, register_tts_hotkey, MenuChoice, MenuEntry, Registered,
};
use holler::app::{
    tts_hotkey_purpose, App, Effect, GrantEntry, HotkeyDecision, InjectionOutcome, InjectionPlan,
    Tooltip, TrayState, AX_POLL_INTERVAL, FRAME_INTERVAL, MIN_SAMPLES, NO_HOTKEYS, RELEASE_FIRST,
    SECOND,
};
use holler::config::{Config, ConfigError};
use holler::inject::InjectMode;
use holler::overlay::Phase;
use holler::permissions::{MicStatus, Platform};
use holler::secrets::SecretStatus;
use holler::speech::SpeechStatus;
use holler::status_popup::{Button, Phase as PopupPhase, StatusPopup};
use holler::store::{Stats, StoreError};
use holler::stt::Transcription;
use holler::ui::{SettingsAction, TtsHotkey, UiState};

const PTT: u32 = 11;
const READ: u32 = 22;
const CLIP: u32 = 33;
const STOP: u32 = 44;

fn fresh(platform: Platform) -> App {
    App::new(platform, Ok(Config::default()), true, true, MicStatus::Granted, 0)
}

fn ready(platform: Platform) -> App {
    let mut app = fresh(platform);
    assert!(app.begin_init().is_some());
    let keys = Registered { ptt: Some(PTT), read: Some(READ), clipboard: Some(CLIP), stop: Some(STOP) };
    assert!(app.finish_init(Some(keys), true, true, true).is_empty());
    app
}

fn with_window(mut app: App) -> App {
    let w = UiState::new(
        &app.config,
        &app.ptt_label,
        SecretStatus::Missing,
        SecretStatus::Missing,
        true,
        MicStatus::Granted,
    );
    assert!(app.settings_opened(Some(w)).is_empty());
    app
}

#[test]
fn bad_settings_give_way_to_defaults() {
    let broken = Err(ConfigError::Parse("line 1".to_string()));
    let app = App::new(Platform::Other, broken, false, false, MicStatus::Denied, 5);
    assert_eq!(app.config, Config::default());
    assert!(!app.history_ready && !app.accessibility_ok);
}

#[test]
fn it_comes_up_once() {
    let mut app = fresh(Platform::Other);
    let hotkey = app.begin_init().unwrap();
    assert_eq!(hotkey.key, "Space");
    assert_eq!(app.ptt_label, "Ctrl+Alt+Space");
    assert!(app.begin_init().is_none());
    assert_eq!(app.tts_trigger(TtsHotkey::ReadSelection).unwrap().1, "Ctrl+Alt+R");
    assert_eq!(app.tts_trigger(TtsHotkey::ReadClipboard).unwrap().1, "Ctrl+Alt+C");
    assert!(app.tts_trigger(TtsHotkey::Stop).is_ok());
    let parsed = app.tts_trigger(TtsHotkey::ReadSelection);
    let id = parsed.as_ref().unwrap().0.id;
    assert_eq!(register_tts_hotkey(&parsed, true), Some(id));
    assert_eq!(register_tts_hotkey(&parsed, false), None);
    assert_eq!(register_tts_hotkey(&Err("bad".to_string()), true), None);
}

#[test]
fn a_taken_hotkey_is_no_catastrophe() {
    let mut app = fresh(Platform::Other);
    app.begin_init();
    let keys = Registered { ptt: None, read: Some(READ), clipboard: None, stop: None };
    assert_eq!(
        app.finish_init(Some(keys), false, false, false),
        vec![Effect::SetTooltip(Tooltip::PttUnavailable)]
    );
    assert!(app.hotkeys_ready);
    assert_eq!(app.on_hotkey(PTT, true), HotkeyDecision::Ignored);
    assert_eq!(app.on_hotkey(READ, true), HotkeyDecision::ReadSelection);
    let mut app = fresh(Platform::Other);
    app.begin_init();
    assert!(app.finish_init(None, false, false, false).is_empty());
    assert!(!app.hotkeys_ready);
}

#[test]
fn the_popup_comes_up_out_of_sight() {
    let app = ready(Platform::Other);
    assert_eq!(app.reader.popup, Some(StatusPopup::create()));
    assert_eq!(fresh(Platform::Other).reader.popup, None);
}

#[test]
fn holding_the_key_records() {
    let mut app = ready(Platform::Other);
    assert_eq!(app.on_hotkey(PTT, true), HotkeyDecision::OpenMic);
    assert_eq!(
        app.mic_opened(true),
        vec![
            Effect::SetTooltip(Tooltip::Ready),
            Effect::DrawTray { state: TrayState::Recording, frame: 0 },
            Effect::ShowOverlay(Phase::Recording),
        ]
    );
    // The held key repeats, whatever other keys do.
    assert_eq!(app.on_hotkey(PTT, true), HotkeyDecision::Ignored);
    assert_eq!(app.on_hotkey(STOP, true), HotkeyDecision::StopReading);
    assert_eq!(app.on_hotkey(PTT, true), HotkeyDecision::Ignored);
    assert_eq!(app.on_hotkey(PTT, false), HotkeyDecision::CloseMic);
    assert_eq!(app.on_hotkey(PTT, false), HotkeyDecision::Ignored);
}

#[test]
fn read_aloud_keys_fire_once_per_press() {
    let mut app = ready(Platform::Other);
    assert_eq!(app.on_hotkey(READ, true), HotkeyDecision::ReadSelection);
    assert_eq!(app.on_hotkey(READ, true), HotkeyDecision::Ignored);
    assert_eq!(app.on_hotkey(READ, false), HotkeyDecision::Ignored);
    assert_eq!(app.on_hotkey(READ, true), HotkeyDecision::ReadSelection);
    assert_eq!(app.on_hotkey(CLIP, true), HotkeyDecision::ReadClipboard);
    assert_eq!(app.on_hotkey(99, true), HotkeyDecision::Ignored);
}

#[test]
fn without_a_microphone_nothing_is_recorded() {
    let mut app = ready(Platform::Other);
    app.on_hotkey(PTT, true);
    assert_eq!(app.mic_opened(false), vec![Effect::SetTooltip(Tooltip::MicUnavailable)]);
    assert_eq!(app.on_hotkey(PTT, false), HotkeyDecision::Ignored);
    assert_eq!(app.tray_state, TrayState::Idle);
}

#[test]
fn short_clips_are_dropped() {
    let mut app = ready(Platform::Other);
    app.clip_recorded(Some(MIN_SAMPLES - 1));
    assert_eq!(app.tray_state, TrayState::Idle);
    app.clip_recorded(None);
    assert_eq!(app.tray_state, TrayState::Idle);
    app.config.stt_model = " nova-2 ".to_string();
    let effects = app.clip_recorded(Some(MIN_SAMPLES));
    assert_eq!(app.tray_state, TrayState::Processing);
    assert_eq!(
        effects.last(),
        Some(&Effect::Transcribe {
            provider: "deepgram".to_string(),
            model: Some("nova-2".to_string()),
        })
    );
}

#[test]
fn the_clip_that_is_transcribed_is_the_trimmed_one() {
    let mut app = ready(Platform::Other);
    // Silence alone: nothing is left to transcribe.
    let (clip, effects) = app.clip_finished(Some(vec![0; 48_000]));
    assert_eq!(clip, None);
    assert_eq!(app.tray_state, TrayState::Idle);
    assert!(!effects.iter().any(|e| matches!(e, Effect::Transcribe { .. })));
    // Untrimmed, the same clip is long enough.
    app.config.vad = false;
    let (clip, effects) = app.clip_finished(Some(vec![0; 48_000]));
    assert_eq!(clip, Some(vec![0; 48_000]));
    assert_eq!(app.tray_state, TrayState::Processing);
    assert!(matches!(effects.last(), Some(Effect::Transcribe { .. })));
    let (clip, _) = app.clip_finished(Some(vec![0; MIN_SAMPLES - 1]));
    assert_eq!((clip, app.tray_state), (None, TrayState::Idle));
    let (clip, _) = app.clip_finished(Some(vec![0; MIN_SAMPLES]));
    assert_eq!((clip.map(|c| c.len()), app.tray_state), (Some(MIN_SAMPLES), TrayState::Processing));
    let (clip, _) = app.clip_finished(None);
    assert_eq!((clip, app.tray_state), (None, TrayState::Idle));
    // Speech in the middle: what is transcribed is the part from vad_trim.
    app.config.vad = true;
    let speech: Vec<i16> = (0..48_000)
        .map(|i| {
            let t = i as f64 / 16_000.0 * std::f64::consts::TAU;
            let loud = (16_000..32_000).contains(&i);
            let s = ((t * 300.0).sin() + (t * 900.0).sin()) * 0.4 * i16::MAX as f64;
            if loud { s as i16 } else { 0 }
        })
        .collect();
    let (start, end) = holler::audio::vad_trim(&speech);
    let (clip, _) = app.clip_finished(Some(speech.clone()));
    assert!(end - start < speech.len());
    assert_eq!(clip, Some(speech[start..end].to_vec()));
}

#[test]
fn silence_is_trimmed_unless_the_settings_say_otherwise() {
    let mut app = ready(Platform::Other);
    assert_eq!(app.maybe_vad_trim(vec![0; 1_000]), Vec::<i16>::new());
    app.config.vad = false;
    assert_eq!(app.maybe_vad_trim(vec![0; 1_000]), vec![0i16; 1_000]);
}

fn said(text: &str) -> Transcription {
    Transcription { text: text.to_string(), provider: "deepgram".to_string() }
}

#[test]
fn a_transcript_is_copied_recorded_and_injected() {
    let mut app = ready(Platform::Other);
    let (goes_on, effects) = app.deliver(&said("hello"));
    assert!(goes_on);
    assert_eq!(
        effects,
        vec![
            Effect::SetTooltip(Tooltip::Ready),
            Effect::SetClipboard("hello".to_string()),
            Effect::Record { text: "hello".to_string(), provider: "deepgram".to_string() },
        ]
    );
    assert_eq!(
        app.plan_injection(true, false),
        InjectionPlan::Inject { mode: InjectMode::Paste, settle_ms: 60 }
    );
    assert!(app.wants_injector());
    app.injector_built(true);
    assert!(!app.wants_injector());
    let effects = app.injected(InjectionOutcome::Delivered, 0);
    assert_eq!(
        effects,
        vec![Effect::DrawTray { state: TrayState::Idle, frame: 0 }, Effect::HideOverlay]
    );
    assert_eq!(app.record_failed(), vec![Effect::SetTooltip(Tooltip::HistoryNotSaved)]);
}

#[test]
fn a_blank_transcript_touches_nothing() {
    let mut app = ready(Platform::Other);
    let (goes_on, effects) = app.deliver(&said(" \n"));
    assert!(!goes_on);
    assert!(!effects.iter().any(|e| matches!(e, Effect::SetClipboard(_))));
    assert_eq!(app.tray_state, TrayState::Idle);
}

#[test]
fn what_cannot_be_pasted_is_announced() {
    let mut app = ready(Platform::Windows);
    assert_eq!(
        app.plan_injection(true, false),
        InjectionPlan::Inject { mode: InjectMode::Paste, settle_ms: 100 }
    );
    assert_eq!(app.plan_injection(false, false), InjectionPlan::FallBack);
    assert!(app.accessibility_warned);
    assert_eq!(app.plan_injection(true, true), InjectionPlan::FallBack);
    let effects = app.injected(InjectionOutcome::Skipped, 7);
    assert_eq!(effects[0], Effect::ShowToast);
    assert_eq!(app.toast_hide_at, Some(7 + 4 * SECOND));
    app.config.clipboard_toast = false;
    assert!(app.show_clipboard_toast(9).is_empty());
    app.config.injection_mode = "type".to_string();
    assert_eq!(
        app.plan_injection(false, false),
        InjectionPlan::Inject { mode: InjectMode::Type, settle_ms: 0 }
    );
}

#[test]
fn failures_are_shown_on_the_tray() {
    let mut app = ready(Platform::Other);
    let effects = app.transcription_failed("no network".to_string());
    assert_eq!(effects[0], Effect::SetTooltip(Tooltip::Failed("no network".to_string())));
    assert_eq!(Tooltip::Failed("x".to_string()).text(""), "Holler \u{2014} x");
    assert_eq!(Tooltip::Ready.text("F8"), "Holler \u{2014} hold F8 to talk");
}

#[test]
fn prompts_follow_permissions() {
    let mut app = fresh(Platform::MacOs);
    assert!(app.rebuild_grant_block().is_empty());
    assert!(app.refresh_permissions(true, MicStatus::Granted, 1).is_empty());
    assert_eq!(
        app.refresh_permissions(false, MicStatus::Denied, 2),
        vec![Effect::UpdateGrantBlock]
    );
    assert_eq!(
        app.rebuild_grant_block(),
        vec![GrantEntry::Accessibility, GrantEntry::Microphone, GrantEntry::Separator]
    );
    app.refresh_permissions(true, MicStatus::NotDetermined, 3);
    assert_eq!(app.rebuild_grant_block(), vec![GrantEntry::Microphone, GrantEntry::Separator]);
}

#[test]
fn reading_aloud_shows_on_the_popup() {
    let mut app = ready(Platform::MacOs);
    assert!(app.replay_last(0).is_empty());
    assert!(app.read_clipboard_aloud(Some("  ".to_string()), 0).is_empty());
    assert_eq!(
        app.selection_captured(Some("text".to_string()), 0),
        vec![Effect::RevealPopup, Effect::SpeakWithVoice("text".to_string())]
    );
    assert_eq!(app.on_speech_status(&SpeechStatus::Speaking, 0), vec![Effect::DrawPopup]);
    let popup = app.reader.popup.unwrap();
    assert!(popup.can_stop && popup.can_replay && popup.phase == PopupPhase::Speaking);
    assert_eq!(app.popup_moved(Some(Button::Stop)), vec![Effect::DrawPopup]);
    assert_eq!(app.popup_clicked(5)[0], Effect::StopSpeech);
    assert_eq!(app.reader.hide_at, Some(5 + 2 * SECOND));
    assert_eq!(app.popup_left(), vec![Effect::DrawPopup]);
    assert!(app.popup_left().is_empty());
    app.on_speech_status(&SpeechStatus::Error("x".to_string()), 5);
    assert_eq!(app.reader.hide_at, Some(5 + 4 * SECOND));
    assert_eq!(app.replay_last(6).last(), Some(&Effect::SpeakWithVoice("text".to_string())));
}

#[test]
fn elsewhere_the_system_engine_speaks() {
    let mut app = ready(Platform::Windows);
    assert_eq!(
        app.read_clipboard_aloud(Some("text".to_string()), 0).last(),
        Some(&Effect::SpeakWithSystem("text".to_string()))
    );
    app.system_spoke(Ok(()), 0);
    assert_eq!(app.reader.popup.unwrap().phase, PopupPhase::Speaking);
    assert_eq!(app.stop_read_aloud(0)[0], Effect::StopSystem);
    app.system_spoke(Err("no voice".to_string()), 0);
    assert_eq!(app.reader.popup.unwrap().phase, PopupPhase::Error);
}

#[test]
fn the_loop_wakes_for_deadlines() {
    let mut app = ready(Platform::Other);
    assert_eq!(app.about_to_wait(100), None);
    app.toast_hide_at = Some(500);
    app.reader.hide_at = Some(400);
    assert_eq!(app.about_to_wait(100), Some(400));
    app.set_tray_state(TrayState::Recording);
    assert_eq!(app.about_to_wait(100), Some(400));
    assert_eq!(app.about_to_wait(0), Some(400));
    app.reader.hide_at = None;
    app.toast_hide_at = None;
    assert_eq!(app.about_to_wait(100), Some(100 + FRAME_INTERVAL));
    let app = ready(Platform::MacOs);
    assert_eq!(app.about_to_wait(100), Some(100 + AX_POLL_INTERVAL));
}

#[test]
fn deadlines_that_came_are_settled() {
    let mut app = ready(Platform::Other);
    app.toast_hide_at = Some(500);
    let (effects, poll) = app.new_events(false, 499);
    assert!(effects.is_empty() && !poll);
    let (effects, _) = app.new_events(false, 500);
    assert_eq!(effects, vec![Effect::HideToast]);
    assert_eq!(app.toast_hide_at, None);
    let (_, poll) = app.new_events(false, AX_POLL_INTERVAL);
    assert!(poll);
    app.set_tray_state(TrayState::Processing);
    let (effects, _) = app.new_events(true, 501);
    assert_eq!(
        effects,
        vec![
            Effect::DrawTray { state: TrayState::Processing, frame: 1 },
            Effect::DrawOverlay { phase: Phase::Processing, frame: 1 },
        ]
    );
}

#[test]
fn repaints_of_the_settings_are_collected() {
    let mut app = with_window(ready(Platform::Other));
    assert_eq!(app.settings_repaint(0, 10), vec![Effect::DrawSettings]);
    assert!(app.settings_repaint(100, 10).is_empty());
    assert!(app.settings_repaint(50, 10).is_empty());
    assert!(app.settings_repaint(u64::MAX, 10).is_empty());
    assert_eq!(app.settings_repaint_at, Some(60));
    app.settings_closed();
    assert!(app.settings.is_none() && app.settings_repaint_at.is_none());
    assert_eq!(
        app.settings_opened(None),
        vec![Effect::SetTooltip(Tooltip::SettingsFailed)]
    );
}

#[test]
fn the_menu_routes_its_entries() {
    let app = ready(Platform::Other);
    assert_eq!(menu_entries().len(), 9);
    assert_eq!(menu_entries()[0].label(), "Settings\u{2026}");
    assert_eq!(app.menu_chosen(MenuEntry::Settings), MenuChoice::OpenSettings);
    assert_eq!(app.menu_chosen(MenuEntry::Quit), MenuChoice::Exit);
    assert_eq!(app.menu_chosen(MenuEntry::Replay), MenuChoice::Replay);
    assert_eq!(
        app.menu_chosen(MenuEntry::GrantMicrophone),
        MenuChoice::OpenMicrophoneSettings
    );
    let app = with_window(app);
    assert_eq!(app.menu_chosen(MenuEntry::Settings), MenuChoice::FocusSettings);
    assert_eq!(opener(Platform::MacOs), "open");
    assert_eq!(opener(Platform::Windows), "explorer");
    assert_eq!(opener(Platform::Other), "xdg-open");
}

#[test]
fn the_push_to_talk_key_is_changed_with_care() {
    let mut app = ready(Platform::Other);
    let change = app.apply_ptt_key("ctrl+shift+p").unwrap();
    assert!(change.register && change.retire.is_some());
    let refused = app.ptt_registered("ctrl+shift+p".to_string(), change, Err("in use".to_string()));
    assert!(refused.unwrap_err().contains("Ctrl+Shift+P"));
    assert_eq!(app.keys.ptt_hotkey_id, Some(PTT));
    assert_eq!(app.ptt_label, "Ctrl+Alt+Space");
    let change = app.apply_ptt_key("ctrl+shift+p").unwrap();
    let id = change.hotkey.id;
    assert!(app.ptt_registered("ctrl+shift+p".to_string(), change, Ok(())).is_ok());
    assert_eq!(app.keys.ptt_hotkey_id, Some(id));
    assert_eq!(app.config.ptt_key, "ctrl+shift+p");
    assert_eq!(app.ptt_saved(Ok(())).0, Ok("Ctrl+Shift+P".to_string()));
    assert_eq!(
        app.ptt_saved(Err("full".to_string())).0.unwrap_err(),
        "hotkey is active, but saving config failed: full"
    );
    // The same combination once more has not to be registered.
    assert!(!app.apply_ptt_key("shift+ctrl+p").unwrap().register);
    app.on_hotkey(id, true);
    assert_eq!(app.apply_ptt_key("f8").unwrap_err(), RELEASE_FIRST);
    let app = fresh(Platform::Other);
    assert_eq!(app.apply_ptt_key("f8").unwrap_err(), NO_HOTKEYS);
    assert!(ready(Platform::Other).apply_ptt_key("nonsense").is_err());
}

#[test]
fn read_aloud_keys_are_changed_with_care() {
    let mut app = ready(Platform::Other);
    let change = app.apply_tts_hotkey(TtsHotkey::Stop, "f9").unwrap();
    let id = change.hotkey.id;
    assert!(app.tts_registered(TtsHotkey::Stop, "f9".to_string(), change, Ok(())).is_ok());
    assert_eq!(app.keys.tts_stop_hotkey_id, Some(id));
    assert_eq!(app.keys.tts_read_hotkey_id, Some(READ));
    assert_eq!(app.config.tts_stop_hotkey, "f9");
    assert_eq!(app.tts_key_saved("f9".to_string(), Ok(())), Ok("f9".to_string()));
    assert_eq!(tts_hotkey_purpose(TtsHotkey::Stop), "stop speaking");
}

#[test]
fn edits_become_tasks_and_feedback() {
    let mut app = with_window(ready(Platform::Other));
    let save = SettingsAction::SaveTts {
        backend: "openai".to_string(),
        voice: "nova".to_string(),
        rate: 3,
    };
    assert_eq!(app.handle_settings_action(save), Task::SaveConfig(Topic::Voice));
    assert_eq!((app.config.tts_backend.as_str(), app.config.tts_rate), ("openai", 3));
    assert_eq!(app.config_saved(Topic::Voice, Ok(())), vec![Effect::RebuildVoice]);
    assert!(app.config_saved(Topic::Voice, Err("full".to_string())).is_empty());
    let save = SettingsAction::SaveGeneral {
        injection_mode: "type".to_string(),
        vad: false,
        clipboard_toast: false,
    };
    assert_eq!(app.handle_settings_action(save), Task::SaveConfig(Topic::General));
    assert!(!app.config.vad && app.config.injection_mode == "type");
    assert_eq!(
        app.handle_settings_action(SettingsAction::DeleteHistory { id: 3, query: "q".to_string() }),
        Task::DeleteEntry { id: 3, query: "q".to_string() }
    );
    app.deleted(Some(Ok(())), Some(Ok(vec![])));
    let w = app.settings.as_ref().unwrap();
    assert!(w.history_loaded);
    assert_eq!(w.history_status, Some((true, "Deleted \u{2713}".to_string())));
    app.history_loaded(None);
    assert_eq!(
        app.settings.as_ref().unwrap().history_status,
        Some((false, "history database unavailable".to_string()))
    );
    app.stats_loaded(Some(Err(StoreError::Db("locked".to_string()))));
    assert_eq!(
        app.settings.as_ref().unwrap().stats_status,
        Some((false, "history database error: locked".to_string()))
    );
    app.stats_loaded(Some(Ok(Stats::default())));
    app.copied(Some(Ok(())));
    assert_eq!(
        app.settings.as_ref().unwrap().history_status,
        Some((true, "Copied to clipboard \u{2713}".to_string()))
    );
    app.copied(None);
    app.entry_spoken(Ok(()));
    app.entry_stopped();
    assert_eq!(
        app.settings.as_ref().unwrap().history_status,
        Some((true, "Stopped".to_string()))
    );
    app.key_changed("deepgram", SecretStatus::FromFile, Ok(()));
    assert_eq!(app.settings.as_ref().unwrap().deepgram_key.status, SecretStatus::FromFile);
    app.ptt_key_applied(Ok("F8".to_string()));
    assert_eq!(app.settings.as_ref().unwrap().ptt_label, "F8");
    app.tts_hotkey_applied(Ok("f9".to_string()));
    // Without a window, feedback goes nowhere.
    app.settings_closed();
    app.config_saved(Topic::General, Ok(()));
    assert!(app.settings.is_none());
    app.read_selection_aloud(false);
    assert!(!app.accessibility_ok);
}
