//! What follows when the user confirms an edit in the settings window.

use vstd::prelude::*;

use super::{one, App, Effect};
use crate::config::Config;
use crate::secrets::SecretStatus;
use crate::store::{Entry, Stats, StoreError};
use crate::ui::{SettingsAction, TtsHotkey, UiState};

verus! {

/// Which part of the settings was edited.
#[derive(Debug, Clone, Copy, PartialEq, Eq, Structural)]
pub enum Topic {
    General,
    Providers,
    Voice,
}

/// What carrying out an edit takes.
#[derive(Debug, PartialEq, Eq)]
pub enum Task {
    /// Save the settings, then [`App::config_saved`].
    SaveConfig(Topic),
    /// [`App::apply_ptt_key`], then [`App::ptt_key_applied`].
    ChangePttKey(String),
    /// [`App::apply_tts_hotkey`], then [`App::tts_hotkey_applied`].
    ChangeTtsKey { which: TtsHotkey, combo: String },
    /// Store a key, then [`App::key_changed`].
    StoreKey { provider: String, key: String },
    /// Remove a key, then [`App::key_changed`].
    RemoveKey { provider: String },
    /// Open the system's Accessibility settings.
    OpenAccessibilitySettings,
    /// Open the system's microphone settings.
    OpenMicrophoneSettings,
    /// Search the history, then [`App::history_loaded`].
    LoadHistory { query: String },
    /// Put a text on the clipboard, then [`App::copied`].
    CopyText { text: String },
    /// Delete a transcript, search the history, then [`App::deleted`].
    DeleteEntry { id: i64, query: String },
    /// Compute the statistics, then [`App::stats_loaded`].
    LoadStats,
    /// Read a text aloud with the system's engine, then [`App::entry_spoken`].
    Speak { text: String },
    /// Stop the system's engine, then [`App::entry_stopped`].
    StopSpeaking,
}

/// The settings once an edit was taken over.
pub open spec fn config_after(config: Config, action: SettingsAction) -> Config {
    match action {
        SettingsAction::SaveGeneral { injection_mode, vad, clipboard_toast } => Config {
            injection_mode,
            vad,
            clipboard_toast,
            ..config
        },
        SettingsAction::SaveProviders { provider, model } => Config {
            stt_provider: provider,
            stt_model: model,
            ..config
        },
        SettingsAction::SaveTts { backend, voice, rate } => Config {
            tts_backend: backend,
            tts_voice: voice,
            tts_rate: rate,
            ..config
        },
        _ => config,
    }
}

/// What carrying out an edit takes.
pub open spec fn task_for(action: SettingsAction) -> Task {
    match action {
        SettingsAction::SaveGeneral { .. } => Task::SaveConfig(Topic::General),
        SettingsAction::SaveProviders { .. } => Task::SaveConfig(Topic::Providers),
        SettingsAction::SaveTts { .. } => Task::SaveConfig(Topic::Voice),
        SettingsAction::ApplyPttKey(raw) => Task::ChangePttKey(raw),
        SettingsAction::ApplyTtsHotkey { which, combo } => Task::ChangeTtsKey { which, combo },
        SettingsAction::SetKey { provider, key } => Task::StoreKey { provider, key },
        SettingsAction::ClearKey { provider } => Task::RemoveKey { provider },
        SettingsAction::OpenAccessibilitySettings => Task::OpenAccessibilitySettings,
        SettingsAction::OpenMicrophoneSettings => Task::OpenMicrophoneSettings,
        SettingsAction::LoadHistory { query } => Task::LoadHistory { query },
        SettingsAction::CopyHistory { text } => Task::CopyText { text },
        SettingsAction::DeleteHistory { id, query } => Task::DeleteEntry { id, query },
        SettingsAction::LoadStats => Task::LoadStats,
        SettingsAction::SpeakHistory { text } => Task::Speak { text },
        SettingsAction::StopSpeaking => Task::StopSpeaking,
    }
}

/// Takes over an edit into the settings.
fn take_over(config: &mut Config, action: SettingsAction) -> (r: Task)
    ensures
        r == task_for(action),
        *final(config) == config_after(*old(config), action),
{
    match action {
        SettingsAction::SaveGeneral { injection_mode, vad, clipboard_toast } => {
            config.injection_mode = injection_mode;
            config.vad = vad;
            config.clipboard_toast = clipboard_toast;
            Task::SaveConfig(Topic::General)
        },
        SettingsAction::SaveProviders { provider, model } => {
            config.stt_provider = provider;
            config.stt_model = model;
            Task::SaveConfig(Topic::Providers)
        },
        SettingsAction::SaveTts { backend, voice, rate } => {
            config.tts_backend = backend;
            config.tts_voice = voice;
            config.tts_rate = rate;
            Task::SaveConfig(Topic::Voice)
        },
        SettingsAction::ApplyPttKey(raw) => Task::ChangePttKey(raw),
        SettingsAction::ApplyTtsHotkey { which, combo } => Task::ChangeTtsKey { which, combo },
        SettingsAction::SetKey { provider, key } => Task::StoreKey { provider, key },
        SettingsAction::ClearKey { provider } => Task::RemoveKey { provider },
        SettingsAction::OpenAccessibilitySettings => Task::OpenAccessibilitySettings,
        SettingsAction::OpenMicrophoneSettings => Task::OpenMicrophoneSettings,
        SettingsAction::LoadHistory { query } => Task::LoadHistory { query },
        SettingsAction::CopyHistory { text } => Task::CopyText { text },
        SettingsAction::DeleteHistory { id, query } => Task::DeleteEntry { id, query },
        SettingsAction::LoadStats => Task::LoadStats,
        SettingsAction::SpeakHistory { text } => Task::Speak { text },
        SettingsAction::StopSpeaking => Task::StopSpeaking,
    }
}

/// What is said when there is no history.
pub const NO_HISTORY: &'static str = "history database unavailable";

/// What a database operation came to, as far as the user is told: `None` is that
/// there is no history.
pub open spec fn told<T>(r: Result<T, String>, outcome: Option<Result<T, StoreError>>) -> bool {
    match outcome {
        None => r matches Err(m) && m@ == NO_HISTORY@,
        Some(Ok(v)) => r == Ok::<T, String>(v),
        Some(Err(e)) => r matches Err(m) && m@ == crate::store::store_error_text(e),
    }
}

fn tell<T>(outcome: Option<Result<T, StoreError>>) -> (r: Result<T, String>)
    ensures
        told(r, outcome),
{
    match outcome {
        None => Err(NO_HISTORY.to_owned()),
        Some(Ok(v)) => Ok(v),
        Some(Err(e)) => Err(e.message()),
    }
}

/// Whether the settings window, if it is open, went from `before` to `after` as
/// `step` says.
pub open spec fn window_went(
    before: Option<UiState>,
    after: Option<UiState>,
    step: spec_fn(UiState, UiState) -> bool,
) -> bool {
    match (before, after) {
        (Some(w), Some(w2)) => step(w, w2),
        (None, None) => true,
        _ => false,
    }
}

impl App {
    /// Takes over an edit that the user confirmed. The result is what is left to
    /// do; edits are carried out in order, each to its end.
    pub fn handle_settings_action(&mut self, action: SettingsAction) -> (r: Task)
        ensures
            r == task_for(action),
            *final(self) == (App { config: config_after(old(self).config, action), ..*old(self) }),
    {
        take_over(&mut self.config, action)
    }

    /// The settings were saved, or could not be. With a new voice, it is built
    /// anew.
    pub fn config_saved(&mut self, topic: Topic, res: Result<(), String>) -> (r: Vec<Effect>)
        ensures
            window_went(
                old(self).settings,
                final(self).settings,
                |w: UiState, w2: UiState|
                    match topic {
                        Topic::General => w.general_fed(w2, res),
                        Topic::Providers => w.provider_fed(w2, res),
                        Topic::Voice => w.tts_fed(w2, res),
                    },
            ),
            *final(self) == (App { settings: final(self).settings, ..*old(self) }),
            r@ == (if topic == Topic::Voice && res is Ok {
                seq![Effect::RebuildVoice]
            } else {
                Seq::empty()
            }),
    {
        let rebuild = match topic {
            Topic::Voice => res.is_ok(),
            _ => false,
        };
        match &mut self.settings {
            Some(w) => {
                match topic {
                    Topic::General => {
                        w.general_feedback(res);
                    },
                    Topic::Providers => {
                        w.provider_feedback(res);
                    },
                    Topic::Voice => {
                        w.tts_feedback(res);
                    },
                }
            },
            None => {},
        }
        if rebuild {
            one(Effect::RebuildVoice)
        } else {
            Vec::new()
        }
    }

    /// The push-to-talk key was changed, or could not be.
    pub fn ptt_key_applied(&mut self, res: Result<String, String>)
        ensures
            window_went(
                old(self).settings,
                final(self).settings,
                |w: UiState, w2: UiState| w.hotkey_fed(w2, res),
            ),
            *final(self) == (App { settings: final(self).settings, ..*old(self) }),
    {
        match &mut self.settings {
            Some(w) => {
                w.hotkey_feedback(res);
            },
            None => {},
        }
    }

    /// A read-aloud hotkey was changed, or could not be.
    pub fn tts_hotkey_applied(&mut self, res: Result<String, String>)
        ensures
            window_went(
                old(self).settings,
                final(self).settings,
                |w: UiState, w2: UiState| w.tts_hotkey_fed(w2, res),
            ),
            *final(self) == (App { settings: final(self).settings, ..*old(self) }),
    {
        match &mut self.settings {
            Some(w) => {
                w.tts_hotkey_feedback(res);
            },
            None => {},
        }
    }

    /// A key was stored or removed, or could not be; `status` was looked up
    /// afterwards.
    pub fn key_changed(&mut self, provider: &str, status: SecretStatus, res: Result<(), String>)
        ensures
            window_went(
                old(self).settings,
                final(self).settings,
                |w: UiState, w2: UiState| w.key_fed(w2, provider@, status, res),
            ),
            *final(self) == (App { settings: final(self).settings, ..*old(self) }),
    {
        match &mut self.settings {
            Some(w) => {
                w.key_feedback(provider, status, res);
            },
            None => {},
        }
    }

    /// The history was searched, if there is one.
    pub fn history_loaded(&mut self, found: Option<Result<Vec<Entry>, StoreError>>)
        ensures
            window_went(
                old(self).settings,
                final(self).settings,
                |w: UiState, w2: UiState| listed(w, w2, found),
            ),
            *final(self) == (App { settings: final(self).settings, ..*old(self) }),
    {
        let res = tell(found);
        match &mut self.settings {
            Some(w) => {
                w.history_loaded(res);
            },
            None => {},
        }
    }

    /// A text was put on the clipboard, or could not be; `None` is that there is
    /// no clipboard.
    pub fn copied(&mut self, outcome: Option<Result<(), String>>)
        ensures
            window_went(
                old(self).settings,
                final(self).settings,
                |w: UiState, w2: UiState|
                    noted(
                        w,
                        w2,
                        match outcome {
                            Some(Ok(_)) => (true, "Copied to clipboard \u{2713}"@),
                            Some(Err(e)) => (false, e@),
                            None => (false, "clipboard unavailable"@),
                        },
                    ),
            ),
            *final(self) == (App { settings: final(self).settings, ..*old(self) }),
    {
        let res: Result<String, String> = match outcome {
            Some(Ok(_)) => Ok("Copied to clipboard \u{2713}".to_owned()),
            Some(Err(e)) => Err(e),
            None => Err("clipboard unavailable".to_owned()),
        };
        match &mut self.settings {
            Some(w) => {
                w.history_action_feedback(res);
            },
            None => {},
        }
    }

    /// A transcript was deleted, or could not be, and the history was searched.
    pub fn deleted(
        &mut self,
        deleted: Option<Result<(), StoreError>>,
        found: Option<Result<Vec<Entry>, StoreError>>,
    )
        ensures
            window_went(
                old(self).settings,
                final(self).settings,
                |w: UiState, w2: UiState|
                    exists|mid: UiState| #[trigger]
                        listed(w, mid, found) && noted(
                            mid,
                            w2,
                            match deleted {
                                Some(Ok(_)) => (true, "Deleted \u{2713}"@),
                                Some(Err(e)) => (false, crate::store::store_error_text(e)),
                                None => (false, NO_HISTORY@),
                            },
                        ),
            ),
            *final(self) == (App { settings: final(self).settings, ..*old(self) }),
    {
        let reload = tell(found);
        let res: Result<String, String> = match tell(deleted) {
            Ok(_) => Ok("Deleted \u{2713}".to_owned()),
            Err(e) => Err(e),
        };
        match &mut self.settings {
            Some(w) => {
                let ghost before = *w;
                w.history_loaded(reload);
                assert(listed(before, *w, found));
                w.history_action_feedback(res);
            },
            None => {},
        }
    }

    /// The statistics were computed, if there is a history.
    pub fn stats_loaded(&mut self, found: Option<Result<Stats, StoreError>>)
        ensures
            window_went(
                old(self).settings,
                final(self).settings,
                |w: UiState, w2: UiState| counted(w, w2, found),
            ),
            *final(self) == (App { settings: final(self).settings, ..*old(self) }),
    {
        let res = tell(found);
        match &mut self.settings {
            Some(w) => {
                w.stats_loaded(res);
            },
            None => {},
        }
    }

    /// The system's engine took a transcript to read, or refused it.
    pub fn entry_spoken(&mut self, res: Result<(), String>)
        ensures
            window_went(
                old(self).settings,
                final(self).settings,
                |w: UiState, w2: UiState|
                    noted(
                        w,
                        w2,
                        match res {
                            Ok(_) => (true, "Reading aloud\u{2026} \u{2713}"@),
                            Err(e) => (false, e@),
                        },
                    ),
            ),
            *final(self) == (App { settings: final(self).settings, ..*old(self) }),
    {
        let said: Result<String, String> = match res {
            Ok(_) => Ok("Reading aloud\u{2026} \u{2713}".to_owned()),
            Err(e) => Err(e),
        };
        match &mut self.settings {
            Some(w) => {
                w.history_action_feedback(said);
            },
            None => {},
        }
    }

    /// The system's engine was stopped.
    pub fn entry_stopped(&mut self)
        ensures
            window_went(
                old(self).settings,
                final(self).settings,
                |w: UiState, w2: UiState| noted(w, w2, (true, "Stopped"@)),
            ),
            *final(self) == (App { settings: final(self).settings, ..*old(self) }),
    {
        match &mut self.settings {
            Some(w) => {
                w.history_action_feedback(Ok("Stopped".to_owned()));
            },
            None => {},
        }
    }
}

/// Whether `after` is the window `before` with the outcome of a search.
pub open spec fn listed(
    before: UiState,
    after: UiState,
    found: Option<Result<Vec<Entry>, StoreError>>,
) -> bool {
    match found {
        Some(Ok(entries)) => after == (UiState {
            history_loaded: true,
            history_entries: entries,
            ..before
        }),
        Some(Err(e)) => crate::ui::says(
            after.history_status,
            false,
            crate::store::store_error_text(e),
        ) && after == (UiState {
            history_loaded: true,
            history_status: after.history_status,
            ..before
        }),
        None => crate::ui::says(after.history_status, false, NO_HISTORY@) && after == (UiState {
            history_loaded: true,
            history_status: after.history_status,
            ..before
        }),
    }
}

/// Whether `after` is the window `before` with a line on its History panel.
pub open spec fn noted(before: UiState, after: UiState, line: (bool, Seq<char>)) -> bool {
    crate::ui::says(after.history_status, line.0, line.1) && after == (UiState {
        history_status: after.history_status,
        ..before
    })
}

/// Whether `after` is the window `before` with the statistics.
pub open spec fn counted(
    before: UiState,
    after: UiState,
    found: Option<Result<Stats, StoreError>>,
) -> bool {
    match found {
        Some(Ok(s)) => after == (UiState { stats: Some(s), stats_status: None, ..before }),
        Some(Err(e)) => crate::ui::says(
            after.stats_status,
            false,
            crate::store::store_error_text(e),
        ) && after == (UiState { stats_status: after.stats_status, ..before }),
        None => crate::ui::says(after.stats_status, false, NO_HISTORY@) && after == (UiState {
            stats_status: after.stats_status,
            ..before
        }),
    }
}

// ---- Laws ------------------------------------------------------------------

/// Each task carries out one edit, with the edit's own data: read backwards, a task
/// says which edit it came from.
pub proof fn a_task_carries_out_its_edit(action: SettingsAction)
    ensures
        match task_for(action) {
            Task::SaveConfig(Topic::General) => action is SaveGeneral,
            Task::SaveConfig(Topic::Providers) => action is SaveProviders,
            Task::SaveConfig(Topic::Voice) => action is SaveTts,
            Task::ChangePttKey(raw) => action == SettingsAction::ApplyPttKey(raw),
            Task::ChangeTtsKey { which, combo } => action == (SettingsAction::ApplyTtsHotkey {
                which,
                combo,
            }),
            Task::StoreKey { provider, key } => action == (SettingsAction::SetKey {
                provider,
                key,
            }),
            Task::RemoveKey { provider } => action == (SettingsAction::ClearKey { provider }),
            Task::OpenAccessibilitySettings => action
                == SettingsAction::OpenAccessibilitySettings,
            Task::OpenMicrophoneSettings => action == SettingsAction::OpenMicrophoneSettings,
            Task::LoadHistory { query } => action == (SettingsAction::LoadHistory { query }),
            Task::CopyText { text } => action == (SettingsAction::CopyHistory { text }),
            Task::DeleteEntry { id, query } => action == (SettingsAction::DeleteHistory {
                id,
                query,
            }),
            Task::LoadStats => action == SettingsAction::LoadStats,
            Task::Speak { text } => action == (SettingsAction::SpeakHistory { text }),
            Task::StopSpeaking => action == SettingsAction::StopSpeaking,
        },
{
}

/// An edit changes the settings that it names to what it says, and no others; an edit
/// that saves nothing changes none.
pub proof fn an_edit_changes_only_its_settings(config: Config, action: SettingsAction)
    ensures
        ({
            let c = config_after(config, action);
            &&& c.ptt_key == config.ptt_key && c.tts_read_hotkey == config.tts_read_hotkey
                && c.tts_read_clipboard_hotkey == config.tts_read_clipboard_hotkey
                && c.tts_stop_hotkey == config.tts_stop_hotkey
            &&& !(action is SaveGeneral) ==> c.injection_mode == config.injection_mode && c.vad
                == config.vad && c.clipboard_toast == config.clipboard_toast
            &&& !(action is SaveProviders) ==> c.stt_provider == config.stt_provider
                && c.stt_model == config.stt_model
            &&& !(action is SaveTts) ==> c.tts_backend == config.tts_backend && c.tts_voice
                == config.tts_voice && c.tts_rate == config.tts_rate
            &&& action matches SettingsAction::SaveGeneral { injection_mode, vad, clipboard_toast }
                ==> c.injection_mode == injection_mode && c.vad == vad && c.clipboard_toast
                == clipboard_toast
            &&& action matches SettingsAction::SaveProviders { provider, model }
                ==> c.stt_provider == provider && c.stt_model == model
            &&& action matches SettingsAction::SaveTts { backend, voice, rate } ==> c.tts_backend
                == backend && c.tts_voice == voice && c.tts_rate == rate
        }),
{
}

/// What the database gave is what the user gets, and why it gave nothing is what the
/// user is told.
pub proof fn outcomes_are_passed_on<T>(r: Result<T, String>, outcome: Option<Result<T, StoreError>>)
    requires
        told(r, outcome),
    ensures
        r is Ok <==> outcome is Some && outcome->0 is Ok,
        r matches Ok(v) ==> outcome == Some(Ok::<T, StoreError>(v)),
        outcome is None ==> (r matches Err(m) && m@ == "history database unavailable"@),
        outcome matches Some(Err(e)) ==> (r matches Err(m) && m@
            == crate::store::store_error_text(e)),
{
}

/// A search that worked shows exactly what it found; one that failed leaves the list
/// as it was and says so. Either way the panel is no longer waiting.
pub proof fn the_panel_lists_what_was_found(
    before: UiState,
    after: UiState,
    found: Option<Result<Vec<Entry>, StoreError>>,
)
    requires
        listed(before, after, found),
    ensures
        after.history_loaded,
        found matches Some(Ok(entries)) ==> after.history_entries == entries
            && after.history_status == before.history_status,
        !(found is Some && found->0 is Ok) ==> after.history_entries == before.history_entries
            && (after.history_status matches Some((ok, _)) && !ok),
        after.actions == before.actions && after.history_query == before.history_query
            && after.history_requested == before.history_requested,
{
}

/// A line on the History panel is shown as it is, and nothing else changes.
pub proof fn a_note_changes_nothing_else(
    before: UiState,
    after: UiState,
    ok: bool,
    message: Seq<char>,
)
    requires
        noted(before, after, (ok, message)),
    ensures
        after.history_status matches Some((k, m)) && k == ok && m@ == message,
        after.history_entries == before.history_entries && after.history_loaded
            == before.history_loaded && after.actions == before.actions && after.stats
            == before.stats,
{
}

/// Statistics that came replace those shown and end any complaint; those that did not
/// come leave them as they are.
pub proof fn the_panel_shows_what_was_counted(
    before: UiState,
    after: UiState,
    found: Option<Result<Stats, StoreError>>,
)
    requires
        counted(before, after, found),
    ensures
        found matches Some(Ok(s)) ==> after.stats == Some(s) && after.stats_status is None,
        !(found is Some && found->0 is Ok) ==> after.stats == before.stats && (
        after.stats_status matches Some((ok, _)) && !ok),
        after.history_entries == before.history_entries && after.actions == before.actions,
{
}

/// An open window stays open and a closed one closed.
pub proof fn outcomes_open_no_window(
    before: Option<UiState>,
    after: Option<UiState>,
    step: spec_fn(UiState, UiState) -> bool,
)
    requires
        window_went(before, after, step),
    ensures
        before is Some <==> after is Some,
        before is Some ==> step(before->0, after->0),
{
}

} // verus!
