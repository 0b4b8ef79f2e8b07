//! The settings window: its panels, what each shows, and what each click does.
//!
//! The window touches neither files nor hotkeys. An edit that the user confirms
//! becomes a [`SettingsAction`], which the application carries out after the
//! frame; its outcome comes back through the feedback functions.

use vstd::prelude::*;

use crate::config::{prefixed, Config};
use crate::permissions::{MicStatus, Platform};
use crate::ptt::{try_parse_ptt_key, HotKey};
use crate::secrets::SecretStatus;
use crate::store::{Entry, Stats};
use crate::text::{self, blank, join, same, to_ascii_lowercase, trim};

verus! {

/// Which of the read-aloud hotkeys.
#[derive(Debug, Clone, Copy, PartialEq, Eq, Structural)]
pub enum TtsHotkey {
    ReadSelection,
    ReadClipboard,
    Stop,
}

/// An edit that the user confirmed.
#[derive(Debug, PartialEq, Eq)]
pub enum SettingsAction {
    /// Save the fields of the General panel.
    SaveGeneral { injection_mode: String, vad: bool, clipboard_toast: bool },
    /// Use this push-to-talk combination and save it.
    ApplyPttKey(String),
    /// Save the speech-to-text provider and model.
    SaveProviders { provider: String, model: String },
    /// Store an API key.
    SetKey { provider: String, key: String },
    /// Remove an API key.
    ClearKey { provider: String },
    /// Open the system's Accessibility settings.
    OpenAccessibilitySettings,
    /// Open the system's microphone settings.
    OpenMicrophoneSettings,
    /// Load the transcripts that contain `query`.
    LoadHistory { query: String },
    /// Copy a transcript to the clipboard.
    CopyHistory { text: String },
    /// Delete a transcript, then load those that contain `query`.
    DeleteHistory { id: i64, query: String },
    /// Compute the usage statistics.
    LoadStats,
    /// Read a transcript aloud.
    SpeakHistory { text: String },
    /// Stop reading aloud.
    StopSpeaking,
    /// Save the read-aloud voice.
    SaveTts { backend: String, voice: String, rate: u32 },
    /// Use this combination for a read-aloud hotkey and save it.
    ApplyTtsHotkey { which: TtsHotkey, combo: String },
}

// ---- Panels ----------------------------------------------------------------

/// A section of the settings.
#[derive(Debug, Clone, Copy, PartialEq, Eq, Structural)]
pub enum Panel {
    General,
    Hotkey,
    Providers,
    Permissions,
    History,
    Stats,
    About,
}

/// The sections in the order in which they are listed.
pub open spec fn panel_order() -> Seq<Panel> {
    seq![
        Panel::General,
        Panel::Hotkey,
        Panel::Providers,
        Panel::Permissions,
        Panel::History,
        Panel::Stats,
        Panel::About,
    ]
}

impl Panel {
    /// The sections in the order in which they are listed.
    pub fn all() -> (r: [Panel; 7])
        ensures
            r@ == panel_order(),
    {
        let all: [Panel; 7] = [
            Panel::General,
            Panel::Hotkey,
            Panel::Providers,
            Panel::Permissions,
            Panel::History,
            Panel::Stats,
            Panel::About,
        ];
        assert(all@ =~= panel_order());
        all
    }

    /// The name in the list.
    pub fn label(self) -> (r: &'static str)
        ensures
            r@ == (match self {
                Panel::General => "General"@,
                Panel::Hotkey => "Hotkey"@,
                Panel::Providers => "Providers"@,
                Panel::Permissions => "Permissions"@,
                Panel::History => "History"@,
                Panel::Stats => "Stats"@,
                Panel::About => "About"@,
            }),
    {
        match self {
            Panel::General => "General",
            Panel::Hotkey => "Hotkey",
            Panel::Providers => "Providers",
            Panel::Permissions => "Permissions",
            Panel::History => "History",
            Panel::Stats => "Stats",
            Panel::About => "About",
        }
    }

    /// What the section is about.
    pub fn blurb(self) -> (r: &'static str)
        ensures
            r@ == (match self {
                Panel::General => "Injection mode, VAD and other behaviour."@,
                Panel::Hotkey => "The push-to-talk combo."@,
                Panel::Providers => "Speech-to-text providers and API keys."@,
                Panel::Permissions => "Microphone and Accessibility status."@,
                Panel::History => "Your transcript history."@,
                Panel::Stats => "Local usage statistics."@,
                Panel::About => "About Holler."@,
            }),
    {
        match self {
            Panel::General => "Injection mode, VAD and other behaviour.",
            Panel::Hotkey => "The push-to-talk combo.",
            Panel::Providers => "Speech-to-text providers and API keys.",
            Panel::Permissions => "Microphone and Accessibility status.",
            Panel::History => "Your transcript history.",
            Panel::Stats => "Local usage statistics.",
            Panel::About => "About Holler.",
        }
    }
}

// ---- Providers -------------------------------------------------------------

/// A speech-to-text provider as the panel lists it.
#[derive(Debug, Clone, Copy, PartialEq, Eq)]
pub struct ProviderMeta {
    /// The identifier in the settings and of the key's account.
    pub id: &'static str,
    pub name: &'static str,
    /// "Cloud" or "Local".
    pub kind: &'static str,
    pub default_model: &'static str,
    /// Whether it can be used; the others are announced.
    pub available: bool,
}

pub const PROVIDER_COUNT: usize = 6;

/// The identifiers of the listed providers, in order.
pub open spec fn provider_ids() -> Seq<Seq<char>> {
    seq!["deepgram"@, "openai"@, "groq"@, "elevenlabs"@, "local-whisper"@, "parakeet"@]
}

/// The names of the listed providers, in order.
pub open spec fn provider_names() -> Seq<Seq<char>> {
    seq![
        "Deepgram"@,
        "OpenAI"@,
        "Groq Whisper"@,
        "ElevenLabs Scribe"@,
        "LocalWhisper"@,
        "NVIDIA Parakeet"@,
    ]
}

/// The listed provider number `i`.
pub fn provider_meta(i: usize) -> (r: ProviderMeta)
    requires
        i < PROVIDER_COUNT,
    ensures
        r.id@ == provider_ids()[i as int],
        r.name@ == provider_names()[i as int],
        r.kind@ == (if i < 4 {
            "Cloud"@
        } else {
            "Local"@
        }),
        r.available == (i < 2),
        r.default_model@ == (if i == 0 {
            crate::stt::DeepgramStt::DEFAULT_MODEL@
        } else if i == 1 {
            crate::stt::OpenAiStt::DEFAULT_MODEL@
        } else {
            ""@
        }),
{
    if i == 0 {
        ProviderMeta {
            id: "deepgram",
            name: "Deepgram",
            kind: "Cloud",
            default_model: crate::stt::DeepgramStt::DEFAULT_MODEL,
            available: true,
        }
    } else if i == 1 {
        ProviderMeta {
            id: "openai",
            name: "OpenAI",
            kind: "Cloud",
            default_model: crate::stt::OpenAiStt::DEFAULT_MODEL,
            available: true,
        }
    } else if i == 2 {
        ProviderMeta {
            id: "groq",
            name: "Groq Whisper",
            kind: "Cloud",
            default_model: "",
            available: false,
        }
    } else if i == 3 {
        ProviderMeta {
            id: "elevenlabs",
            name: "ElevenLabs Scribe",
            kind: "Cloud",
            default_model: "",
            available: false,
        }
    } else if i == 4 {
        ProviderMeta {
            id: "local-whisper",
            name: "LocalWhisper",
            kind: "Local",
            default_model: "",
            available: false,
        }
    } else {
        ProviderMeta {
            id: "parakeet",
            name: "NVIDIA Parakeet",
            kind: "Local",
            default_model: "",
            available: false,
        }
    }
}

/// The name under which a provider is shown: that of the listed provider with
/// this identifier, or the identifier itself.
pub open spec fn display_name(id: Seq<char>, from: int) -> Seq<char>
    decreases 6 - from,
{
    if from >= 6 {
        id
    } else if provider_ids()[from] == id {
        provider_names()[from]
    } else {
        display_name(id, from + 1)
    }
}

/// The name under which a provider is shown; one that is not listed is shown by
/// its identifier.
pub fn provider_display(id: &str) -> (r: &str)
    ensures
        r@ == display_name(id@, 0),
{
    let mut i: usize = 0;
    while i < PROVIDER_COUNT
        invariant
            i <= PROVIDER_COUNT,
            display_name(id@, 0) == display_name(id@, i as int),
        decreases PROVIDER_COUNT - i,
    {
        let meta = provider_meta(i);
        if same(meta.id, id) {
            return meta.name;
        }
        i = i + 1;
    }
    id
}

/// The providers that can be used, and so have a key.
#[derive(Debug, Clone, Copy, PartialEq, Eq, Structural)]
pub enum KeySlot {
    Deepgram,
    OpenAi,
}

impl KeySlot {
    /// The identifier of the provider.
    pub open spec fn id_of(self) -> Seq<char> {
        match self {
            KeySlot::Deepgram => "deepgram"@,
            KeySlot::OpenAi => "openai"@,
        }
    }

    /// The identifier of the provider.
    pub fn id(self) -> (r: &'static str)
        ensures
            r@ == self.id_of(),
    {
        match self {
            KeySlot::Deepgram => "deepgram",
            KeySlot::OpenAi => "openai",
        }
    }
}

/// What was last learnt of the keys of the providers that are announced and have no
/// row for a key yet. It is not shown.
#[derive(Debug, Clone, Copy, PartialEq, Eq)]
pub struct AnnouncedKeys {
    pub groq: Option<SecretStatus>,
    pub elevenlabs: Option<SecretStatus>,
    pub local_whisper: Option<SecretStatus>,
    pub parakeet: Option<SecretStatus>,
}

impl AnnouncedKeys {
    /// What is known once the key of a provider has this status. A provider that is
    /// not announced has no place here.
    pub open spec fn learnt(self, provider: Seq<char>, status: SecretStatus) -> AnnouncedKeys {
        if provider == "groq"@ {
            AnnouncedKeys { groq: Some(status), ..self }
        } else if provider == "elevenlabs"@ {
            AnnouncedKeys { elevenlabs: Some(status), ..self }
        } else if provider == "local-whisper"@ {
            AnnouncedKeys { local_whisper: Some(status), ..self }
        } else if provider == "parakeet"@ {
            AnnouncedKeys { parakeet: Some(status), ..self }
        } else {
            self
        }
    }

    fn learn(&mut self, provider: &str, status: SecretStatus)
        ensures
            *final(self) == old(self).learnt(provider@, status),
    {
        if same(provider, "groq") {
            self.groq = Some(status);
        } else if same(provider, "elevenlabs") {
            self.elevenlabs = Some(status);
        } else if same(provider, "local-whisper") {
            self.local_whisper = Some(status);
        } else if same(provider, "parakeet") {
            self.parakeet = Some(status);
        }
    }
}

/// The key of a provider as the panel shows it.
#[derive(Debug, PartialEq, Eq)]
pub struct KeyRow {
    /// What the user typed.
    pub draft: String,
    pub status: SecretStatus,
}

/// A line that says how something went: whether well, and what.
pub type Status = Option<(bool, String)>;

/// Whether a status line says `message`, and whether it went well.
pub open spec fn says(s: Status, ok: bool, message: Seq<char>) -> bool {
    s matches Some((k, m)) && k == ok && m@ == message
}

/// The settings window as it is.
#[derive(Debug, PartialEq, Eq)]
pub struct UiState {
    pub selected: Panel,
    pub injection_draft: String,
    pub vad_draft: bool,
    pub toast_draft: bool,
    pub injection_saved: String,
    pub vad_saved: bool,
    pub toast_saved: bool,
    pub general_status: Status,
    pub ptt_label: String,
    pub capturing: bool,
    pub hotkey_status: Status,
    pub provider_draft: String,
    pub model_draft: String,
    pub provider_saved: String,
    pub model_saved: String,
    pub provider_status: Status,
    pub deepgram_key: KeyRow,
    pub openai_key: KeyRow,
    pub announced_keys: AnnouncedKeys,
    pub ax_granted: bool,
    pub mic_status: MicStatus,
    pub history_query: String,
    pub history_requested: Option<String>,
    pub history_entries: Vec<Entry>,
    pub history_loaded: bool,
    pub history_status: Status,
    pub confirm_delete: Option<i64>,
    pub stats: Option<Stats>,
    pub stats_status: Status,
    pub tts_status: Status,
    pub tts_hotkey_status: Status,
    /// Edits that were confirmed and not yet carried out.
    pub actions: Vec<SettingsAction>,
}

impl UiState {
    /// The window as it opens.
    pub fn new(
        config: &Config,
        ptt_label: &str,
        deepgram: SecretStatus,
        openai: SecretStatus,
        ax_granted: bool,
        mic_status: MicStatus,
    ) -> (r: UiState)
        ensures
            r.selected == Panel::General,
            r.injection_draft == config.injection_mode && r.injection_saved
                == config.injection_mode,
            r.vad_draft == config.vad && r.vad_saved == config.vad,
            r.toast_draft == config.clipboard_toast && r.toast_saved == config.clipboard_toast,
            r.provider_draft == config.stt_provider && r.provider_saved == config.stt_provider,
            r.model_draft == config.stt_model && r.model_saved == config.stt_model,
            r.ptt_label@ == ptt_label@ && !r.capturing,
            r.deepgram_key.status == deepgram && r.deepgram_key.draft@.len() == 0,
            r.openai_key.status == openai && r.openai_key.draft@.len() == 0,
            r.announced_keys == (AnnouncedKeys {
                groq: None,
                elevenlabs: None,
                local_whisper: None,
                parakeet: None,
            }),
            r.ax_granted == ax_granted && r.mic_status == mic_status,
            r.history_query@.len() == 0 && r.history_requested is None && !r.history_loaded
                && r.history_entries@.len() == 0 && r.confirm_delete is None,
            r.stats is None,
            r.general_status is None && r.hotkey_status is None && r.provider_status is None
                && r.history_status is None && r.stats_status is None && r.tts_status is None
                && r.tts_hotkey_status is None,
            r.actions@.len() == 0,
    {
        UiState {
            selected: Panel::General,
            injection_draft: config.injection_mode.clone(),
            vad_draft: config.vad,
            toast_draft: config.clipboard_toast,
            injection_saved: config.injection_mode.clone(),
            vad_saved: config.vad,
            toast_saved: config.clipboard_toast,
            general_status: None,
            ptt_label: ptt_label.to_owned(),
            capturing: false,
            hotkey_status: None,
            provider_draft: config.stt_provider.clone(),
            model_draft: config.stt_model.clone(),
            provider_saved: config.stt_provider.clone(),
            model_saved: config.stt_model.clone(),
            provider_status: None,
            deepgram_key: KeyRow { draft: String::new(), status: deepgram },
            openai_key: KeyRow { draft: String::new(), status: openai },
            announced_keys: AnnouncedKeys {
                groq: None,
                elevenlabs: None,
                local_whisper: None,
                parakeet: None,
            },
            ax_granted,
            mic_status,
            history_query: String::new(),
            history_requested: None,
            history_entries: Vec::new(),
            history_loaded: false,
            history_status: None,
            confirm_delete: None,
            stats: None,
            stats_status: None,
            tts_status: None,
            tts_hotkey_status: None,
            actions: Vec::new(),
        }
    }

    /// Goes to another section.
    pub fn select(&mut self, panel: Panel)
        ensures
            *final(self) == (UiState { selected: panel, ..*old(self) }),
    {
        self.selected = panel;
    }

    /// Takes the edits that were confirmed since the last call.
    pub fn take_actions(&mut self) -> (r: Vec<SettingsAction>)
        ensures
            r@ == old(self).actions@,
            final(self).actions@.len() == 0,
            *final(self) == (UiState { actions: final(self).actions, ..*old(self) }),
    {
        let mut taken: Vec<SettingsAction> = Vec::new();
        std::mem::swap(&mut taken, &mut self.actions);
        taken
    }

    /// What the system allows has changed, or was asked again.
    pub fn refresh_permissions(&mut self, ax_granted: bool, mic_status: MicStatus)
        ensures
            *final(self) == (UiState { ax_granted, mic_status, ..*old(self) }),
    {
        self.ax_granted = ax_granted;
        self.mic_status = mic_status;
    }

    // ---- General -----------------------------------------------------------

    /// Whether the General panel holds an edit that is not saved.
    pub open spec fn general_is_dirty(self) -> bool {
        ||| self.injection_draft@ != self.injection_saved@
        ||| self.vad_draft != self.vad_saved
        ||| self.toast_draft != self.toast_saved
    }

    /// Whether the General panel holds an edit that is not saved: its buttons
    /// work only then.
    pub fn general_dirty(&self) -> (r: bool)
        ensures
            r == self.general_is_dirty(),
    {
        !same(self.injection_draft.as_str(), self.injection_saved.as_str()) || self.vad_draft
            != self.vad_saved || self.toast_draft != self.toast_saved
    }

    /// Asks to save the General panel.
    pub fn save_general(&mut self)
        requires
            old(self).general_is_dirty(),
        ensures
            final(self).actions@ == old(self).actions@.push(
                SettingsAction::SaveGeneral {
                    injection_mode: old(self).injection_draft,
                    vad: old(self).vad_draft,
                    clipboard_toast: old(self).toast_draft,
                },
            ),
            *final(self) == (UiState {
                general_status: None,
                actions: final(self).actions,
                ..*old(self)
            }),
    {
        self.general_status = None;
        self.actions.push(
            SettingsAction::SaveGeneral {
                injection_mode: self.injection_draft.clone(),
                vad: self.vad_draft,
                clipboard_toast: self.toast_draft,
            },
        );
    }

    /// Goes back to what is saved.
    pub fn revert_general(&mut self)
        ensures
            !final(self).general_is_dirty(),
            *final(self) == (UiState {
                injection_draft: old(self).injection_saved,
                vad_draft: old(self).vad_saved,
                toast_draft: old(self).toast_saved,
                general_status: None,
                ..*old(self)
            }),
    {
        self.injection_draft = self.injection_saved.clone();
        self.vad_draft = self.vad_saved;
        self.toast_draft = self.toast_saved;
        self.general_status = None;
    }

    /// Whether `after` is this window once it knows how saving the General panel went.
    pub open spec fn general_fed(self, after: UiState, res: Result<(), String>) -> bool {
        match res {
            Ok(_) => says(after.general_status, true, "Saved \u{2713}"@) && after
                == (UiState {
                general_status: after.general_status,
                injection_saved: self.injection_draft,
                vad_saved: self.vad_draft,
                toast_saved: self.toast_draft,
                ..self
            }),
            Err(e) => after == (UiState {
                general_status: Some((false, e)),
                ..self
            }),
        }
    }

    /// How saving the General panel went.
    pub fn general_feedback(&mut self, res: Result<(), String>)
        ensures
            old(self).general_fed(*final(self), res),
    {
        match res {
            Ok(_) => {
                self.injection_saved = self.injection_draft.clone();
                self.vad_saved = self.vad_draft;
                self.toast_saved = self.toast_draft;
                self.general_status = Some((true, "Saved \u{2713}".to_owned()));
            },
            Err(e) => {
                self.general_status = Some((false, e));
            },
        }
    }

    // ---- Hotkey ------------------------------------------------------------

    /// Begins to wait for a combination.
    pub fn start_capture(&mut self)
        ensures
            *final(self) == (UiState { capturing: true, hotkey_status: None, ..*old(self) }),
    {
        self.capturing = true;
        self.hotkey_status = None;
    }

    /// Whether `after` is this window once a captured combination was tried: a
    /// valid one is to be used, and for any other the panel goes on waiting.
    pub open spec fn follows_capture(
        self,
        after: UiState,
        combo: String,
        tried: Result<((crate::ptt::Modifiers, Seq<char>, u32), Seq<char>), Seq<char>>,
    ) -> bool {
        match tried {
            Ok((_, label)) => {
                &&& says(after.hotkey_status, true, "Registering "@ + label + "\u{2026}"@)
                &&& after.actions@ == self.actions@.push(SettingsAction::ApplyPttKey(combo))
                &&& after == (UiState {
                    capturing: false,
                    hotkey_status: after.hotkey_status,
                    actions: after.actions,
                    ..self
                })
            },
            Err(e) => {
                &&& says(after.hotkey_status, false, "Unsupported combo: "@ + e)
                &&& after == (UiState { hotkey_status: after.hotkey_status, ..self })
            },
        }
    }

    /// What a captured combination does, once it was tried.
    pub fn combo_captured(&mut self, combo: String, parsed: Result<(HotKey, String), String>)
        ensures
            old(self).follows_capture(*final(self), combo, crate::ptt::labelled_outcome(parsed)),
    {
        match parsed {
            Ok((_, label)) => {
                self.capturing = false;
                let mut msg = prefixed("Registering ", label.as_str());
                msg.append("\u{2026}");
                self.hotkey_status = Some((true, msg));
                self.actions.push(SettingsAction::ApplyPttKey(combo));
            },
            Err(e) => {
                self.hotkey_status = Some((false, prefixed("Unsupported combo: ", e.as_str())));
            },
        }
    }

    /// What a frame of waiting for a combination does.
    pub fn captured(&mut self, capture: Capture)
        requires
            old(self).capturing,
        ensures
            match capture {
                Capture::Nothing => *final(self) == *old(self),
                Capture::Cancel => *final(self) == (UiState {
                    capturing: false,
                    hotkey_status: None,
                    ..*old(self)
                }),
                Capture::Combo(combo) => exists|tried|
                    #![trigger crate::ptt::is_tried(combo@, tried)]
                    crate::ptt::is_tried(combo@, tried) && old(self).follows_capture(
                        *final(self),
                        combo,
                        tried,
                    ),
            },
    {
        match capture {
            Capture::Nothing => {},
            Capture::Cancel => {
                self.capturing = false;
                self.hotkey_status = None;
            },
            Capture::Combo(combo) => {
                let parsed = try_parse_ptt_key(combo.as_str());
                let ghost tried = crate::ptt::labelled_outcome(parsed);
                self.combo_captured(combo, parsed);
                assert(crate::ptt::is_tried(combo@, tried));
            },
        }
    }

    /// Whether `after` is this window once it knows how using a combination went.
    pub open spec fn hotkey_fed(self, after: UiState, res: Result<String, String>) -> bool {
        match res {
            Ok(label) => says(
                after.hotkey_status,
                true,
                "Active \u{2014} hold "@ + label@ + " to talk"@,
            ) && after == (UiState {
                hotkey_status: after.hotkey_status,
                ptt_label: label,
                ..self
            }),
            Err(e) => after == (UiState {
                hotkey_status: Some((false, e)),
                ..self
            }),
        }
    }

    /// How using a combination went: its label, or why not.
    pub fn hotkey_feedback(&mut self, res: Result<String, String>)
        ensures
            old(self).hotkey_fed(*final(self), res),
    {
        match res {
            Ok(label) => {
                let mut msg = prefixed("Active \u{2014} hold ", label.as_str());
                msg.append(" to talk");
                self.ptt_label = label;
                self.hotkey_status = Some((true, msg));
            },
            Err(e) => {
                self.hotkey_status = Some((false, e));
            },
        }
    }
}

impl UiState {
    // ---- Providers ---------------------------------------------------------

    /// Whether the Providers panel holds an edit that is not saved.
    pub open spec fn providers_are_dirty(self) -> bool {
        self.provider_draft@ != self.provider_saved@ || self.model_draft@ != self.model_saved@
    }

    /// Whether the Providers panel holds an edit that is not saved.
    pub fn providers_dirty(&self) -> (r: bool)
        ensures
            r == self.providers_are_dirty(),
    {
        !same(self.provider_draft.as_str(), self.provider_saved.as_str()) || !same(
            self.model_draft.as_str(),
            self.model_saved.as_str(),
        )
    }

    /// Asks to save the provider and the model, the latter without surrounding
    /// white space.
    pub fn save_providers(&mut self)
        requires
            old(self).providers_are_dirty(),
        ensures
            final(self).actions@.len() == old(self).actions@.len() + 1,
            final(self).actions@.drop_last() == old(self).actions@,
            final(self).actions@.last() matches SettingsAction::SaveProviders { provider, model }
                && provider == old(self).provider_draft && model@ == text::trimmed(
                old(self).model_draft@,
            ),
            *final(self) == (UiState {
                provider_status: None,
                actions: final(self).actions,
                ..*old(self)
            }),
    {
        self.provider_status = None;
        self.actions.push(
            SettingsAction::SaveProviders {
                provider: self.provider_draft.clone(),
                model: trim(self.model_draft.as_str()).to_owned(),
            },
        );
        assert(self.actions@.drop_last() =~= old(self).actions@);
    }

    /// Whether `after` is this window once it knows how saving the provider went.
    pub open spec fn provider_fed(self, after: UiState, res: Result<(), String>) -> bool {
        match res {
            Ok(_) => says(
                after.provider_status,
                true,
                "Saved \u{2713} \u{2014} used on the next dictation"@,
            ) && after == (UiState {
                provider_status: after.provider_status,
                provider_saved: self.provider_draft,
                model_saved: self.model_draft,
                ..self
            }),
            Err(e) => after == (UiState {
                provider_status: Some((false, e)),
                ..self
            }),
        }
    }

    /// How saving the provider went.
    pub fn provider_feedback(&mut self, res: Result<(), String>)
        ensures
            old(self).provider_fed(*final(self), res),
    {
        match res {
            Ok(_) => {
                self.provider_saved = self.provider_draft.clone();
                self.model_saved = self.model_draft.clone();
                self.provider_status = Some(
                    (true, "Saved \u{2713} \u{2014} used on the next dictation".to_owned()),
                );
            },
            Err(e) => {
                self.provider_status = Some((false, e));
            },
        }
    }

    /// The key of a provider.
    pub open spec fn key_of(self, slot: KeySlot) -> KeyRow {
        match slot {
            KeySlot::Deepgram => self.deepgram_key,
            KeySlot::OpenAi => self.openai_key,
        }
    }

    /// The window with another key of a provider.
    pub open spec fn with_key(self, slot: KeySlot, row: KeyRow) -> UiState {
        match slot {
            KeySlot::Deepgram => UiState { deepgram_key: row, ..self },
            KeySlot::OpenAi => UiState { openai_key: row, ..self },
        }
    }

    /// Picks a provider. A model belongs to one provider, so it is not carried
    /// over to another.
    pub fn pick_provider(&mut self, slot: KeySlot)
        ensures
            old(self).provider_draft@ == slot.id_of() ==> *final(self) == *old(self),
            old(self).provider_draft@ != slot.id_of() ==> final(self).provider_draft@
                == slot.id_of() && final(self).model_draft@.len() == 0 && *final(self) == (
            UiState {
                provider_draft: final(self).provider_draft,
                model_draft: final(self).model_draft,
                ..*old(self)
            }),
    {
        if !same(self.provider_draft.as_str(), slot.id()) {
            self.provider_draft = slot.id().to_owned();
            self.model_draft = String::new();
        }
    }

    /// What a row of the Providers panel shows.
    pub fn provider_row(&self, i: usize) -> (r: ProviderRow)
        requires
            i < PROVIDER_COUNT,
        ensures
            i >= 2 ==> (r matches ProviderRow::Announced { note } && note@ == (if i < 4 {
                "Cloud"@
            } else {
                "Local"@
            }) + " \u{b7} Coming soon"@),
            i < 2 ==> {
                let slot = if i == 0 {
                    KeySlot::Deepgram
                } else {
                    KeySlot::OpenAi
                };
                let key = self.key_of(slot);
                &&& r matches ProviderRow::Usable(row)
                &&& row.slot == slot
                &&& row.selected == (self.provider_draft@ == slot.id_of())
                &&& row.key_note@ == key_note(key.status)
                &&& row.key_ok == (key.status != SecretStatus::Missing)
                &&& row.model_hint@ == "default: "@ + (if i == 0 {
                    crate::stt::DeepgramStt::DEFAULT_MODEL@
                } else {
                    crate::stt::OpenAiStt::DEFAULT_MODEL@
                })
                &&& row.from_env == (key.status == SecretStatus::FromEnv)
                &&& row.can_set == (key.status != SecretStatus::FromEnv && !text::is_blank(
                    key.draft@,
                ))
                &&& row.can_clear == (key.status == SecretStatus::FromFile)
            },
    {
        let meta = provider_meta(i);
        if !meta.available {
            return ProviderRow::Announced { note: prefixed(meta.kind, " \u{b7} Coming soon") };
        }
        let slot: KeySlot = if i == 0 {
            KeySlot::Deepgram
        } else {
            KeySlot::OpenAi
        };
        let key: &KeyRow = match slot {
            KeySlot::Deepgram => &self.deepgram_key,
            KeySlot::OpenAi => &self.openai_key,
        };
        let from_env = match key.status {
            SecretStatus::FromEnv => true,
            _ => false,
        };
        let (key_note, key_ok, can_clear): (&'static str, bool, bool) = match key.status {
            SecretStatus::FromFile => ("key configured \u{2713}", true, true),
            SecretStatus::FromEnv => ("key configured \u{2713} (env var)", true, false),
            SecretStatus::Missing => ("no key \u{2717}", false, false),
        };
        ProviderRow::Usable(
            UsableRow {
                slot,
                selected: same(self.provider_draft.as_str(), slot.id()),
                key_note,
                key_ok,
                model_hint: prefixed("default: ", meta.default_model),
                from_env,
                can_set: !from_env && !blank(key.draft.as_str()),
                can_clear,
            },
        )
    }

    /// Asks to store the key that was typed, without surrounding white space. The
    /// field is emptied: what was typed is not kept.
    pub fn set_key(&mut self, slot: KeySlot)
        requires
            old(self).key_of(slot).status != SecretStatus::FromEnv,
            !text::is_blank(old(self).key_of(slot).draft@),
        ensures
            final(self).actions@.len() == old(self).actions@.len() + 1,
            final(self).actions@.drop_last() == old(self).actions@,
            final(self).actions@.last() matches SettingsAction::SetKey { provider, key }
                && provider@ == slot.id_of() && key@ == text::trimmed(
                old(self).key_of(slot).draft@,
            ),
            final(self).key_of(slot).draft@.len() == 0,
            final(self).key_of(slot).status == old(self).key_of(slot).status,
            *final(self) == (UiState {
                actions: final(self).actions,
                ..old(self).with_key(slot, final(self).key_of(slot))
            }),
    {
        let mut typed: String = String::new();
        match slot {
            KeySlot::Deepgram => {
                std::mem::swap(&mut typed, &mut self.deepgram_key.draft);
            },
            KeySlot::OpenAi => {
                std::mem::swap(&mut typed, &mut self.openai_key.draft);
            },
        }
        self.actions.push(
            SettingsAction::SetKey {
                provider: slot.id().to_owned(),
                key: trim(typed.as_str()).to_owned(),
            },
        );
        assert(self.actions@.drop_last() =~= old(self).actions@);
    }

    /// Asks to remove a stored key.
    pub fn clear_key(&mut self, slot: KeySlot)
        requires
            old(self).key_of(slot).status == SecretStatus::FromFile,
        ensures
            final(self).actions@.len() == old(self).actions@.len() + 1,
            final(self).actions@.drop_last() == old(self).actions@,
            final(self).actions@.last() matches SettingsAction::ClearKey { provider } && provider@
                == slot.id_of(),
            *final(self) == (UiState { actions: final(self).actions, ..*old(self) }),
    {
        self.actions.push(SettingsAction::ClearKey { provider: slot.id().to_owned() });
        assert(self.actions@.drop_last() =~= old(self).actions@);
    }

    /// Whether `after` is this window once it knows how storing or removing a key went.
    pub open spec fn key_fed(
        self,
        after: UiState,
        provider: Seq<char>,
        status: SecretStatus,
        res: Result<(), String>,
    ) -> bool {
        &&& match res {
            Ok(_) => says(after.provider_status, true, "Key updated \u{2713}"@),
            Err(e) => after.provider_status == Some((false, e)),
        }
        &&& ({
            let slot = if provider == "deepgram"@ {
                Some(KeySlot::Deepgram)
            } else if provider == "openai"@ {
                Some(KeySlot::OpenAi)
            } else {
                None::<KeySlot>
            };
            match slot {
                Some(k) => after.key_of(k).status == status && after.key_of(
                    k,
                ).draft@.len() == 0 && after == (UiState {
                    provider_status: after.provider_status,
                    ..self.with_key(k, after.key_of(k))
                }),
                None => after == (UiState {
                    provider_status: after.provider_status,
                    announced_keys: self.announced_keys.learnt(provider, status),
                    ..self
                }),
            }
        })
    }

    /// How storing or removing a key went. Where its provider has a row, the row
    /// shows `status`, which was looked up afterwards, and what was typed is gone; of a
    /// provider that is announced the status is kept.
    pub fn key_feedback(&mut self, provider: &str, status: SecretStatus, res: Result<(), String>)
        ensures
            old(self).key_fed(*final(self), provider@, status, res),
    {
        if same(provider, "deepgram") {
            self.deepgram_key = KeyRow { draft: String::new(), status };
        } else if same(provider, "openai") {
            self.openai_key = KeyRow { draft: String::new(), status };
        } else {
            self.announced_keys.learn(provider, status);
        }
        match res {
            Ok(_) => {
                self.provider_status = Some((true, "Key updated \u{2713}".to_owned()));
            },
            Err(e) => {
                self.provider_status = Some((false, e));
            },
        }
    }

    // ---- Permissions -------------------------------------------------------

    /// What the Permissions panel shows.
    pub fn permissions_view(&self, platform: Platform) -> (r: PermissionsView)
        ensures
            platform == Platform::MacOs ==> {
                &&& r.mic@ == mic_line(self.mic_status)
                &&& r.mic_ok == mic_tone(self.mic_status)
                &&& r.mic_button == (self.mic_status == MicStatus::Denied)
                &&& r.input@ == (if self.ax_granted {
                    "Granted \u{2014} auto-paste is active."@
                } else {
                    "Not granted \u{2014} transcripts land on the clipboard for you to paste."@
                })
                &&& r.input_ok == Some(self.ax_granted)
                &&& r.input_button == !self.ax_granted
            },
            platform != Platform::MacOs ==> {
                &&& r.mic@ == "Managed by Windows (Settings \u{2192} Privacy \u{2192} Microphone)."@
                &&& r.mic_ok is None
                &&& r.mic_button
                &&& r.input@ == "No permission required on Windows."@
                &&& r.input_ok is None
                &&& !r.input_button
            },
    {
        match platform {
            Platform::MacOs => {
                let (mic, mic_ok, mic_button): (&'static str, Option<bool>, bool) =
                    match self.mic_status {
                    MicStatus::Granted => (
                        "Granted \u{2014} Holler can hear you.",
                        Some(true),
                        false,
                    ),
                    MicStatus::NotDetermined => (
                        "Not requested yet \u{2014} macOS will ask the first time you record.",
                        None,
                        false,
                    ),
                    MicStatus::Denied => (
                        "Denied \u{2014} recordings will be silent.",
                        Some(false),
                        true,
                    ),
                    MicStatus::Restricted => (
                        "Blocked by your organization \u{2014} ask your administrator.",
                        Some(false),
                        false,
                    ),
                };
                PermissionsView {
                    mic,
                    mic_ok,
                    mic_button,
                    input: if self.ax_granted {
                        "Granted \u{2014} auto-paste is active."
                    } else {
                        "Not granted \u{2014} transcripts land on the clipboard for you to paste."
                    },
                    input_ok: Some(self.ax_granted),
                    input_button: !self.ax_granted,
                }
            },
            _ => PermissionsView {
                mic: "Managed by Windows (Settings \u{2192} Privacy \u{2192} Microphone).",
                mic_ok: None,
                mic_button: true,
                input: "No permission required on Windows.",
                input_ok: None,
                input_button: false,
            },
        }
    }

    /// Asks to open the system's microphone settings.
    pub fn open_mic_settings(&mut self)
        ensures
            final(self).actions@ == old(self).actions@.push(
                SettingsAction::OpenMicrophoneSettings,
            ),
            *final(self) == (UiState { actions: final(self).actions, ..*old(self) }),
    {
        self.actions.push(SettingsAction::OpenMicrophoneSettings);
    }

    /// Asks to open the system's Accessibility settings.
    pub fn open_accessibility_settings(&mut self)
        ensures
            final(self).actions@ == old(self).actions@.push(
                SettingsAction::OpenAccessibilitySettings,
            ),
            *final(self) == (UiState { actions: final(self).actions, ..*old(self) }),
    {
        self.actions.push(SettingsAction::OpenAccessibilitySettings);
    }

    // ---- History -----------------------------------------------------------

    /// Whether the list is the one that was last asked for.
    pub open spec fn history_is_current(self) -> bool {
        self.history_requested matches Some(q) && q@ == self.history_query@
    }

    /// Forces the list to be loaded again.
    pub fn refresh_history(&mut self)
        ensures
            *final(self) == (UiState { history_requested: None, ..*old(self) }),
    {
        self.history_requested = None;
    }

    /// Asks for the transcripts that match the search, unless they were asked for
    /// already. Called on each frame of the History panel.
    pub fn history_frame(&mut self)
        ensures
            old(self).history_is_current() ==> *final(self) == *old(self),
            !old(self).history_is_current() ==> final(self).actions@ == old(self).actions@.push(
                SettingsAction::LoadHistory { query: old(self).history_query },
            ) && *final(self) == (UiState {
                history_requested: Some(old(self).history_query),
                history_status: None,
                confirm_delete: None,
                actions: final(self).actions,
                ..*old(self)
            }),
            final(self).history_is_current(),
    {
        let current = match &self.history_requested {
            Some(q) => same(q.as_str(), self.history_query.as_str()),
            None => false,
        };
        if !current {
            self.history_requested = Some(self.history_query.clone());
            self.history_status = None;
            self.confirm_delete = None;
            self.actions.push(SettingsAction::LoadHistory { query: self.history_query.clone() });
        }
    }

    /// What is shown below the search field.
    pub fn history_body(&self) -> (r: HistoryBody)
        ensures
            r == (if !self.history_loaded {
                HistoryBody::Loading
            } else if self.history_entries@.len() > 0 {
                HistoryBody::Entries
            } else if text::is_blank(self.history_query@) {
                HistoryBody::NothingYet
            } else {
                HistoryBody::NoMatch
            }),
    {
        if !self.history_loaded {
            HistoryBody::Loading
        } else if self.history_entries.len() > 0 {
            HistoryBody::Entries
        } else if blank(self.history_query.as_str()) {
            HistoryBody::NothingYet
        } else {
            HistoryBody::NoMatch
        }
    }

    /// Whether the entry shows the buttons that confirm or cancel its deletion,
    /// rather than those that begin it or copy it.
    pub fn asks_to_confirm(&self, id: i64) -> (r: bool)
        ensures
            r == (self.confirm_delete == Some(id)),
    {
        match self.confirm_delete {
            Some(c) => c == id,
            None => false,
        }
    }

    /// Begins or cancels the deletion of an entry.
    pub fn set_confirm(&mut self, target: Option<i64>)
        ensures
            *final(self) == (UiState {
                confirm_delete: target,
                history_status: None,
                ..*old(self)
            }),
    {
        self.confirm_delete = target;
        self.history_status = None;
    }

    /// Asks to read a transcript aloud.
    pub fn speak_entry(&mut self, text: String)
        ensures
            final(self).actions@ == old(self).actions@.push(SettingsAction::SpeakHistory { text }),
            *final(self) == (UiState { actions: final(self).actions, ..*old(self) }),
    {
        self.actions.push(SettingsAction::SpeakHistory { text });
    }

    /// Asks to stop reading aloud.
    pub fn stop_speaking(&mut self)
        ensures
            final(self).actions@ == old(self).actions@.push(SettingsAction::StopSpeaking),
            *final(self) == (UiState { actions: final(self).actions, ..*old(self) }),
    {
        self.actions.push(SettingsAction::StopSpeaking);
    }

    /// Asks to copy a transcript.
    pub fn copy_entry(&mut self, text: String)
        ensures
            final(self).actions@ == old(self).actions@.push(SettingsAction::CopyHistory { text }),
            *final(self) == (UiState { actions: final(self).actions, ..*old(self) }),
    {
        self.actions.push(SettingsAction::CopyHistory { text });
    }

    /// Asks to delete the entry whose deletion is to be confirmed.
    pub fn confirm_deletion(&mut self, id: i64)
        requires
            old(self).confirm_delete == Some(id),
        ensures
            final(self).actions@ == old(self).actions@.push(
                SettingsAction::DeleteHistory { id, query: old(self).history_query },
            ),
            *final(self) == (UiState {
                confirm_delete: None,
                actions: final(self).actions,
                ..*old(self)
            }),
    {
        self.confirm_delete = None;
        self.actions.push(
            SettingsAction::DeleteHistory { id, query: self.history_query.clone() },
        );
    }

    /// The list came, or could not be loaded.
    pub fn history_loaded(&mut self, res: Result<Vec<Entry>, String>)
        ensures
            match res {
                Ok(entries) => *final(self) == (UiState {
                    history_loaded: true,
                    history_entries: entries,
                    ..*old(self)
                }),
                Err(e) => *final(self) == (UiState {
                    history_loaded: true,
                    history_status: Some((false, e)),
                    ..*old(self)
                }),
            },
    {
        self.history_loaded = true;
        match res {
            Ok(entries) => {
                self.history_entries = entries;
            },
            Err(e) => {
                self.history_status = Some((false, e));
            },
        }
    }

    /// How copying, deleting or reading an entry went.
    pub fn history_action_feedback(&mut self, res: Result<String, String>)
        ensures
            *final(self) == (UiState {
                history_status: Some(
                    match res {
                        Ok(m) => (true, m),
                        Err(e) => (false, e),
                    },
                ),
                ..*old(self)
            }),
    {
        self.history_status = Some(
            match res {
                Ok(m) => (true, m),
                Err(e) => (false, e),
            },
        );
    }

    // ---- Statistics and read-aloud -----------------------------------------

    /// Whether statistics were found, could not be computed, or are asked for.
    pub open spec fn stats_known(self) -> bool {
        self.stats is Some || self.stats_status is Some || self.actions@.contains(
            SettingsAction::LoadStats,
        )
    }

    /// Asks for the statistics anew.
    pub fn refresh_stats(&mut self)
        ensures
            final(self).actions@ == old(self).actions@.push(SettingsAction::LoadStats),
            *final(self) == (UiState { actions: final(self).actions, ..*old(self) }),
    {
        self.actions.push(SettingsAction::LoadStats);
    }

    /// Asks for the statistics, unless they are known or asked for already. Called
    /// on each frame of the Stats panel.
    pub fn stats_frame(&mut self)
        ensures
            old(self).stats_known() ==> *final(self) == *old(self),
            !old(self).stats_known() ==> final(self).actions@ == old(self).actions@.push(
                SettingsAction::LoadStats,
            ) && *final(self) == (UiState { actions: final(self).actions, ..*old(self) }),
            final(self).stats_known(),
    {
        if self.stats.is_some() || self.stats_status.is_some() {
            return;
        }
        let mut i: usize = 0;
        while i < self.actions.len()
            invariant
                *self == *old(self),
                i <= self.actions@.len(),
                self.stats is None && self.stats_status is None,
                forall|k: int|
                    0 <= k < i ==> (#[trigger] self.actions@[k]) != SettingsAction::LoadStats,
            decreases self.actions@.len() - i,
        {
            match &self.actions[i] {
                SettingsAction::LoadStats => {
                    assert(self.actions@[i as int] == SettingsAction::LoadStats);
                    return;
                },
                _ => {},
            }
            i = i + 1;
        }
        self.refresh_stats();
        assert(self.actions@.last() == SettingsAction::LoadStats);
    }

    /// Asks to save the voice: its backend, its name without surrounding white
    /// space, and its rate.
    pub fn save_tts(&mut self, backend: String, voice: &str, rate: u32)
        ensures
            final(self).actions@.len() == old(self).actions@.len() + 1,
            final(self).actions@.drop_last() == old(self).actions@,
            final(self).actions@.last() matches SettingsAction::SaveTts {
                backend: b,
                voice: v,
                rate: n,
            } && b == backend && v@ == text::trimmed(voice@) && n == rate,
            *final(self) == (UiState { actions: final(self).actions, ..*old(self) }),
    {
        self.actions.push(SettingsAction::SaveTts { backend, voice: trim(voice).to_owned(), rate });
        assert(self.actions@.drop_last() =~= old(self).actions@);
    }

    /// Asks to use a combination, without surrounding white space, for a read-aloud
    /// hotkey.
    pub fn apply_tts_combo(&mut self, which: TtsHotkey, combo: &str)
        ensures
            final(self).actions@.len() == old(self).actions@.len() + 1,
            final(self).actions@.drop_last() == old(self).actions@,
            final(self).actions@.last() matches SettingsAction::ApplyTtsHotkey {
                which: w,
                combo: c,
            } && w == which && c@ == text::trimmed(combo@),
            *final(self) == (UiState { actions: final(self).actions, ..*old(self) }),
    {
        self.actions.push(SettingsAction::ApplyTtsHotkey { which, combo: trim(combo).to_owned() });
        assert(self.actions@.drop_last() =~= old(self).actions@);
    }

    /// The statistics came, or could not be computed.
    pub fn stats_loaded(&mut self, res: Result<Stats, String>)
        ensures
            match res {
                Ok(s) => *final(self) == (UiState {
                    stats: Some(s),
                    stats_status: None,
                    ..*old(self)
                }),
                Err(e) => *final(self) == (UiState {
                    stats_status: Some((false, e)),
                    ..*old(self)
                }),
            },
    {
        match res {
            Ok(s) => {
                self.stats = Some(s);
                self.stats_status = None;
            },
            Err(e) => {
                self.stats_status = Some((false, e));
            },
        }
    }

    /// Whether `after` is this window once it knows how saving the voice went.
    pub open spec fn tts_fed(self, after: UiState, res: Result<(), String>) -> bool {
        match res {
            Ok(_) => says(after.tts_status, true, "Saved \u{2713}"@) && after == (
            UiState { tts_status: after.tts_status, ..self }),
            Err(e) => after == (UiState {
                tts_status: Some((false, e)),
                ..self
            }),
        }
    }

    /// How saving the voice went.
    pub fn tts_feedback(&mut self, res: Result<(), String>)
        ensures
            old(self).tts_fed(*final(self), res),
    {
        match res {
            Ok(_) => {
                self.tts_status = Some((true, "Saved \u{2713}".to_owned()));
            },
            Err(e) => {
                self.tts_status = Some((false, e));
            },
        }
    }

    /// Whether `after` is this window once it knows how using a read-aloud combination went.
    pub open spec fn tts_hotkey_fed(self, after: UiState, res: Result<String, String>) -> bool {
        match res {
            Ok(combo) => says(
                after.tts_hotkey_status,
                true,
                "Active \u{2014} "@ + combo@,
            ) && after == (UiState {
                tts_hotkey_status: after.tts_hotkey_status,
                ..self
            }),
            Err(e) => after == (UiState {
                tts_hotkey_status: Some((false, e)),
                ..self
            }),
        }
    }

    /// How using a read-aloud combination went: the combination, or why not.
    pub fn tts_hotkey_feedback(&mut self, res: Result<String, String>)
        ensures
            old(self).tts_hotkey_fed(*final(self), res),
    {
        match res {
            Ok(combo) => {
                self.tts_hotkey_status = Some(
                    (true, prefixed("Active \u{2014} ", combo.as_str())),
                );
            },
            Err(e) => {
                self.tts_hotkey_status = Some((false, e));
            },
        }
    }
}

/// What a row of the Providers panel shows.
#[derive(Debug, PartialEq, Eq)]
pub enum ProviderRow {
    /// A provider that cannot be used yet.
    Announced { note: String },
    Usable(UsableRow),
}

/// A row of a provider that can be used.
#[derive(Debug, PartialEq, Eq)]
pub struct UsableRow {
    pub slot: KeySlot,
    /// Whether it is picked; the model is shown only then.
    pub selected: bool,
    /// What is said of its key, and whether that is good.
    pub key_note: &'static str,
    pub key_ok: bool,
    /// What the empty model field says.
    pub model_hint: String,
    /// Whether the key comes from the environment, so that it cannot be changed.
    pub from_env: bool,
    pub can_set: bool,
    pub can_clear: bool,
}

/// What is said of a key.
pub open spec fn key_note(status: SecretStatus) -> Seq<char> {
    match status {
        SecretStatus::FromFile => "key configured \u{2713}"@,
        SecretStatus::FromEnv => "key configured \u{2713} (env var)"@,
        SecretStatus::Missing => "no key \u{2717}"@,
    }
}

/// What the Permissions panel shows: a line on the microphone and one on
/// simulated input, whether each is good or bad news, and which buttons there are.
#[derive(Debug, Clone, Copy, PartialEq, Eq)]
pub struct PermissionsView {
    pub mic: &'static str,
    pub mic_ok: Option<bool>,
    pub mic_button: bool,
    pub input: &'static str,
    pub input_ok: Option<bool>,
    pub input_button: bool,
}

/// What is said of the microphone on macOS.
pub open spec fn mic_line(status: MicStatus) -> Seq<char> {
    match status {
        MicStatus::Granted => "Granted \u{2014} Holler can hear you."@,
        MicStatus::NotDetermined =>
            "Not requested yet \u{2014} macOS will ask the first time you record."@,
        MicStatus::Denied => "Denied \u{2014} recordings will be silent."@,
        MicStatus::Restricted => "Blocked by your organization \u{2014} ask your administrator."@,
    }
}

/// Whether what is said of the microphone is good or bad news, or neither.
pub open spec fn mic_tone(status: MicStatus) -> Option<bool> {
    match status {
        MicStatus::Granted => Some(true),
        MicStatus::NotDetermined => None,
        MicStatus::Denied => Some(false),
        MicStatus::Restricted => Some(false),
    }
}

/// What is shown below the search field of the History panel.
#[derive(Debug, Clone, Copy, PartialEq, Eq, Structural)]
pub enum HistoryBody {
    Loading,
    NothingYet,
    NoMatch,
    Entries,
}

// ---- Capturing a combination -----------------------------------------------

/// What a frame of waiting for a combination saw.
#[derive(Debug, PartialEq, Eq)]
pub enum Capture {
    Nothing,
    Cancel,
    Combo(String),
}

/// The modifiers that were held with a key.
#[derive(Debug, Clone, Copy, PartialEq, Eq, Structural)]
pub struct KeyMods {
    pub ctrl: bool,
    pub alt: bool,
    pub shift: bool,
    pub mac_cmd: bool,
    /// The platform's command key: Cmd on macOS, Ctrl elsewhere.
    pub command: bool,
}

/// A key event of a frame.
#[derive(Debug, PartialEq, Eq)]
pub struct KeyEvent {
    /// The name of the key, such as "A", "Escape" or "OpenBracket".
    pub key: String,
    pub pressed: bool,
    pub mods: KeyMods,
}

/// The name of a key in a combination.
pub open spec fn combo_key(key: Seq<char>) -> Seq<char> {
    if key == "Backtick"@ {
        "backquote"@
    } else if key == "Equals"@ {
        "equal"@
    } else if key == "OpenBracket"@ {
        "bracketleft"@
    } else if key == "CloseBracket"@ {
        "bracketright"@
    } else {
        key
    }
}

/// The parts of the combination for a key with modifiers.
pub open spec fn combo_parts(key: Seq<char>, m: KeyMods) -> Seq<Seq<char>> {
    let none = Seq::<Seq<char>>::empty();
    (if m.ctrl {
        seq!["ctrl"@]
    } else {
        none
    }) + (if m.alt {
        seq!["alt"@]
    } else {
        none
    }) + (if m.shift {
        seq!["shift"@]
    } else {
        none
    }) + (if m.mac_cmd {
        seq!["cmd"@]
    } else {
        none
    }) + seq![combo_key(key)]
}

/// The combination for a key with modifiers, such as "ctrl+shift+p".
pub open spec fn combo_of(key: Seq<char>, m: KeyMods) -> Seq<char> {
    text::lower(text::joined(combo_parts(key, m), "+"@))
}

/// The combination for a key with modifiers. Names of keys are ASCII.
pub fn combo_string(key: &str, m: KeyMods) -> (r: String)
    requires
        key.is_ascii(),
    ensures
        r@ == combo_of(key@, m),
{
    let mut parts: Vec<String> = Vec::new();
    if m.ctrl {
        parts.push("ctrl".to_owned());
    }
    if m.alt {
        parts.push("alt".to_owned());
    }
    if m.shift {
        parts.push("shift".to_owned());
    }
    if m.mac_cmd {
        parts.push("cmd".to_owned());
    }
    let name: &str = if same(key, "Backtick") {
        "backquote"
    } else if same(key, "Equals") {
        "equal"
    } else if same(key, "OpenBracket") {
        "bracketleft"
    } else if same(key, "CloseBracket") {
        "bracketright"
    } else {
        key
    };
    parts.push(name.to_owned());
    assert(text::views(parts@) =~= combo_parts(key@, m));
    to_ascii_lowercase(join(&parts, "+").as_str())
}

/// Whether no modifier is held.
pub open spec fn no_mods(m: KeyMods) -> bool {
    !m.ctrl && !m.alt && !m.shift && !m.mac_cmd && !m.command
}

/// The first key that was pressed, if any, from event `from` on.
pub open spec fn first_pressed(events: Seq<KeyEvent>, from: int) -> Option<int>
    decreases events.len() - from,
{
    if from >= events.len() || from < 0 {
        None
    } else if events[from].pressed {
        Some(from)
    } else {
        first_pressed(events, from + 1)
    }
}

/// What the key events of a frame come to: the first key that was pressed counts,
/// and Escape alone cancels.
pub fn captured_combo(events: &Vec<KeyEvent>) -> (r: Capture)
    requires
        forall|i: int| 0 <= i < events@.len() ==> (#[trigger] events@[i]).key.is_ascii(),
    ensures
        match first_pressed(events@, 0) {
            None => r == Capture::Nothing,
            Some(i) => if events@[i].key@ == "Escape"@ && no_mods(events@[i].mods) {
                r == Capture::Cancel
            } else {
                r matches Capture::Combo(c) && c@ == combo_of(events@[i].key@, events@[i].mods)
            },
        },
{
    let mut i: usize = 0;
    while i < events.len()
        invariant
            i <= events@.len(),
            forall|k: int| 0 <= k < events@.len() ==> (#[trigger] events@[k]).key.is_ascii(),
            first_pressed(events@, 0) == first_pressed(events@, i as int),
        decreases events@.len() - i,
    {
        let e = &events[i];
        if e.pressed {
            if same(e.key.as_str(), "Escape") && !e.mods.ctrl && !e.mods.alt && !e.mods.shift
                && !e.mods.mac_cmd && !e.mods.command {
                return Capture::Cancel;
            }
            return Capture::Combo(combo_string(e.key.as_str(), e.mods));
        }
        i = i + 1;
    }
    Capture::Nothing
}

// ---- Laws ------------------------------------------------------------------

/// Saving leaves nothing unsaved: once a panel learns that its edits were saved, it
/// has none that are not, until the user edits again.
pub proof fn saving_leaves_nothing_dirty(u: UiState, general: UiState, providers: UiState)
    requires
        u.general_fed(general, Ok(())),
        u.provider_fed(providers, Ok(())),
    ensures
        !general.general_is_dirty(),
        !providers.providers_are_dirty(),
{
}

/// A failed save loses nothing: the edits stay, and so does what was saved before.
pub proof fn failed_save_keeps_edits(u: UiState, general: UiState, why: String)
    requires
        u.general_fed(general, Err(why)),
    ensures
        general.general_is_dirty() == u.general_is_dirty(),
        general.injection_draft == u.injection_draft && general.vad_draft == u.vad_draft
            && general.toast_draft == u.toast_draft,
{
}

/// No key is kept once the panel learns that it was stored or removed.
pub proof fn typed_key_is_forgotten(
    u: UiState,
    after: UiState,
    slot: KeySlot,
    status: SecretStatus,
    res: Result<(), String>,
)
    requires
        u.key_fed(after, slot.id_of(), status, res),
    ensures
        after.key_of(slot).draft@.len() == 0,
        after.key_of(slot).status == status,
{
    reveal_strlit("deepgram");
    reveal_strlit("openai");
    assert("deepgram"@.len() != "openai"@.len());
}

/// A panel has something to save exactly if one of its fields differs from what was
/// saved: its edits are dirty until they are taken back or saved.
pub proof fn any_edit_can_be_saved(u: UiState)
    ensures
        !u.general_is_dirty() <==> u.injection_draft@ == u.injection_saved@ && u.vad_draft
            == u.vad_saved && u.toast_draft == u.toast_saved,
        !u.providers_are_dirty() <==> u.provider_draft@ == u.provider_saved@ && u.model_draft@
            == u.model_saved@,
{
}

/// Each feedback is shown on its own panel, good news as good and bad as bad, with
/// the reason that was given; no edit, key or pending action is lost by it.
pub proof fn feedback_tells_how_it_went(
    u: UiState,
    after: UiState,
    res: Result<(), String>,
)
    requires
        u.general_fed(after, res) || u.provider_fed(after, res) || u.tts_fed(after, res),
    ensures
        after.injection_draft == u.injection_draft && after.vad_draft == u.vad_draft
            && after.toast_draft == u.toast_draft && after.provider_draft == u.provider_draft
            && after.model_draft == u.model_draft,
        after.deepgram_key == u.deepgram_key && after.openai_key == u.openai_key,
        after.actions == u.actions && after.selected == u.selected,
        res matches Err(e) ==> after.injection_saved == u.injection_saved
            && after.provider_saved == u.provider_saved && after.model_saved == u.model_saved,
{
}

/// What is shown of an attempt to save each panel.
pub proof fn feedback_is_shown_on_its_panel(u: UiState, after: UiState, res: Result<(), String>)
    ensures
        u.general_fed(after, res) ==> (after.general_status matches Some((ok, m)) && ok == (
        res is Ok) && (res matches Err(e) ==> m == e)) && after.provider_status
            == u.provider_status && after.tts_status == u.tts_status,
        u.provider_fed(after, res) ==> (after.provider_status matches Some((ok, m)) && ok == (
        res is Ok) && (res matches Err(e) ==> m == e)) && after.general_status
            == u.general_status && after.tts_status == u.tts_status,
        u.tts_fed(after, res) ==> (after.tts_status matches Some((ok, m)) && ok == (res is Ok) && (
        res matches Err(e) ==> m == e)) && after.general_status == u.general_status
            && after.provider_status == u.provider_status,
        res is Ok && u.general_fed(after, res) ==> after.injection_saved == u.injection_draft
            && after.vad_saved == u.vad_draft && after.toast_saved == u.toast_draft
            && after.provider_saved == u.provider_saved && says(
            after.general_status,
            true,
            "Saved \u{2713}"@,
        ),
        res is Ok && u.provider_fed(after, res) ==> after.provider_saved == u.provider_draft
            && after.model_saved == u.model_draft && after.injection_saved == u.injection_saved
            && says(
            after.provider_status,
            true,
            "Saved \u{2713} \u{2014} used on the next dictation"@,
        ),
        res is Ok && u.tts_fed(after, res) ==> says(after.tts_status, true, "Saved \u{2713}"@),
{
}

/// A push-to-talk key that was taken into use is the one that the window names from
/// then on; one that was not leaves the name as it was.
pub proof fn the_window_names_the_key_in_use(
    u: UiState,
    after: UiState,
    res: Result<String, String>,
)
    requires
        u.hotkey_fed(after, res),
    ensures
        res matches Ok(label) ==> after.ptt_label == label && (after.hotkey_status matches Some(
            (ok, m),
        ) && ok && m@ == "Active \u{2014} hold "@ + label@ + " to talk"@),
        res matches Err(e) ==> after.ptt_label == u.ptt_label && after.hotkey_status == Some(
            (false, e),
        ),
        after.actions == u.actions && after.capturing == u.capturing,
{
}

/// The same for a read-aloud combination.
pub proof fn the_window_names_the_combination_in_use(
    u: UiState,
    after: UiState,
    res: Result<String, String>,
)
    requires
        u.tts_hotkey_fed(after, res),
    ensures
        res matches Ok(combo) ==> (after.tts_hotkey_status matches Some((ok, m)) && ok && m@
            == "Active \u{2014} "@ + combo@),
        res matches Err(e) ==> after.tts_hotkey_status == Some((false, e)),
        after == (UiState { tts_hotkey_status: after.tts_hotkey_status, ..u }),
{
}

/// A combination that was captured and can be read is asked for, exactly as captured,
/// and capturing ends; one that cannot is refused with the reason, and capturing goes
/// on.
pub proof fn a_captured_combination_is_asked_for(
    u: UiState,
    after: UiState,
    combo: String,
    tried: Result<((crate::ptt::Modifiers, Seq<char>, u32), Seq<char>), Seq<char>>,
)
    requires
        u.follows_capture(after, combo, tried),
    ensures
        tried is Ok ==> !after.capturing && after.actions@.len() == u.actions@.len() + 1
            && after.actions@.last() == SettingsAction::ApplyPttKey(combo)
            && after.actions@.drop_last() == u.actions@ && (after.hotkey_status matches Some(
            (ok, _),
        ) && ok),
        tried matches Ok(combo) ==> says(
            after.hotkey_status,
            true,
            "Registering "@ + combo.1 + "\u{2026}"@,
        ),
        tried matches Err(e) ==> after.capturing == u.capturing && after.actions == u.actions && (
        after.hotkey_status matches Some((ok, m)) && !ok && m@ == "Unsupported combo: "@ + e),
        after.ptt_label == u.ptt_label,
{
    if tried is Ok {
        assert(after.actions@.drop_last() =~= u.actions@);
    }
}

/// Each provider's row is its own: what is put into one is read back from it, and the
/// other is left alone.
pub proof fn key_rows_are_separate(u: UiState, slot: KeySlot, other: KeySlot, row: KeyRow)
    ensures
        u.with_key(slot, row).key_of(slot) == row,
        other != slot ==> u.with_key(slot, row).key_of(other) == u.key_of(other),
        u.with_key(slot, u.key_of(slot)) == u,
        u.with_key(KeySlot::Deepgram, row).deepgram_key == row,
        u.with_key(KeySlot::OpenAi, row).openai_key == row,
        KeySlot::Deepgram.id_of() == "deepgram"@ && KeySlot::OpenAi.id_of() == "openai"@,
{
}

/// What is learnt of a key is learnt of that provider's alone.
pub proof fn a_status_is_learnt_of_its_provider(
    u: UiState,
    after: UiState,
    provider: Seq<char>,
    status: SecretStatus,
    res: Result<(), String>,
)
    requires
        u.key_fed(after, provider, status, res),
    ensures
        provider == "deepgram"@ ==> after.deepgram_key.status == status && after.openai_key
            == u.openai_key && after.announced_keys == u.announced_keys,
        provider == "openai"@ ==> after.openai_key.status == status && after.deepgram_key
            == u.deepgram_key && after.announced_keys == u.announced_keys,
        provider == "groq"@ ==> after.announced_keys.groq == Some(status),
        provider == "elevenlabs"@ ==> after.announced_keys.elevenlabs == Some(status),
        provider == "local-whisper"@ ==> after.announced_keys.local_whisper == Some(status),
        provider == "parakeet"@ ==> after.announced_keys.parakeet == Some(status),
        provider != "groq"@ ==> after.announced_keys.groq == u.announced_keys.groq,
        provider != "elevenlabs"@ ==> after.announced_keys.elevenlabs
            == u.announced_keys.elevenlabs,
        provider != "local-whisper"@ ==> after.announced_keys.local_whisper
            == u.announced_keys.local_whisper,
        provider != "parakeet"@ ==> after.announced_keys.parakeet == u.announced_keys.parakeet,
        provider != "deepgram"@ ==> after.deepgram_key == u.deepgram_key,
        provider != "openai"@ ==> after.openai_key == u.openai_key,
        res is Ok ==> (after.provider_status matches Some((ok, m)) && ok && m@
            == "Key updated \u{2713}"@),
        res matches Err(e) ==> after.provider_status == Some((false, e)),
        after.actions == u.actions && after.provider_draft == u.provider_draft,
{
    lemma_provider_ids();
}

proof fn lemma_provider_ids()
    ensures
        forall|i: int, j: int|
            0 <= i < j < 6 ==> #[trigger] provider_ids()[i] != #[trigger] provider_ids()[j],
        "deepgram"@ != "openai"@ && "deepgram"@ != "groq"@ && "deepgram"@ != "elevenlabs"@
            && "deepgram"@ != "local-whisper"@ && "deepgram"@ != "parakeet"@,
        "openai"@ != "groq"@ && "openai"@ != "elevenlabs"@ && "openai"@ != "local-whisper"@
            && "openai"@ != "parakeet"@,
        "groq"@ != "elevenlabs"@ && "groq"@ != "local-whisper"@ && "groq"@ != "parakeet"@,
        "elevenlabs"@ != "local-whisper"@ && "elevenlabs"@ != "parakeet"@ && "local-whisper"@
            != "parakeet"@,
{
    reveal_strlit("deepgram");
    reveal_strlit("openai");
    reveal_strlit("groq");
    reveal_strlit("elevenlabs");
    reveal_strlit("local-whisper");
    reveal_strlit("parakeet");
    assert("deepgram"@[0] != "parakeet"@[0]);
    assert("deepgram"@.len() == 8 && "openai"@.len() == 6 && "groq"@.len() == 4
        && "elevenlabs"@.len() == 10 && "local-whisper"@.len() == 13 && "parakeet"@.len() == 8);
}

/// Each provider that is known goes by its own name; one that is not goes by its id.
pub proof fn providers_go_by_their_names(id: Seq<char>)
    ensures
        display_name("deepgram"@, 0) == "Deepgram"@,
        display_name("openai"@, 0) == "OpenAI"@,
        display_name("groq"@, 0) == "Groq Whisper"@,
        display_name("elevenlabs"@, 0) == "ElevenLabs Scribe"@,
        display_name("local-whisper"@, 0) == "LocalWhisper"@,
        display_name("parakeet"@, 0) == "NVIDIA Parakeet"@,
        id != "deepgram"@ && id != "openai"@ && id != "groq"@ && id != "elevenlabs"@ && id
            != "local-whisper"@ && id != "parakeet"@ ==> display_name(id, 0) == id,
{
    lemma_provider_ids();
    reveal_with_fuel(display_name, 7);
}

/// What is said of a key tells whether there is one, and whether it comes from the
/// environment.
pub proof fn key_notes_tell_where_a_key_is()
    ensures
        key_note(SecretStatus::FromFile) == "key configured \u{2713}"@,
        key_note(SecretStatus::FromEnv) == "key configured \u{2713} (env var)"@,
        key_note(SecretStatus::Missing) == "no key \u{2717}"@,
{
}

/// The microphone is shown as good exactly while it is granted, as bad exactly while
/// it is refused, and as neither before it was asked for.
pub proof fn the_microphone_is_shown_as_it_is(status: MicStatus)
    ensures
        mic_tone(status) == Some(true) <==> status == MicStatus::Granted,
        mic_tone(status) is None <==> status == MicStatus::NotDetermined,
        mic_tone(status) == Some(false) <==> status == MicStatus::Denied || status
            == MicStatus::Restricted,
        mic_line(MicStatus::Granted) == "Granted \u{2014} Holler can hear you."@,
        mic_line(MicStatus::Denied) == "Denied \u{2014} recordings will be silent."@,
        mic_line(MicStatus::Restricted)
            == "Blocked by your organization \u{2014} ask your administrator."@,
        mic_line(MicStatus::NotDetermined)
            == "Not requested yet \u{2014} macOS will ask the first time you record."@,
{
}

/// A pressed key is written down in lower case under the name by which hotkeys know
/// it, with each modifier that is held, followed by a plus sign, before it.
pub proof fn a_combination_is_written_as_pressed(key: Seq<char>, m: KeyMods)
    ensures
        m.ctrl ==> combo_of(key, m) == "ctrl"@ + "+"@ + combo_of(key, KeyMods { ctrl: false, ..m }),
        !m.ctrl && m.alt ==> combo_of(key, m) == "alt"@ + "+"@ + combo_of(
            key,
            KeyMods { alt: false, ..m },
        ),
        !m.ctrl && !m.alt && m.shift ==> combo_of(key, m) == "shift"@ + "+"@ + combo_of(
            key,
            KeyMods { shift: false, ..m },
        ),
        !m.ctrl && !m.alt && !m.shift && m.mac_cmd ==> combo_of(key, m) == "cmd"@ + "+"@
            + combo_of(key, KeyMods { mac_cmd: false, ..m }),
        !m.ctrl && !m.alt && !m.shift && !m.mac_cmd ==> combo_of(key, m) == text::lower(
            combo_key(key),
        ),
        combo_key("Backtick"@) == "backquote"@ && combo_key("Equals"@) == "equal"@ && combo_key(
            "OpenBracket"@,
        ) == "bracketleft"@ && combo_key("CloseBracket"@) == "bracketright"@,
        key != "Backtick"@ && key != "Equals"@ && key != "OpenBracket"@ && key
            != "CloseBracket"@ ==> combo_key(key) == key,
{
    reveal_strlit("Backtick");
    reveal_strlit("Equals");
    reveal_strlit("OpenBracket");
    reveal_strlit("CloseBracket");
    assert("Backtick"@.len() == 8 && "Equals"@.len() == 6 && "OpenBracket"@.len() == 11
        && "CloseBracket"@.len() == 12);
    reveal_strlit("ctrl");
    reveal_strlit("alt");
    reveal_strlit("shift");
    reveal_strlit("cmd");
    if m.ctrl {
        lemma_combo("ctrl"@, key, m, KeyMods { ctrl: false, ..m });
    } else if m.alt {
        lemma_combo("alt"@, key, m, KeyMods { alt: false, ..m });
    } else if m.shift {
        lemma_combo("shift"@, key, m, KeyMods { shift: false, ..m });
    } else if m.mac_cmd {
        lemma_combo("cmd"@, key, m, KeyMods { mac_cmd: false, ..m });
    } else {
        assert(combo_parts(key, m) =~= seq![combo_key(key)]);
    }
}

proof fn lemma_combo(name: Seq<char>, key: Seq<char>, m: KeyMods, rest: KeyMods)
    requires
        combo_parts(key, m) =~= seq![name] + combo_parts(key, rest),
        text::lower(name) =~= name,
    ensures
        combo_of(key, m) == name + "+"@ + combo_of(key, rest),
{
    let tail = text::joined(combo_parts(key, rest), "+"@);
    text::laws::joining_goes_piece_by_piece(seq![name], combo_parts(key, rest), "+"@, name);
    reveal_strlit("+");
    assert(text::joined(combo_parts(key, m), "+"@) == name + "+"@ + tail);
    assert(text::lower(name + "+"@ + tail) =~= text::lower(name) + "+"@ + text::lower(tail));
}

/// The key that is taken is the first that was pressed: it was pressed, and none
/// before it was.
pub proof fn the_first_pressed_key_is_taken(events: Seq<KeyEvent>, from: int)
    requires
        0 <= from <= events.len(),
    ensures
        match first_pressed(events, from) {
            Some(i) => from <= i < events.len() && events[i].pressed && forall|k: int|
                from <= k < i ==> !(#[trigger] events[k]).pressed,
            None => forall|k: int| from <= k < events.len() ==> !(#[trigger] events[k]).pressed,
        },
    decreases events.len() - from,
{
    if from < events.len() && !events[from].pressed {
        the_first_pressed_key_is_taken(events, from + 1);
    }
}

/// The list needs no search exactly if the last one was for what the field holds now;
/// the statistics need none if they are there, were refused or are on their way.
pub proof fn searches_follow_the_field(u: UiState)
    ensures
        u.history_is_current() <==> u.history_requested is Some && u.history_requested->0@
            == u.history_query@,
        u.stats is Some ==> u.stats_known(),
        u.stats_status is Some ==> u.stats_known(),
        u.stats is None && u.stats_status is None && u.actions@.len() == 0 ==> !u.stats_known(),
{
}

/// Every section is listed, once, the general one first.
pub proof fn every_section_is_listed(p: Panel)
    ensures
        panel_order().len() == 7,
        panel_order()[0] == Panel::General,
        panel_order().contains(p),
        forall|i: int, j: int|
            0 <= i < j < 7 ==> #[trigger] panel_order()[i] != #[trigger] panel_order()[j],
{
    let order = panel_order();
    assert(order[0] == Panel::General && order[1] == Panel::Hotkey && order[2]
        == Panel::Providers && order[3] == Panel::Permissions && order[4] == Panel::History
        && order[5] == Panel::Stats && order[6] == Panel::About);
}

/// A key is bare exactly if no modifier is held with it.
pub proof fn a_bare_key_has_no_modifier(m: KeyMods)
    ensures
        !no_mods(m) <==> m.ctrl || m.alt || m.shift || m.mac_cmd || m.command,
{
}

/// A status line says what was said, with the tone in which it was said.
pub proof fn a_status_says_one_thing(s: Status, ok: bool, message: Seq<char>)
    ensures
        says(s, ok, message) ==> s is Some,
        s matches Some((tone, line)) ==> (says(s, ok, message) <==> tone == ok && line@ == message),
{
}

} // verus!
