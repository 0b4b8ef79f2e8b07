//! The application's state, and what each event does to it.
//!
//! Every function takes what was observed (a key event, how an attempt went, the
//! time) and changes the state. What has to happen outside (the microphone, the
//! tray, windows, the clipboard, files) comes back as a list of [`Effect`]s, to be
//! carried out in order. Times are nanoseconds of a clock that never goes back.

pub mod edits;
pub mod laws;
pub mod menu;

use std::collections::HashSet;

use vstd::prelude::*;

use crate::audio::trimmed;
use crate::config::{prefixed, Config, ConfigError};
use crate::icons::next_frame;
use crate::inject::InjectMode;
use crate::overlay::Phase;
use crate::permissions::{MicStatus, Platform};
use crate::ptt::{parse_ptt_key, try_parse_ptt_key, HotKey};
use crate::speech::SpeechStatus;
use crate::status_popup::{Button, Phase as PopupPhase, PopupAction, StatusPopup};
use crate::stt::Transcription;
use crate::text::{self, blank};
use crate::ui::{TtsHotkey, UiState};

verus! {

/// Time between two frames of an animation.
pub const FRAME_INTERVAL: u64 = 90_000_000;

/// Time between two looks at what the system allows.
pub const AX_POLL_INTERVAL: u64 = 2_000_000_000;

/// A clip with fewer samples holds no speech: 0.2 seconds.
pub const MIN_SAMPLES: usize = 3_200;

/// One second.
pub const SECOND: u64 = 1_000_000_000;

/// The latest time at which deadlines can still be set.
pub const LAST_TIME: u64 = 18_000_000_000_000_000_000;

/// What the tray icon shows.
#[derive(Debug, Clone, Copy, PartialEq, Eq, Structural)]
pub enum TrayState {
    Idle,
    Recording,
    Processing,
}

/// What the tray icon says when pointed at.
#[derive(Debug, PartialEq, Eq)]
pub enum Tooltip {
    /// How to talk.
    Ready,
    PttUnavailable,
    MicUnavailable,
    HistoryNotSaved,
    SettingsFailed,
    /// Something failed, and why.
    Failed(String),
}

/// The text of a tooltip.
pub open spec fn tooltip_text(t: Tooltip, ptt_label: Seq<char>) -> Seq<char> {
    match t {
        Tooltip::Ready => "Holler \u{2014} hold "@ + ptt_label + " to talk"@,
        Tooltip::PttUnavailable =>
            "Holler \u{2014} PTT key unavailable; pick another in Settings \u{2192} Hotkey"@,
        Tooltip::MicUnavailable =>
            "Holler \u{2014} microphone unavailable (tray \u{2192} Grant Microphone Access)"@,
        Tooltip::HistoryNotSaved =>
            "Holler \u{2014} history not saved (see logs); text still delivered"@,
        Tooltip::SettingsFailed => "Holler \u{2014} settings window failed to open"@,
        Tooltip::Failed(m) => "Holler \u{2014} "@ + m@,
    }
}

impl Tooltip {
    /// The text of this tooltip.
    pub fn text(&self, ptt_label: &str) -> (r: String)
        ensures
            r@ == tooltip_text(*self, ptt_label@),
    {
        match self {
            Tooltip::Ready => {
                let mut t = prefixed("Holler \u{2014} hold ", ptt_label);
                t.append(" to talk");
                t
            },
            Tooltip::PttUnavailable =>
                "Holler \u{2014} PTT key unavailable; pick another in Settings \u{2192} Hotkey".to_owned(),
            Tooltip::MicUnavailable =>
                "Holler \u{2014} microphone unavailable (tray \u{2192} Grant Microphone Access)".to_owned(),
            Tooltip::HistoryNotSaved =>
                "Holler \u{2014} history not saved (see logs); text still delivered".to_owned(),
            Tooltip::SettingsFailed => "Holler \u{2014} settings window failed to open".to_owned(),
            Tooltip::Failed(m) => prefixed("Holler \u{2014} ", m.as_str()),
        }
    }
}

/// Something to be done outside.
#[derive(Debug, PartialEq, Eq)]
pub enum Effect {
    /// Show this tooltip on the tray icon.
    SetTooltip(Tooltip),
    /// Draw the tray icon.
    DrawTray { state: TrayState, frame: usize },
    /// Draw the first frame of the recording pill, then show it.
    ShowOverlay(Phase),
    /// Draw a frame of the recording pill.
    DrawOverlay { phase: Phase, frame: usize },
    HideOverlay,
    /// Transcribe the clip, then report with [`App::deliver`] or
    /// [`App::transcription_failed`].
    Transcribe { provider: String, model: Option<String> },
    /// Put this on the clipboard.
    SetClipboard(String),
    /// Add this to the history, then report a failure with [`App::record_failed`].
    Record { text: String, provider: String },
    /// Show the clipboard toast.
    ShowToast,
    HideToast,
    /// Draw the read-aloud popup.
    DrawPopup,
    /// Draw the read-aloud popup, then show it.
    RevealPopup,
    HidePopup,
    /// Read this aloud with the configured voice.
    SpeakWithVoice(String),
    /// Read this aloud with the system's engine, then report with
    /// [`App::system_spoke`].
    SpeakWithSystem(String),
    /// Stop the read-aloud worker.
    StopSpeech,
    /// Stop the configured voice.
    StopVoice,
    /// Stop the system's engine.
    StopSystem,
    /// Bring the prompts at the top of the tray menu in line with
    /// [`App::rebuild_grant_block`].
    UpdateGrantBlock,
    /// Redraw the settings window.
    DrawSettings,
    /// Build the read-aloud voice anew.
    RebuildVoice,
}

/// Hotkeys that are held down.
pub struct HeldKeys {
    ids: HashSet<u32>,
}

impl View for HeldKeys {
    type V = Set<u32>;

    closed spec fn view(&self) -> Set<u32> {
        self.ids@
    }
}

impl HeldKeys {
    /// No key is held.
    pub fn new() -> (r: HeldKeys)
        ensures
            r@ == Set::<u32>::empty(),
    {
        HeldKeys { ids: HashSet::new() }
    }

    /// A key was pressed. The result says whether it was not held before.
    pub fn press(&mut self, id: u32) -> (r: bool)
        ensures
            r == !old(self)@.contains(id),
            final(self)@ == old(self)@.insert(id),
    {
        broadcast use vstd::std_specs::hash::group_hash_axioms;

        self.ids.insert(id)
    }

    /// A key was released. The result says whether it was held before.
    pub fn release(&mut self, id: u32) -> (r: bool)
        ensures
            r == old(self)@.contains(id),
            final(self)@ == old(self)@.remove(id),
            !r ==> final(self)@ == old(self)@,
    {
        broadcast use vstd::std_specs::hash::group_hash_axioms;

        let r = self.ids.remove(&id);
        assert(!r ==> self.ids@ =~= old(self).ids@);
        r
    }
}

/// The registered hotkeys, and which of them are held down.
pub struct HotkeyState {
    pub ptt_hotkey_id: Option<u32>,
    pub tts_read_hotkey_id: Option<u32>,
    pub tts_read_clipboard_hotkey_id: Option<u32>,
    pub tts_stop_hotkey_id: Option<u32>,
    /// The read-aloud hotkeys that are held down.
    pub tts_held: HeldKeys,
    /// Whether the push-to-talk key is held down.
    pub ptt_held: bool,
    /// Whether the microphone is open.
    pub capturing: bool,
}

impl HotkeyState {
    /// The microphone is open only while the push-to-talk key is held.
    pub open spec fn wf(self) -> bool {
        self.capturing ==> self.ptt_held
    }

    /// No hotkey is registered and none is held.
    pub open spec fn is_fresh(self) -> bool {
        &&& self.ptt_hotkey_id is None
        &&& self.tts_read_hotkey_id is None
        &&& self.tts_read_clipboard_hotkey_id is None
        &&& self.tts_stop_hotkey_id is None
        &&& self.tts_held@ == Set::<u32>::empty()
        &&& !self.ptt_held
        &&& !self.capturing
    }

    /// No hotkey is registered and none is held.
    pub fn new() -> (r: HotkeyState)
        ensures
            r.wf(),
            r.is_fresh(),
    {
        HotkeyState {
            ptt_hotkey_id: None,
            tts_read_hotkey_id: None,
            tts_read_clipboard_hotkey_id: None,
            tts_stop_hotkey_id: None,
            tts_held: HeldKeys::new(),
            ptt_held: false,
            capturing: false,
        }
    }

    /// Whether `id` is one of the read-aloud hotkeys.
    pub open spec fn is_tts(self, id: u32) -> bool {
        self.tts_read_hotkey_id == Some(id) || self.tts_read_clipboard_hotkey_id == Some(id)
            || self.tts_stop_hotkey_id == Some(id)
    }

    /// What a hotkey event asks for. A key that is held repeats its press without
    /// a release in between; the repetitions ask for nothing.
    pub open spec fn decision(self, id: u32, pressed: bool) -> HotkeyDecision {
        if pressed && self.is_tts(id) {
            if self.tts_held@.contains(id) {
                HotkeyDecision::Ignored
            } else if self.tts_read_hotkey_id == Some(id) {
                HotkeyDecision::ReadSelection
            } else if self.tts_read_clipboard_hotkey_id == Some(id) {
                HotkeyDecision::ReadClipboard
            } else {
                HotkeyDecision::StopReading
            }
        } else if !pressed && (self.tts_held@.contains(id) || self.is_tts(id)) {
            HotkeyDecision::Ignored
        } else if self.ptt_hotkey_id != Some(id) {
            HotkeyDecision::Ignored
        } else if pressed {
            if self.ptt_held {
                HotkeyDecision::Ignored
            } else {
                HotkeyDecision::OpenMic
            }
        } else if self.ptt_held && self.capturing {
            HotkeyDecision::CloseMic
        } else {
            HotkeyDecision::Ignored
        }
    }

    /// The read-aloud hotkeys that are held after an event.
    pub open spec fn held_after(self, id: u32, pressed: bool) -> Set<u32> {
        if pressed && self.is_tts(id) {
            self.tts_held@.insert(id)
        } else if !pressed {
            self.tts_held@.remove(id)
        } else {
            self.tts_held@
        }
    }

    /// Whether the push-to-talk key is held after an event.
    pub open spec fn ptt_held_after(self, id: u32, pressed: bool) -> bool {
        if self.ptt_hotkey_id != Some(id) || self.is_tts(id) || (!pressed
            && self.tts_held@.contains(id)) {
            self.ptt_held
        } else {
            pressed
        }
    }

    /// Whether `after` is this state after an event.
    pub open spec fn follows(self, after: HotkeyState, id: u32, pressed: bool) -> bool {
        &&& after.tts_held@ == self.held_after(id, pressed)
        &&& after.ptt_held == self.ptt_held_after(id, pressed)
        &&& after.capturing == (self.capturing && after.ptt_held)
        &&& after.ptt_hotkey_id == self.ptt_hotkey_id
        &&& after.tts_read_hotkey_id == self.tts_read_hotkey_id
        &&& after.tts_read_clipboard_hotkey_id == self.tts_read_clipboard_hotkey_id
        &&& after.tts_stop_hotkey_id == self.tts_stop_hotkey_id
    }

    /// A hotkey was pressed or released.
    pub fn on_event(&mut self, id: u32, pressed: bool) -> (r: HotkeyDecision)
        requires
            old(self).wf(),
        ensures
            final(self).wf(),
            r == old(self).decision(id, pressed),
            old(self).follows(*final(self), id, pressed),
    {
        let is_read = is_id(self.tts_read_hotkey_id, id);
        let is_clipboard = is_id(self.tts_read_clipboard_hotkey_id, id);
        let is_tts = is_read || is_clipboard || is_id(self.tts_stop_hotkey_id, id);
        if pressed {
            if is_tts {
                let fresh = self.tts_held.press(id);
                if !fresh {
                    return HotkeyDecision::Ignored;
                }
                if is_read {
                    return HotkeyDecision::ReadSelection;
                }
                if is_clipboard {
                    return HotkeyDecision::ReadClipboard;
                }
                return HotkeyDecision::StopReading;
            }
        } else {
            let was_held = self.tts_held.release(id);
            if was_held || is_tts {
                return HotkeyDecision::Ignored;
            }
        }
        if !is_id(self.ptt_hotkey_id, id) {
            return HotkeyDecision::Ignored;
        }
        if pressed {
            if self.ptt_held {
                return HotkeyDecision::Ignored;
            }
            self.ptt_held = true;
            HotkeyDecision::OpenMic
        } else {
            if !self.ptt_held {
                return HotkeyDecision::Ignored;
            }
            self.ptt_held = false;
            if self.capturing {
                self.capturing = false;
                HotkeyDecision::CloseMic
            } else {
                HotkeyDecision::Ignored
            }
        }
    }
}

/// The application.
pub struct App {
    pub platform: Platform,
    pub config: Config,
    /// Whether the tray icon was built.
    pub tray_built: bool,
    /// Whether hotkeys can be registered at all.
    pub hotkeys_ready: bool,
    pub keys: HotkeyState,
    pub ptt_label: String,
    pub tray_state: TrayState,
    pub anim_frame: usize,
    /// Whether there is a history to record to.
    pub history_ready: bool,
    /// Whether keys can be simulated.
    pub injector_ready: bool,
    pub accessibility_ok: bool,
    pub accessibility_warned: bool,
    pub last_mic_status: MicStatus,
    pub last_ax_check: u64,
    /// Whether there is a recording pill.
    pub overlay_ready: bool,
    /// Whether there is a toast.
    pub toast_ready: bool,
    pub toast_hide_at: Option<u64>,
    pub reader: PopupHost,
    /// Whether there is a read-aloud voice.
    pub voice_ready: bool,
    /// Whether the read-aloud worker was started.
    pub speech_started: bool,
    /// What was last read aloud.
    pub last_spoken: Option<String>,
    /// The settings window, while it is open.
    pub settings: Option<UiState>,
    pub settings_repaint_at: Option<u64>,
}

/// What to do about a tray state: draw its first frame, and show or hide the
/// recording pill, where there is one.
pub open spec fn tray_effects(state: TrayState, overlay: bool) -> Seq<Effect> {
    seq![Effect::DrawTray { state, frame: 0 }] + if overlay {
        match state {
            TrayState::Idle => seq![Effect::HideOverlay],
            TrayState::Recording => seq![Effect::ShowOverlay(Phase::Recording)],
            TrayState::Processing => seq![Effect::ShowOverlay(Phase::Processing)],
        }
    } else {
        Seq::empty()
    }
}

/// The effects in both lists, those of the first first.
fn concat(mut first: Vec<Effect>, second: Vec<Effect>) -> (r: Vec<Effect>)
    ensures
        r@ == first@ + second@,
{
    let mut second = second;
    first.append(&mut second);
    first
}

fn one(effect: Effect) -> (r: Vec<Effect>)
    ensures
        r@ == seq![effect],
{
    let mut v: Vec<Effect> = Vec::new();
    v.push(effect);
    assert(v@ =~= seq![effect]);
    v
}

/// The model to ask for: the configured one, if it is not blank.
pub open spec fn same_override(model: Option<String>, config: Config) -> bool {
    crate::secrets::opt(model) == crate::config::override_of(config.stt_model@)
}

impl App {
    /// The popup, if there is one, is as it should be.
    pub open spec fn wf(self) -> bool {
        &&& self.reader.wf()
        &&& self.keys.wf()
        &&& self.anim_frame < crate::icons::FRAMES
    }

    /// The application as it starts. Settings that cannot be loaded are replaced
    /// by the defaults.
    pub fn new(
        platform: Platform,
        loaded: Result<Config, ConfigError>,
        history_ready: bool,
        accessibility_ok: bool,
        mic_status: MicStatus,
        now: u64,
    ) -> (r: App)
        ensures
            r.wf(),
            match loaded {
                Ok(c) => r.config == c,
                Err(_) => r.config@ == crate::config::default_config(),
            },
            r.platform == platform && r.history_ready == history_ready && r.accessibility_ok
                == accessibility_ok && r.last_mic_status == mic_status && r.last_ax_check == now,
            r.tray_state == TrayState::Idle && r.anim_frame == 0 && !r.tray_built
                && !r.hotkeys_ready && !r.accessibility_warned,
            r.keys.is_fresh(),
            r.ptt_label@.len() == 0,
            !r.injector_ready && !r.overlay_ready && !r.toast_ready && !r.voice_ready
                && !r.speech_started,
            r.toast_hide_at is None && r.settings_repaint_at is None,
            r.reader.popup is None && r.reader.hide_at is None && r.settings is None
                && r.last_spoken is None,
    {
        let config = match loaded {
            Ok(c) => c,
            Err(_) => Config::default(),
        };
        App {
            platform,
            config,
            tray_built: false,
            hotkeys_ready: false,
            keys: HotkeyState::new(),
            ptt_label: String::new(),
            tray_state: TrayState::Idle,
            anim_frame: 0,
            history_ready,
            injector_ready: false,
            accessibility_ok,
            accessibility_warned: false,
            last_mic_status: mic_status,
            last_ax_check: now,
            overlay_ready: false,
            toast_ready: false,
            toast_hide_at: None,
            reader: PopupHost { popup: None, hide_at: None },
            voice_ready: false,
            speech_started: false,
            last_spoken: None,
            settings: None,
            settings_repaint_at: None,
        }
    }

    // ---- The tray ----------------------------------------------------------

    /// Goes to a tray state. This alone decides whether the recording pill shows:
    /// it does while recording and transcribing.
    pub fn set_tray_state(&mut self, state: TrayState) -> (r: Vec<Effect>)
        ensures
            *final(self) == (App { tray_state: state, anim_frame: 0, ..*old(self) }),
            r@ == tray_effects(state, old(self).overlay_ready),
    {
        self.tray_state = state;
        self.anim_frame = 0;
        let mut r = one(Effect::DrawTray { state, frame: 0 });
        if self.overlay_ready {
            match state {
                TrayState::Idle => {
                    r.push(Effect::HideOverlay);
                },
                TrayState::Recording => {
                    r.push(Effect::ShowOverlay(Phase::Recording));
                },
                TrayState::Processing => {
                    r.push(Effect::ShowOverlay(Phase::Processing));
                },
            }
        }
        assert(r@ =~= tray_effects(state, old(self).overlay_ready));
        r
    }

    // ---- Hotkeys -----------------------------------------------------------

    /// A hotkey was pressed or released.
    pub fn on_hotkey(&mut self, id: u32, pressed: bool) -> (r: HotkeyDecision)
        requires
            old(self).wf(),
        ensures
            final(self).wf(),
            r == old(self).keys.decision(id, pressed),
            old(self).keys.follows(final(self).keys, id, pressed),
            *final(self) == (App { keys: final(self).keys, ..*old(self) }),
    {
        self.keys.on_event(id, pressed)
    }

    /// The microphone was opened, or could not be.
    pub fn mic_opened(&mut self, opened: bool) -> (r: Vec<Effect>)
        requires
            old(self).wf(),
            old(self).keys.ptt_held,
        ensures
            final(self).wf(),
            opened ==> *final(self) == (App {
                keys: HotkeyState { capturing: true, ..old(self).keys },
                tray_state: TrayState::Recording,
                anim_frame: 0,
                ..*old(self)
            }) && r@ == seq![Effect::SetTooltip(Tooltip::Ready)] + tray_effects(
                TrayState::Recording,
                old(self).overlay_ready,
            ),
            !opened ==> *final(self) == *old(self) && r@ == seq![
                Effect::SetTooltip(Tooltip::MicUnavailable),
            ],
    {
        if opened {
            self.keys.capturing = true;
            let state = self.set_tray_state(TrayState::Recording);
            concat(one(Effect::SetTooltip(Tooltip::Ready)), state)
        } else {
            one(Effect::SetTooltip(Tooltip::MicUnavailable))
        }
    }

    /// A clip, without the silence at its ends if the settings ask for that.
    pub fn maybe_vad_trim(&self, clip: Vec<i16>) -> (r: Vec<i16>)
        ensures
            self.keeps(clip@, r@),
    {
        if self.config.vad {
            trimmed(&clip)
        } else {
            clip
        }
    }

    /// Whether `rest` is what is kept of a clip: all of it, or, if the settings ask
    /// for that, what is left without the silence at its ends.
    pub open spec fn keeps(self, clip: Seq<i16>, rest: Seq<i16>) -> bool {
        if self.config.vad {
            crate::audio::is_trimmed(clip, rest)
        } else {
            rest == clip
        }
    }

    /// The state that a finished clip leads to.
    pub open spec fn state_after_clip(samples: Option<int>) -> TrayState {
        match samples {
            Some(n) => if n < MIN_SAMPLES {
                TrayState::Idle
            } else {
                TrayState::Processing
            },
            None => TrayState::Idle,
        }
    }

    /// Whether `after` and `effects` are what a finished clip of so many samples
    /// leads to, or a recording that failed. A clip that is too short to hold speech
    /// is dropped; any other is to be transcribed.
    pub open spec fn follows_clip(
        self,
        after: App,
        effects: Seq<Effect>,
        samples: Option<int>,
    ) -> bool {
        let state = App::state_after_clip(samples);
        let shown = tray_effects(state, self.overlay_ready);
        &&& after == (App { tray_state: state, anim_frame: 0, ..self })
        &&& if state == TrayState::Processing {
            &&& effects.len() == shown.len() + 1
            &&& effects.drop_last() == shown
            &&& effects.last() matches Effect::Transcribe { provider, model }
            &&& provider == self.config.stt_provider
            &&& same_override(model, self.config)
        } else {
            effects == shown
        }
    }

    /// The microphone was closed, and this is the clip, unless recording failed. The
    /// result is the clip to transcribe, if it is long enough once silence was
    /// trimmed off, and what to do.
    pub fn clip_finished(&mut self, clip: Option<Vec<i16>>) -> (r: (
        Option<Vec<i16>>,
        Vec<Effect>,
    ))
        ensures
            match clip {
                Some(c) => exists|rest: Seq<i16>| #[trigger]
                    old(self).keeps(c@, rest) && old(self).follows_clip(
                        *final(self),
                        r.1@,
                        Some(rest.len() as int),
                    ) && (match r.0 {
                        Some(t) => t@ == rest && rest.len() >= MIN_SAMPLES,
                        None => rest.len() < MIN_SAMPLES,
                    }),
                None => r.0 is None && old(self).follows_clip(*final(self), r.1@, None),
            },
            r.0 is Some <==> r.1@.len() > 0 && r.1@.last() is Transcribe,
            r.0 is Some <==> final(self).tray_state == TrayState::Processing,
            r.0 is None <==> final(self).tray_state == TrayState::Idle,
            r.0 matches Some(t) ==> t@.len() >= 3_200,
            r.0 is None ==> forall|i: int|
                0 <= i < r.1@.len() ==> !(#[trigger] r.1@[i] is Transcribe),
            !old(self).config.vad ==> (clip matches Some(c) ==> (r.0 is Some <==> c@.len()
                >= 3_200) && (r.0 matches Some(t) ==> t@ == c@)),
    {
        match clip {
            Some(c) => {
                let rest = self.maybe_vad_trim(c);
                assert(self.keeps(c@, rest@));
                let effects = self.clip_recorded(Some(rest.len()));
                if rest.len() >= MIN_SAMPLES {
                    (Some(rest), effects)
                } else {
                    (None, effects)
                }
            },
            None => (None, self.clip_recorded(None)),
        }
    }

    /// The microphone was closed: the clip has so many samples once silence was
    /// trimmed off, or recording failed.
    pub fn clip_recorded(&mut self, samples: Option<usize>) -> (r: Vec<Effect>)
        ensures
            old(self).follows_clip(
                *final(self),
                r@,
                match samples {
                    Some(n) => Some(n as int),
                    None => None,
                },
            ),
            samples matches Some(n) && n >= 3_200 ==> {
                &&& final(self).tray_state == TrayState::Processing
                &&& r@.len() > 0
                &&& r@.last() is Transcribe
            },
            !(samples matches Some(n) && n >= 3_200) ==> {
                &&& final(self).tray_state == TrayState::Idle
                &&& forall|i: int| 0 <= i < r@.len() ==> !(#[trigger] r@[i] is Transcribe)
            },
    {
        let long_enough = match samples {
            Some(n) => n >= MIN_SAMPLES,
            None => false,
        };
        if !long_enough {
            return self.set_tray_state(TrayState::Idle);
        }
        let mut r = self.set_tray_state(TrayState::Processing);
        let ghost shown = r@;
        let model: Option<String> = match self.config.model_override() {
            Some(m) => Some(m.to_owned()),
            None => None,
        };
        r.push(Effect::Transcribe { provider: self.config.stt_provider.clone(), model });
        assert(r@.drop_last() =~= shown);
        r
    }
}

/// What a hotkey event asks for.
#[derive(Debug, Clone, Copy, PartialEq, Eq, Structural)]
pub enum HotkeyDecision {
    Ignored,
    /// Capture the selection, then [`App::selection_captured`].
    ReadSelection,
    /// Read the clipboard, then [`App::read_clipboard_aloud`].
    ReadClipboard,
    /// [`App::stop_read_aloud`].
    StopReading,
    /// Open the microphone, then [`App::mic_opened`].
    OpenMic,
    /// Close the microphone, then [`App::clip_finished`].
    CloseMic,
}

fn is_id(registered: Option<u32>, id: u32) -> (r: bool)
    ensures
        r == (registered == Some(id)),
{
    match registered {
        Some(n) => n == id,
        None => false,
    }
}

// ---- Delivering a transcript -------------------------------------------------

/// How to bring a transcript to the cursor.
#[derive(Debug, Clone, Copy, PartialEq, Eq, Structural)]
pub enum InjectionPlan {
    /// Not at all: the text stays on the clipboard.
    FallBack,
    /// Wait so many milliseconds for the clipboard to settle, then deliver in this
    /// mode; see [`crate::inject::deliver`].
    Inject { mode: InjectMode, settle_ms: u64 },
}

/// How bringing a transcript to the cursor went.
#[derive(Debug, Clone, Copy, PartialEq, Eq, Structural)]
pub enum InjectionOutcome {
    Delivered,
    /// It was not tried.
    Skipped,
    /// It failed.
    Failed,
    /// Keys cannot be simulated.
    NoInjector,
}

/// How to bring a transcript to the cursor: not while the keyboard is locked, and
/// not by pasting without permission.
pub open spec fn injection_plan(
    platform: Platform,
    mode: InjectMode,
    accessibility: bool,
    secure: bool,
) -> InjectionPlan {
    if secure || (mode == InjectMode::Paste && !accessibility) {
        InjectionPlan::FallBack
    } else {
        InjectionPlan::Inject {
            mode,
            settle_ms: if mode == InjectMode::Type {
                0
            } else if platform == Platform::Windows {
                100
            } else {
                60
            },
        }
    }
}

/// What is done first with a transcript: it goes to the clipboard and, where there
/// is one, to the history. A blank one only ends the processing state.
pub open spec fn delivery_effects(app: App, t: Transcription) -> Seq<Effect> {
    if text::is_blank(t.text@) {
        tray_effects(TrayState::Idle, app.overlay_ready)
    } else {
        seq![Effect::SetTooltip(Tooltip::Ready), Effect::SetClipboard(t.text)] + (
        if app.history_ready {
            seq![Effect::Record { text: t.text, provider: t.provider }]
        } else {
            Seq::empty()
        })
    }
}

impl App {
    /// A transcript came. A blank one is dropped, and the result is `false` with
    /// nothing but the end of the processing state; any other goes to the clipboard
    /// and the history first, and then on to [`App::plan_injection`].
    pub fn deliver(&mut self, t: &Transcription) -> (r: (bool, Vec<Effect>))
        ensures
            r.0 == !text::is_blank(t.text@),
            r.1@ == delivery_effects(*old(self), *t),
            *final(self) == (if r.0 {
                *old(self)
            } else {
                App { tray_state: TrayState::Idle, anim_frame: 0, ..*old(self) }
            }),
    {
        if blank(t.text.as_str()) {
            return (false, self.set_tray_state(TrayState::Idle));
        }
        let mut r = one(Effect::SetTooltip(Tooltip::Ready));
        r.push(Effect::SetClipboard(t.text.clone()));
        if self.history_ready {
            r.push(Effect::Record { text: t.text.clone(), provider: t.provider.clone() });
        }
        assert(r@ =~= delivery_effects(*old(self), *t));
        (true, r)
    }

    /// The transcript could not be added to the history.
    pub fn record_failed(&self) -> (r: Vec<Effect>)
        ensures
            r@ == seq![Effect::SetTooltip(Tooltip::HistoryNotSaved)],
    {
        one(Effect::SetTooltip(Tooltip::HistoryNotSaved))
    }

    /// Decides how to bring a transcript to the cursor, by what the system allows
    /// now.
    pub fn plan_injection(&mut self, accessibility: bool, secure: bool) -> (r: InjectionPlan)
        ensures
            r == injection_plan(
                old(self).platform,
                crate::inject::mode_named(old(self).config.injection_mode@),
                accessibility,
                secure,
            ),
            ({
                let mode = crate::inject::mode_named(old(self).config.injection_mode@);
                match r {
                    InjectionPlan::FallBack => secure || (mode == InjectMode::Paste
                        && !accessibility),
                    InjectionPlan::Inject { mode: m, settle_ms } => {
                        &&& m == mode
                        &&& !secure
                        &&& m == InjectMode::Paste ==> accessibility
                        &&& settle_ms == 0 <==> m == InjectMode::Type
                    },
                }
            }),
            *final(self) == (App {
                accessibility_ok: accessibility,
                accessibility_warned: old(self).accessibility_warned || (!secure && r
                    == InjectionPlan::FallBack),
                ..*old(self)
            }),
    {
        let mode = InjectMode::from_config(self.config.injection_mode.as_str());
        self.accessibility_ok = accessibility;
        if secure {
            return InjectionPlan::FallBack;
        }
        match mode {
            InjectMode::Paste => {
                if !accessibility {
                    self.accessibility_warned = true;
                    return InjectionPlan::FallBack;
                }
                let settle_ms: u64 = match self.platform {
                    Platform::Windows => 100,
                    _ => 60,
                };
                InjectionPlan::Inject { mode, settle_ms }
            },
            InjectMode::Type => InjectionPlan::Inject { mode, settle_ms: 0 },
        }
    }

    /// Whether the means to simulate keys are to be set up now: they are not there,
    /// and the system allows it.
    pub fn wants_injector(&self) -> (r: bool)
        ensures
            r == (!self.injector_ready && self.accessibility_ok),
    {
        !self.injector_ready && self.accessibility_ok
    }

    /// Setting up the means to simulate keys went like this.
    pub fn injector_built(&mut self, built: bool)
        ensures
            *final(self) == (App {
                injector_ready: old(self).injector_ready || built,
                ..*old(self)
            }),
    {
        if built {
            self.injector_ready = true;
        }
    }

    /// Whether the clipboard toast is to be shown when text could only be copied.
    pub open spec fn toasts(self) -> bool {
        self.config.clipboard_toast && self.toast_ready
    }

    /// Says that the text is on the clipboard, for some seconds, unless the user
    /// does not want that.
    pub fn show_clipboard_toast(&mut self, now: u64) -> (r: Vec<Effect>)
        requires
            now <= LAST_TIME,
        ensures
            !old(self).toasts() ==> *final(self) == *old(self) && r@.len() == 0,
            old(self).toasts() ==> *final(self) == (App {
                toast_hide_at: Some((now + crate::toast::VISIBLE_SECS * SECOND) as u64),
                ..*old(self)
            }) && r@ == seq![Effect::ShowToast],
    {
        if !self.config.clipboard_toast || !self.toast_ready {
            return Vec::new();
        }
        self.toast_hide_at = Some(now + crate::toast::VISIBLE_SECS * SECOND);
        one(Effect::ShowToast)
    }

    /// The delivery is over. Unless the text reached the cursor, the user is told
    /// that it is on the clipboard.
    pub fn injected(&mut self, outcome: InjectionOutcome, now: u64) -> (r: Vec<Effect>)
        requires
            now <= LAST_TIME,
        ensures
            ({
                let toast = outcome != InjectionOutcome::Delivered && old(self).toasts();
                &&& r@ == (if toast {
                    seq![Effect::ShowToast]
                } else {
                    Seq::empty()
                }) + tray_effects(TrayState::Idle, old(self).overlay_ready)
                &&& *final(self) == (App {
                    tray_state: TrayState::Idle,
                    anim_frame: 0,
                    accessibility_warned: old(self).accessibility_warned || outcome
                        == InjectionOutcome::NoInjector,
                    toast_hide_at: if toast {
                        Some((now + crate::toast::VISIBLE_SECS * SECOND) as u64)
                    } else {
                        old(self).toast_hide_at
                    },
                    ..*old(self)
                })
            }),
    {
        let toast: Vec<Effect> = match outcome {
            InjectionOutcome::Delivered => Vec::new(),
            InjectionOutcome::NoInjector => {
                self.accessibility_warned = true;
                self.show_clipboard_toast(now)
            },
            _ => self.show_clipboard_toast(now),
        };
        let idle = self.set_tray_state(TrayState::Idle);
        concat(toast, idle)
    }

    /// A transcription failed. (One that worked goes to [`App::deliver`].)
    pub fn transcription_failed(&mut self, message: String) -> (r: Vec<Effect>)
        ensures
            *final(self) == (App { tray_state: TrayState::Idle, anim_frame: 0, ..*old(self) }),
            r@ == seq![Effect::SetTooltip(Tooltip::Failed(message))] + tray_effects(
                TrayState::Idle,
                old(self).overlay_ready,
            ),
    {
        let idle = self.set_tray_state(TrayState::Idle);
        concat(one(Effect::SetTooltip(Tooltip::Failed(message))), idle)
    }
}

// ---- Permissions -------------------------------------------------------------

/// An entry at the top of the tray menu that is there only when it is needed.
#[derive(Debug, Clone, Copy, PartialEq, Eq, Structural)]
pub enum GrantEntry {
    Accessibility,
    Microphone,
    Separator,
}

/// The entries at the top of the tray menu: one for each permission that is
/// missing, with a separator behind them.
pub open spec fn grant_block(accessibility_ok: bool, mic: MicStatus) -> Seq<GrantEntry> {
    let none = Seq::<GrantEntry>::empty();
    (if accessibility_ok {
        none
    } else {
        seq![GrantEntry::Accessibility]
    }) + (if mic == MicStatus::Granted {
        none
    } else {
        seq![GrantEntry::Microphone]
    }) + (if accessibility_ok && mic == MicStatus::Granted {
        none
    } else {
        seq![GrantEntry::Separator]
    })
}

impl App {
    /// The entries that belong at the top of the tray menu now.
    pub fn rebuild_grant_block(&self) -> (r: Vec<GrantEntry>)
        ensures
            r@ == grant_block(self.accessibility_ok, self.last_mic_status),
    {
        let mut r: Vec<GrantEntry> = Vec::new();
        if !self.accessibility_ok {
            r.push(GrantEntry::Accessibility);
        }
        match self.last_mic_status {
            MicStatus::Granted => {},
            _ => {
                r.push(GrantEntry::Microphone);
            },
        }
        if r.len() > 0 {
            r.push(GrantEntry::Separator);
        }
        assert(r@ =~= grant_block(self.accessibility_ok, self.last_mic_status));
        r
    }

    /// What the system allows was looked at. Where it changed, the tray menu and
    /// the settings window follow.
    pub fn refresh_permissions(&mut self, granted: bool, mic: MicStatus, now: u64) -> (r: Vec<
        Effect,
    >)
        ensures
            ({
                let changed = granted != old(self).accessibility_ok || mic
                    != old(self).last_mic_status;
                &&& r@ == (if changed {
                    seq![Effect::UpdateGrantBlock]
                } else {
                    Seq::empty()
                })
                &&& *final(self) == (App {
                    last_ax_check: now,
                    accessibility_ok: granted,
                    accessibility_warned: old(self).accessibility_warned && granted
                        == old(self).accessibility_ok,
                    last_mic_status: mic,
                    settings: match old(self).settings {
                        Some(w) => if changed {
                            Some(UiState { ax_granted: granted, mic_status: mic, ..w })
                        } else {
                            Some(w)
                        },
                        None => None,
                    },
                    ..*old(self)
                })
            }),
    {
        self.last_ax_check = now;
        let mut changed = false;
        if granted != self.accessibility_ok {
            changed = true;
            self.accessibility_ok = granted;
            self.accessibility_warned = false;
        }
        if mic != self.last_mic_status {
            changed = true;
            self.last_mic_status = mic;
        }
        if changed {
            match &mut self.settings {
                Some(w) => {
                    w.refresh_permissions(granted, mic);
                },
                None => {},
            }
            one(Effect::UpdateGrantBlock)
        } else {
            Vec::new()
        }
    }
}

// ---- Reading aloud -----------------------------------------------------------

/// How a status shows on the popup: the phase, whether Stop can be used, and for
/// how many seconds the popup stays, if it does not stay on.
pub open spec fn popup_for(status: SpeechStatus) -> (PopupPhase, bool, Option<u64>) {
    match status {
        SpeechStatus::Triggered => (PopupPhase::Triggered, true, None),
        SpeechStatus::Generating => (PopupPhase::Generating, true, None),
        SpeechStatus::Speaking => (PopupPhase::Speaking, true, None),
        SpeechStatus::Finished => (
            PopupPhase::Finished,
            false,
            Some(crate::status_popup::DONE_DWELL_SECS),
        ),
        SpeechStatus::Stopped => (
            PopupPhase::Stopped,
            false,
            Some(crate::status_popup::DONE_DWELL_SECS),
        ),
        SpeechStatus::Error(_) => (
            PopupPhase::Error,
            false,
            Some(crate::status_popup::ERROR_DWELL_SECS),
        ),
    }
}

/// How a status shows on the popup.
fn popup_plan(status: &SpeechStatus) -> (r: (PopupPhase, bool, Option<u64>))
    ensures
        r == popup_for(*status),
{
    match status {
        SpeechStatus::Triggered => (PopupPhase::Triggered, true, None),
        SpeechStatus::Generating => (PopupPhase::Generating, true, None),
        SpeechStatus::Speaking => (PopupPhase::Speaking, true, None),
        SpeechStatus::Finished => (
            PopupPhase::Finished,
            false,
            Some(crate::status_popup::DONE_DWELL_SECS),
        ),
        SpeechStatus::Stopped => (
            PopupPhase::Stopped,
            false,
            Some(crate::status_popup::DONE_DWELL_SECS),
        ),
        SpeechStatus::Error(_) => (
            PopupPhase::Error,
            false,
            Some(crate::status_popup::ERROR_DWELL_SECS),
        ),
    }
}

/// The popup in another phase.
pub open spec fn popup_shown(
    popup: StatusPopup,
    phase: PopupPhase,
    can_replay: bool,
    can_stop: bool,
) -> StatusPopup {
    let next = StatusPopup {
        phase,
        can_replay,
        can_stop,
        visible: true,
        frame: if popup.visible {
            popup.frame
        } else {
            0
        },
        ..popup
    };
    StatusPopup { hover: next.hovered(), ..next }
}

/// The popup after one frame of its animation.
pub open spec fn popup_ticked(popup: StatusPopup, timer: bool) -> StatusPopup {
    if timer && popup.visible && crate::status_popup::phase_animates(popup.phase) {
        StatusPopup {
            frame: ((popup.frame + 1) % (crate::icons::FRAMES as int)) as usize,
            ..popup
        }
    } else {
        popup
    }
}

/// The popup once it was taken off the screen.
pub open spec fn popup_gone(popup: StatusPopup) -> StatusPopup {
    StatusPopup { visible: false, inside: false, under: None, hover: None, ..popup }
}

/// Whether the popup pulses.
pub open spec fn popup_animates(popup: Option<StatusPopup>) -> bool {
    popup matches Some(p) && p.visible && crate::status_popup::phase_animates(p.phase)
}

/// The read-aloud popup, and when it goes away.
#[derive(Debug, Clone, Copy, PartialEq, Eq)]
pub struct PopupHost {
    /// The popup, if its window could be made.
    pub popup: Option<StatusPopup>,
    pub hide_at: Option<u64>,
}

impl PopupHost {
    /// The popup is as it should be.
    pub open spec fn wf(self) -> bool {
        self.popup matches Some(p) ==> p.wf()
    }

    /// This popup once a status is shown on it.
    pub open spec fn showing(self, status: SpeechStatus, can_replay: bool, now: u64) -> PopupHost {
        let shown = popup_for(status);
        PopupHost {
            popup: match self.popup {
                Some(p) => Some(popup_shown(p, shown.0, can_replay, shown.1)),
                None => None,
            },
            hide_at: match shown.2 {
                Some(secs) => Some((now + secs * SECOND) as u64),
                None => None,
            },
        }
    }

    /// What showing a status takes.
    pub open spec fn showing_effects(self) -> Seq<Effect> {
        match self.popup {
            Some(p) => if p.visible {
                seq![Effect::DrawPopup]
            } else {
                seq![Effect::RevealPopup]
            },
            None => Seq::empty(),
        }
    }

    fn show(&mut self, status: &SpeechStatus, can_replay: bool, now: u64) -> (r: Vec<Effect>)
        requires
            old(self).wf(),
            now <= LAST_TIME,
        ensures
            final(self).wf(),
            *final(self) == old(self).showing(*status, can_replay, now),
            r@ == old(self).showing_effects(),
    {
        let (phase, can_stop, dwell) = popup_plan(status);
        let mut r: Vec<Effect> = Vec::new();
        match self.popup {
            Some(p) => {
                let mut p2 = p;
                let reveal = p2.show(phase, can_replay, can_stop);
                self.popup = Some(p2);
                if reveal {
                    r.push(Effect::RevealPopup);
                } else {
                    r.push(Effect::DrawPopup);
                }
            },
            None => {},
        }
        self.hide_at = match dwell {
            Some(secs) => Some(now + secs * SECOND),
            None => None,
        };
        assert(r@ =~= old(self).showing_effects());
        r
    }

    /// This popup once the loop woke.
    pub open spec fn awoken(self, timer: bool, now: u64) -> PopupHost {
        PopupHost {
            popup: match self.popup {
                Some(p) => Some(
                    if is_due(self.hide_at, now) {
                        popup_gone(popup_ticked(p, timer))
                    } else {
                        popup_ticked(p, timer)
                    },
                ),
                None => None,
            },
            hide_at: still_ahead(self.hide_at, now),
        }
    }

    /// What waking up takes.
    pub open spec fn waking_effects(self, timer: bool, now: u64) -> Seq<Effect> {
        (if timer && popup_animates(self.popup) {
            seq![Effect::DrawPopup]
        } else {
            Seq::empty()
        }) + (if is_due(self.hide_at, now) && self.popup is Some {
            seq![Effect::HidePopup]
        } else {
            Seq::empty()
        })
    }

    fn wake(&mut self, timer: bool, now: u64) -> (r: Vec<Effect>)
        requires
            old(self).wf(),
        ensures
            final(self).wf(),
            *final(self) == old(self).awoken(timer, now),
            r@ == old(self).waking_effects(timer, now),
    {
        let mut r: Vec<Effect> = Vec::new();
        let gone = due(self.hide_at, now);
        match self.popup {
            Some(p) => {
                let mut p2 = p;
                if timer && p2.tick() {
                    r.push(Effect::DrawPopup);
                }
                if gone {
                    p2.dismiss();
                    r.push(Effect::HidePopup);
                }
                self.popup = Some(p2);
            },
            None => {},
        }
        if gone {
            self.hide_at = None;
        }
        assert(r@ =~= old(self).waking_effects(timer, now));
        r
    }
}

impl App {
    /// This application once a read-aloud status is shown.
    pub open spec fn with_status(self, status: SpeechStatus, now: u64) -> App {
        App { reader: self.reader.showing(status, self.last_spoken is Some, now), ..self }
    }

    /// What showing a read-aloud status takes.
    pub open spec fn status_effects(self) -> Seq<Effect> {
        self.reader.showing_effects()
    }

    /// A read-aloud has come further, or ended.
    pub fn on_speech_status(&mut self, status: &SpeechStatus, now: u64) -> (r: Vec<Effect>)
        requires
            old(self).wf(),
            now <= LAST_TIME,
        ensures
            final(self).wf(),
            *final(self) == old(self).with_status(*status, now),
            r@ == old(self).status_effects(),
    {
        let can_replay = self.last_spoken.is_some();
        self.reader.show(status, can_replay, now)
    }

    /// Whether a text can be read aloud: on macOS that takes a voice.
    pub open spec fn can_speak(self) -> bool {
        self.platform == Platform::MacOs ==> self.voice_ready
    }

    /// Whether `after` and `effects` are what beginning to read `text` comes to.
    pub open spec fn spoke(self, after: App, effects: Seq<Effect>, text: String, now: u64) -> bool {
        let remembering = App { last_spoken: Some(text), ..self };
        if text::is_blank(text@) {
            after == self && effects.len() == 0
        } else if !self.can_speak() {
            after == remembering && effects.len() == 0
        } else if self.platform == Platform::MacOs {
            after == (App {
                speech_started: true,
                ..remembering.with_status(SpeechStatus::Triggered, now)
            }) && effects == self.status_effects().push(Effect::SpeakWithVoice(text))
        } else {
            after == remembering.with_status(SpeechStatus::Triggered, now) && effects
                == self.status_effects().push(Effect::SpeakWithSystem(text))
        }
    }

    /// Whether `after` and `effects` are what stopping a read-aloud comes to.
    pub open spec fn stopped(self, after: App, effects: Seq<Effect>, now: u64) -> bool {
        let shown = self.with_status(SpeechStatus::Stopped, now);
        if self.platform != Platform::MacOs {
            after == shown && effects == seq![Effect::StopSystem] + self.status_effects()
        } else if self.speech_started {
            after == shown && effects == seq![Effect::StopSpeech] + self.status_effects()
        } else {
            after == self && effects == (if self.voice_ready {
                seq![Effect::StopVoice]
            } else {
                Seq::empty()
            })
        }
    }

    /// Begins to read a text aloud. It is remembered, so that it can be read again.
    /// Blank text is not read.
    pub fn start_speaking(&mut self, text: String, now: u64) -> (r: Vec<Effect>)
        requires
            old(self).wf(),
            now <= LAST_TIME,
        ensures
            final(self).wf(),
            old(self).spoke(*final(self), r@, text, now),
    {
        if blank(text.as_str()) {
            return Vec::new();
        }
        self.last_spoken = Some(text.clone());
        match self.platform {
            Platform::MacOs => {
                if !self.voice_ready {
                    return Vec::new();
                }
                let mut r = self.on_speech_status(&SpeechStatus::Triggered, now);
                self.speech_started = true;
                r.push(Effect::SpeakWithVoice(text));
                r
            },
            _ => {
                let mut r = self.on_speech_status(&SpeechStatus::Triggered, now);
                r.push(Effect::SpeakWithSystem(text));
                r
            },
        }
    }

    /// The system's engine took a text, or refused it.
    pub fn system_spoke(&mut self, res: Result<(), String>, now: u64) -> (r: Vec<Effect>)
        requires
            old(self).wf(),
            now <= LAST_TIME,
        ensures
            final(self).wf(),
            *final(self) == old(self).with_status(
                match res {
                    Ok(_) => SpeechStatus::Speaking,
                    Err(e) => SpeechStatus::Error(e),
                },
                now,
            ),
            r@ == old(self).status_effects(),
    {
        match res {
            Ok(_) => self.on_speech_status(&SpeechStatus::Speaking, now),
            Err(e) => self.on_speech_status(&SpeechStatus::Error(e), now),
        }
    }

    /// The selection was captured, if there was one: it is read aloud.
    pub fn selection_captured(&mut self, selection: Option<String>, now: u64) -> (r: Vec<Effect>)
        requires
            old(self).wf(),
            now <= LAST_TIME,
        ensures
            final(self).wf(),
            selection is None ==> *final(self) == *old(self) && r@.len() == 0,
            selection matches Some(t) ==> old(self).spoke(*final(self), r@, t, now),
    {
        match selection {
            Some(t) => self.start_speaking(t, now),
            None => Vec::new(),
        }
    }

    /// Reads what is on the clipboard aloud.
    pub fn read_clipboard_aloud(&mut self, clipboard: Option<String>, now: u64) -> (r: Vec<Effect>)
        requires
            old(self).wf(),
            now <= LAST_TIME,
        ensures
            final(self).wf(),
            clipboard is None ==> *final(self) == *old(self) && r@.len() == 0,
            clipboard matches Some(t) ==> old(self).spoke(*final(self), r@, t, now),
    {
        match clipboard {
            Some(t) => self.start_speaking(t, now),
            None => Vec::new(),
        }
    }

    /// Reads once more what was last read aloud.
    pub fn replay_last(&mut self, now: u64) -> (r: Vec<Effect>)
        requires
            old(self).wf(),
            now <= LAST_TIME,
        ensures
            final(self).wf(),
            old(self).last_spoken is None ==> *final(self) == *old(self) && r@.len() == 0,
            old(self).last_spoken matches Some(t) ==> old(self).spoke(*final(self), r@, t, now),
    {
        match self.last_spoken.clone() {
            Some(t) => self.start_speaking(t, now),
            None => Vec::new(),
        }
    }

    /// Stops reading aloud. Where the worker was never started, only the voice has
    /// to be stopped, and nothing is shown.
    pub fn stop_read_aloud(&mut self, now: u64) -> (r: Vec<Effect>)
        requires
            old(self).wf(),
            now <= LAST_TIME,
        ensures
            final(self).wf(),
            old(self).stopped(*final(self), r@, now),
    {
        match self.platform {
            Platform::MacOs => {
                if self.speech_started {
                    let shown = self.on_speech_status(&SpeechStatus::Stopped, now);
                    concat(one(Effect::StopSpeech), shown)
                } else if self.voice_ready {
                    one(Effect::StopVoice)
                } else {
                    Vec::new()
                }
            },
            _ => {
                let shown = self.on_speech_status(&SpeechStatus::Stopped, now);
                concat(one(Effect::StopSystem), shown)
            },
        }
    }

    /// The pointer moved on the popup, onto this button or none.
    pub fn popup_moved(&mut self, under: Option<Button>) -> (r: Vec<Effect>)
        requires
            old(self).wf(),
        ensures
            final(self).wf(),
            match old(self).reader.popup {
                None => *final(self) == *old(self) && r@.len() == 0,
                Some(p) => {
                    let next = StatusPopup { inside: true, under, ..p };
                    let hovered = StatusPopup { hover: next.hovered(), ..next };
                    &&& *final(self) == (App {
                        reader: PopupHost { popup: Some(hovered), ..old(self).reader },
                        ..*old(self)
                    })
                    &&& r@ == (if hovered.hover != p.hover {
                        seq![Effect::DrawPopup]
                    } else {
                        Seq::empty()
                    })
                },
            },
    {
        let mut r: Vec<Effect> = Vec::new();
        match self.reader.popup {
            Some(p) => {
                let mut p2 = p;
                if p2.on_cursor_moved(under) {
                    r.push(Effect::DrawPopup);
                }
                self.reader.popup = Some(p2);
                assert(p2.hover != p.hover ==> r@ =~= seq![Effect::DrawPopup]);
            },
            None => {},
        }
        r
    }

    /// The pointer left the popup.
    pub fn popup_left(&mut self) -> (r: Vec<Effect>)
        requires
            old(self).wf(),
        ensures
            final(self).wf(),
            match old(self).reader.popup {
                None => *final(self) == *old(self) && r@.len() == 0,
                Some(p) => {
                    let left = StatusPopup { inside: false, under: None, hover: None, ..p };
                    &&& *final(self) == (App {
                        reader: PopupHost { popup: Some(left), ..old(self).reader },
                        ..*old(self)
                    })
                    &&& r@ == (if p.inside || p.hover is Some {
                        seq![Effect::DrawPopup]
                    } else {
                        Seq::empty()
                    })
                },
            },
    {
        let mut r: Vec<Effect> = Vec::new();
        match self.reader.popup {
            Some(p) => {
                let mut p2 = p;
                if p2.on_cursor_left() {
                    r.push(Effect::DrawPopup);
                    assert(r@ =~= seq![Effect::DrawPopup]);
                }
                self.reader.popup = Some(p2);
            },
            None => {},
        }
        r
    }

    /// The popup was clicked.
    pub fn popup_clicked(&mut self, now: u64) -> (r: Vec<Effect>)
        requires
            old(self).wf(),
            now <= LAST_TIME,
        ensures
            final(self).wf(),
            ({
                let button = match old(self).reader.popup {
                    Some(p) => p.hovered(),
                    None => None,
                };
                match button {
                    None => *final(self) == *old(self) && r@.len() == 0,
                    Some(Button::Replay) => match old(self).last_spoken {
                        Some(t) => old(self).spoke(*final(self), r@, t, now),
                        None => *final(self) == *old(self) && r@.len() == 0,
                    },
                    Some(Button::Stop) => old(self).stopped(*final(self), r@, now),
                }
            }),
    {
        let action = match &self.reader.popup {
            Some(p) => p.on_click(),
            None => None,
        };
        match action {
            Some(PopupAction::Replay) => self.replay_last(now),
            Some(PopupAction::Stop) => self.stop_read_aloud(now),
            None => Vec::new(),
        }
    }
}

// ---- Time --------------------------------------------------------------------

/// The earlier of two times, where there are two.
pub open spec fn earlier(a: Option<u64>, b: Option<u64>) -> Option<u64> {
    match (a, b) {
        (Some(x), Some(y)) => Some(
            if x <= y {
                x
            } else {
                y
            },
        ),
        (Some(x), None) => Some(x),
        (None, y) => y,
    }
}

fn earlier_of(a: Option<u64>, b: Option<u64>) -> (r: Option<u64>)
    ensures
        r == earlier(a, b),
{
    match a {
        Some(x) => match b {
            Some(y) => if x <= y {
                Some(x)
            } else {
                Some(y)
            },
            None => Some(x),
        },
        None => b,
    }
}

/// Whether a deadline has come.
pub open spec fn is_due(at: Option<u64>, now: u64) -> bool {
    at matches Some(t) && t <= now
}

fn due(at: Option<u64>, now: u64) -> (r: bool)
    ensures
        r == is_due(at, now),
{
    match at {
        Some(t) => t <= now,
        None => false,
    }
}

/// A deadline once it was looked at: gone if it has come.
pub open spec fn still_ahead(at: Option<u64>, now: u64) -> Option<u64> {
    if is_due(at, now) {
        None
    } else {
        at
    }
}

/// The recording pill's phase in a tray state.
pub open spec fn overlay_phase(state: TrayState) -> Option<Phase> {
    match state {
        TrayState::Idle => None,
        TrayState::Recording => Some(Phase::Recording),
        TrayState::Processing => Some(Phase::Processing),
    }
}

impl App {
    /// The frame of the tray icon once the loop woke.
    pub open spec fn next_anim_frame(self, timer: bool) -> usize {
        if timer && self.tray_state != TrayState::Idle {
            ((self.anim_frame + 1) % (crate::icons::FRAMES as int)) as usize
        } else {
            self.anim_frame
        }
    }

    /// This application once the loop woke: `timer` says whether it was woken by a
    /// deadline.
    pub open spec fn awoken(self, timer: bool, now: u64) -> App {
        App {
            anim_frame: self.next_anim_frame(timer),
            settings_repaint_at: if self.settings is Some {
                still_ahead(self.settings_repaint_at, now)
            } else {
                self.settings_repaint_at
            },
            toast_hide_at: still_ahead(self.toast_hide_at, now),
            reader: self.reader.awoken(timer, now),
            ..self
        }
    }

    /// The frame to draw of the tray icon and of the recording pill, if any.
    pub open spec fn frame_effects(self, timer: bool) -> Seq<Effect> {
        let frame = self.next_anim_frame(timer);
        match overlay_phase(self.tray_state) {
            Some(phase) => if !timer {
                Seq::empty()
            } else if self.overlay_ready {
                seq![
                    Effect::DrawTray { state: self.tray_state, frame },
                    Effect::DrawOverlay { phase, frame },
                ]
            } else {
                seq![Effect::DrawTray { state: self.tray_state, frame }]
            },
            None => Seq::empty(),
        }
    }

    /// What has come due of the settings window and the toast.
    pub open spec fn due_effects(self, now: u64) -> Seq<Effect> {
        (if self.settings is Some && is_due(self.settings_repaint_at, now) {
            seq![Effect::DrawSettings]
        } else {
            Seq::empty()
        }) + (if is_due(self.toast_hide_at, now) && self.toast_ready {
            seq![Effect::HideToast]
        } else {
            Seq::empty()
        })
    }

    /// What waking up takes: a frame of each animation that runs, and whatever has
    /// come due.
    pub open spec fn waking_effects(self, timer: bool, now: u64) -> Seq<Effect> {
        self.frame_effects(timer) + self.due_effects(now) + self.reader.waking_effects(timer, now)
    }

    /// Whether it is time to look at what the system allows.
    pub open spec fn should_poll(self, now: u64) -> bool {
        self.hotkeys_ready && now - self.last_ax_check >= AX_POLL_INTERVAL
    }

    fn draw_frame(&mut self, timer: bool) -> (r: Vec<Effect>)
        ensures
            *final(self) == (App { anim_frame: old(self).next_anim_frame(timer), ..*old(self) }),
            r@ == old(self).frame_effects(timer),
    {
        if !timer {
            return Vec::new();
        }
        let phase: Phase = match self.tray_state {
            TrayState::Idle => {
                return Vec::new();
            },
            TrayState::Recording => Phase::Recording,
            TrayState::Processing => Phase::Processing,
        };
        self.anim_frame = next_frame(self.anim_frame);
        let frame: usize = self.anim_frame;
        let mut r = one(Effect::DrawTray { state: self.tray_state, frame });
        if self.overlay_ready {
            r.push(Effect::DrawOverlay { phase, frame });
        }
        assert(r@ =~= old(self).frame_effects(timer));
        r
    }

    fn settle_due(&mut self, now: u64) -> (r: Vec<Effect>)
        ensures
            *final(self) == (App {
                settings_repaint_at: old(self).awoken(false, now).settings_repaint_at,
                toast_hide_at: still_ahead(old(self).toast_hide_at, now),
                ..*old(self)
            }),
            r@ == old(self).due_effects(now),
    {
        let mut r: Vec<Effect> = Vec::new();
        if self.settings.is_some() && due(self.settings_repaint_at, now) {
            self.settings_repaint_at = None;
            r.push(Effect::DrawSettings);
        }
        if due(self.toast_hide_at, now) {
            self.toast_hide_at = None;
            if self.toast_ready {
                r.push(Effect::HideToast);
            }
        }
        assert(r@ =~= old(self).due_effects(now));
        r
    }

    /// The loop woke. The result is what to do, and whether it is time to look at
    /// what the system allows (see [`App::refresh_permissions`]).
    pub fn new_events(&mut self, timer: bool, now: u64) -> (r: (Vec<Effect>, bool))
        requires
            old(self).wf(),
            old(self).last_ax_check <= now,
        ensures
            final(self).wf(),
            *final(self) == old(self).awoken(timer, now),
            r.0@ == old(self).waking_effects(timer, now),
            r.1 == old(self).should_poll(now),
    {
        let frames = self.draw_frame(timer);
        let came_due = self.settle_due(now);
        let popup = self.reader.wake(timer, now);
        let poll = self.hotkeys_ready && now - self.last_ax_check >= AX_POLL_INTERVAL;
        (concat(concat(frames, came_due), popup), poll)
    }

    /// When the loop has to wake at the latest, if at all.
    pub open spec fn wake_time(self, now: u64) -> Option<u64> {
        let frame = Some((now + FRAME_INTERVAL) as u64);
        let tray = if self.tray_state != TrayState::Idle {
            frame
        } else {
            None
        };
        let popup = if popup_animates(self.reader.popup) {
            frame
        } else {
            None
        };
        let poll = if self.platform == Platform::MacOs && self.hotkeys_ready {
            Some((now + AX_POLL_INTERVAL) as u64)
        } else {
            None
        };
        earlier(
            earlier(
                earlier(
                    earlier(earlier(tray, self.settings_repaint_at), self.toast_hide_at),
                    self.reader.hide_at,
                ),
                popup,
            ),
            poll,
        )
    }

    /// When the loop has to wake at the latest; `None` if only an event can wake it.
    pub fn about_to_wait(&self, now: u64) -> (r: Option<u64>)
        requires
            now <= LAST_TIME,
        ensures
            r == self.wake_time(now),
    {
        let frame: Option<u64> = Some(now + FRAME_INTERVAL);
        let tray: Option<u64> = match self.tray_state {
            TrayState::Idle => None,
            _ => frame,
        };
        let animating = match &self.reader.popup {
            Some(p) => p.is_animating(),
            None => false,
        };
        let popup: Option<u64> = if animating {
            frame
        } else {
            None
        };
        let on_macos = match self.platform {
            Platform::MacOs => true,
            _ => false,
        };
        let poll: Option<u64> = if on_macos && self.hotkeys_ready {
            Some(now + AX_POLL_INTERVAL)
        } else {
            None
        };
        let mut wake = earlier_of(tray, self.settings_repaint_at);
        wake = earlier_of(wake, self.toast_hide_at);
        wake = earlier_of(wake, self.reader.hide_at);
        wake = earlier_of(wake, popup);
        earlier_of(wake, poll)
    }

    /// The settings window asks to be redrawn after a delay. The earliest request
    /// counts; one that lies beyond all time is none.
    pub fn settings_repaint(&mut self, delay: u64, now: u64) -> (r: Vec<Effect>)
        ensures
            ({
                let at = if now + delay <= u64::MAX {
                    Some((now + delay) as u64)
                } else {
                    None
                };
                &&& *final(self) == (App {
                    settings_repaint_at: if old(self).settings is Some && delay > 0 {
                        earlier(old(self).settings_repaint_at, at)
                    } else {
                        old(self).settings_repaint_at
                    },
                    ..*old(self)
                })
                &&& r@ == (if old(self).settings is Some && delay == 0 {
                    seq![Effect::DrawSettings]
                } else {
                    Seq::empty()
                })
            }),
    {
        if self.settings.is_none() {
            return Vec::new();
        }
        if delay == 0 {
            return one(Effect::DrawSettings);
        }
        match now.checked_add(delay) {
            Some(at) => {
                self.settings_repaint_at = earlier_of(self.settings_repaint_at, Some(at));
            },
            None => {},
        }
        Vec::new()
    }
}

// ---- Changing a hotkey ---------------------------------------------------------

/// A hotkey that is to replace another.
#[derive(Debug, PartialEq, Eq)]
pub struct KeyChange {
    pub hotkey: HotKey,
    pub label: String,
    /// Whether the hotkey has to be registered: it is not the one in use.
    pub register: bool,
    /// The hotkey to give up once the new one is registered.
    pub retire: Option<HotKey>,
}

/// What is said when no hotkey can be registered on this system.
pub const NO_HOTKEYS: &'static str = "global hotkeys are unavailable on this system";

/// What is said when the push-to-talk key is changed while it is held.
pub const RELEASE_FIRST: &'static str = "release the push-to-talk key first";

/// What is said when a hotkey cannot be registered.
pub open spec fn taken_text(label: Seq<char>, error: Seq<char>) -> Seq<char> {
    "could not register "@ + label + " \u{2014} is it taken by another app? ("@ + error + ")"@
}

/// What is said when a hotkey is in use, but the settings could not be saved.
pub open spec fn unsaved_text(error: Seq<char>) -> Seq<char> {
    "hotkey is active, but saving config failed: "@ + error
}

fn taken(label: &str, error: &str) -> (r: String)
    ensures
        r@ == taken_text(label@, error@),
{
    let mut m = prefixed("could not register ", label);
    m.append(" \u{2014} is it taken by another app? (");
    m.append(error);
    m.append(")");
    m
}

/// Whether `change` replaces the hotkey `current` by a combination that came to
/// `combo`; `retired` is what the combination in the settings came to.
pub open spec fn is_change(
    change: KeyChange,
    combo: ((crate::ptt::Modifiers, Seq<char>, u32), Seq<char>),
    current: Option<u32>,
) -> bool {
    &&& crate::ptt::hotkey_model(change.hotkey) == combo.0
    &&& change.label@ == combo.1
    &&& change.register == (current != Some(change.hotkey.id))
    &&& change.retire is Some ==> change.register && current is Some
}

impl HotkeyState {
    /// The read-aloud hotkey that is registered.
    pub open spec fn tts_id(self, which: TtsHotkey) -> Option<u32> {
        match which {
            TtsHotkey::ReadSelection => self.tts_read_hotkey_id,
            TtsHotkey::ReadClipboard => self.tts_read_clipboard_hotkey_id,
            TtsHotkey::Stop => self.tts_stop_hotkey_id,
        }
    }

    /// These hotkeys with another read-aloud one.
    pub open spec fn with_tts(self, which: TtsHotkey, id: Option<u32>) -> HotkeyState {
        match which {
            TtsHotkey::ReadSelection => HotkeyState { tts_read_hotkey_id: id, ..self },
            TtsHotkey::ReadClipboard => HotkeyState { tts_read_clipboard_hotkey_id: id, ..self },
            TtsHotkey::Stop => HotkeyState { tts_stop_hotkey_id: id, ..self },
        }
    }

    fn set_tts(&mut self, which: TtsHotkey, id: Option<u32>)
        ensures
            *final(self) == old(self).with_tts(which, id),
    {
        match which {
            TtsHotkey::ReadSelection => {
                self.tts_read_hotkey_id = id;
            },
            TtsHotkey::ReadClipboard => {
                self.tts_read_clipboard_hotkey_id = id;
            },
            TtsHotkey::Stop => {
                self.tts_stop_hotkey_id = id;
            },
        }
    }
}

/// The read-aloud combination in the settings.
pub open spec fn combo_for(config: Config, which: TtsHotkey) -> String {
    match which {
        TtsHotkey::ReadSelection => config.tts_read_hotkey,
        TtsHotkey::ReadClipboard => config.tts_read_clipboard_hotkey,
        TtsHotkey::Stop => config.tts_stop_hotkey,
    }
}

/// The settings with another read-aloud combination.
pub open spec fn with_combo(config: Config, which: TtsHotkey, combo: String) -> Config {
    match which {
        TtsHotkey::ReadSelection => Config { tts_read_hotkey: combo, ..config },
        TtsHotkey::ReadClipboard => Config { tts_read_clipboard_hotkey: combo, ..config },
        TtsHotkey::Stop => Config { tts_stop_hotkey: combo, ..config },
    }
}

fn set_combo(config: &mut Config, which: TtsHotkey, combo: String)
    ensures
        *final(config) == with_combo(*old(config), which, combo),
{
    match which {
        TtsHotkey::ReadSelection => {
            config.tts_read_hotkey = combo;
        },
        TtsHotkey::ReadClipboard => {
            config.tts_read_clipboard_hotkey = combo;
        },
        TtsHotkey::Stop => {
            config.tts_stop_hotkey = combo;
        },
    }
}

impl App {
    /// What a change of the push-to-talk key comes to, once the combination was
    /// tried.
    pub open spec fn ptt_planned(
        self,
        r: Result<KeyChange, String>,
        tried: Result<((crate::ptt::Modifiers, Seq<char>, u32), Seq<char>), Seq<char>>,
    ) -> bool {
        if self.keys.ptt_held {
            r matches Err(m) && m@ == RELEASE_FIRST@
        } else if !self.hotkeys_ready {
            r matches Err(m) && m@ == NO_HOTKEYS@
        } else {
            match tried {
                Err(e) => r matches Err(m) && m@ == e,
                Ok(combo) => {
                    &&& r matches Ok(c)
                    &&& is_change(c, combo, self.keys.ptt_hotkey_id)
                    &&& c.register && self.keys.ptt_hotkey_id is Some ==> c.retire is Some
                    &&& c.retire matches Some(old_key) ==> crate::ptt::is_read_as(
                        self.config.ptt_key@,
                        crate::ptt::hotkey_model(old_key),
                    )
                },
            }
        }
    }

    /// What a change of the push-to-talk key comes to, once the combination was
    /// tried.
    pub fn plan_ptt_key(&self, parsed: Result<(HotKey, String), String>) -> (r: Result<
        KeyChange,
        String,
    >)
        ensures
            self.ptt_planned(r, crate::ptt::labelled_outcome(parsed)),
    {
        if self.keys.ptt_held {
            return Err(RELEASE_FIRST.to_owned());
        }
        if !self.hotkeys_ready {
            return Err(NO_HOTKEYS.to_owned());
        }
        match parsed {
            Err(e) => Err(e),
            Ok((hotkey, label)) => {
                let register = !is_id(self.keys.ptt_hotkey_id, hotkey.id);
                let retire: Option<HotKey> = if register && self.keys.ptt_hotkey_id.is_some() {
                    let (old_key, old_label) = parse_ptt_key(self.config.ptt_key.as_str());
                    assert(crate::ptt::is_read(
                        self.config.ptt_key@,
                        (crate::ptt::hotkey_model(old_key), old_label@),
                    ));
                    assert(crate::ptt::is_read_as(
                        self.config.ptt_key@,
                        crate::ptt::hotkey_model(old_key),
                    ));
                    Some(old_key)
                } else {
                    None
                };
                Ok(KeyChange { hotkey, label, register, retire })
            },
        }
    }

    /// Begins to change the push-to-talk key. The hotkey in use is given up only
    /// once the new one is registered. Report with [`App::ptt_registered`].
    pub fn apply_ptt_key(&self, raw: &str) -> (r: Result<KeyChange, String>)
        ensures
            exists|tried|
                #![trigger crate::ptt::is_tried(raw@, tried)]
                crate::ptt::is_tried(raw@, tried) && self.ptt_planned(r, tried),
    {
        let parsed = try_parse_ptt_key(raw);
        let ghost tried = crate::ptt::labelled_outcome(parsed);
        let r = self.plan_ptt_key(parsed);
        assert(crate::ptt::is_tried(raw@, tried) && self.ptt_planned(r, tried));
        r
    }

    /// The new push-to-talk key was registered, if that was needed, or could not
    /// be. In the first case the settings are to be saved; report with
    /// [`App::ptt_saved`]. In the second nothing has changed.
    pub fn ptt_registered(
        &mut self,
        raw: String,
        change: KeyChange,
        registered: Result<(), String>,
    ) -> (r: Result<(), String>)
        ensures
            change.register && registered is Err ==> *final(self) == *old(self) && (r matches Err(
                m,
            ) && registered matches Err(e) && m@ == taken_text(change.label@, e@)),
            !(change.register && registered is Err) ==> r is Ok && *final(self) == (App {
                keys: HotkeyState {
                    ptt_hotkey_id: if change.register {
                        Some(change.hotkey.id)
                    } else {
                        old(self).keys.ptt_hotkey_id
                    },
                    ..old(self).keys
                },
                ptt_label: change.label,
                config: Config { ptt_key: raw, ..old(self).config },
                ..*old(self)
            }),
    {
        if change.register {
            match registered {
                Err(e) => {
                    return Err(taken(change.label.as_str(), e.as_str()));
                },
                Ok(_) => {
                    self.keys.ptt_hotkey_id = Some(change.hotkey.id);
                },
            }
        }
        self.ptt_label = change.label;
        self.config.ptt_key = raw;
        Ok(())
    }

    /// The settings with the new push-to-talk key were saved, or could not be. The
    /// result is its label, or what is said.
    pub fn ptt_saved(&self, saved: Result<(), String>) -> (r: (Result<String, String>, Vec<Effect>))
        ensures
            match saved {
                Ok(_) => r.0 == Ok::<String, String>(self.ptt_label) && r.1@ == seq![
                    Effect::SetTooltip(Tooltip::Ready),
                ],
                Err(e) => (r.0 matches Err(m) && m@ == unsaved_text(e@)) && r.1@.len() == 0,
            },
    {
        match saved {
            Ok(_) => (Ok(self.ptt_label.clone()), one(Effect::SetTooltip(Tooltip::Ready))),
            Err(e) => (
                Err(prefixed("hotkey is active, but saving config failed: ", e.as_str())),
                Vec::new(),
            ),
        }
    }

    /// The read-aloud hotkey that is registered.
    pub open spec fn tts_id(self, which: TtsHotkey) -> Option<u32> {
        self.keys.tts_id(which)
    }

    /// The read-aloud combination in the settings.
    pub open spec fn tts_combo(self, which: TtsHotkey) -> String {
        combo_for(self.config, which)
    }

    fn tts_current(&self, which: TtsHotkey) -> (r: (Option<u32>, &String))
        ensures
            r.0 == self.tts_id(which),
            *r.1 == self.tts_combo(which),
    {
        match which {
            TtsHotkey::ReadSelection => (
                self.keys.tts_read_hotkey_id,
                &self.config.tts_read_hotkey,
            ),
            TtsHotkey::ReadClipboard => (
                self.keys.tts_read_clipboard_hotkey_id,
                &self.config.tts_read_clipboard_hotkey,
            ),
            TtsHotkey::Stop => (self.keys.tts_stop_hotkey_id, &self.config.tts_stop_hotkey),
        }
    }

    /// What a change of a read-aloud hotkey comes to, once the combination was
    /// tried. The one in use is given up, as far as it can be read from the
    /// settings.
    pub open spec fn tts_planned(
        self,
        r: Result<KeyChange, String>,
        which: TtsHotkey,
        tried: Result<((crate::ptt::Modifiers, Seq<char>, u32), Seq<char>), Seq<char>>,
    ) -> bool {
        if !self.hotkeys_ready {
            r matches Err(m) && m@ == NO_HOTKEYS@
        } else {
            match tried {
                Err(e) => r matches Err(m) && m@ == e,
                Ok(combo) => {
                    &&& r matches Ok(c)
                    &&& is_change(c, combo, self.tts_id(which))
                    &&& c.register && self.tts_id(which) is Some ==> exists|before|
                        #![trigger crate::ptt::is_tried(self.tts_combo(which)@, before)]
                        crate::ptt::is_tried(self.tts_combo(which)@, before) && match before {
                            Ok((h, _)) => c.retire matches Some(k) && crate::ptt::hotkey_model(k)
                                == h,
                            Err(_) => c.retire is None,
                        }
                },
            }
        }
    }

    /// What a change of a read-aloud hotkey comes to, once the combination was
    /// tried.
    pub fn plan_tts_hotkey(
        &self,
        which: TtsHotkey,
        parsed: Result<(HotKey, String), String>,
    ) -> (r: Result<KeyChange, String>)
        ensures
            self.tts_planned(r, which, crate::ptt::labelled_outcome(parsed)),
    {
        if !self.hotkeys_ready {
            return Err(NO_HOTKEYS.to_owned());
        }
        match parsed {
            Err(e) => Err(e),
            Ok((hotkey, label)) => {
                let (current, combo) = self.tts_current(which);
                let register = !is_id(current, hotkey.id);
                let retire: Option<HotKey> = if register && current.is_some() {
                    let before = try_parse_ptt_key(combo.as_str());
                    assert(crate::ptt::is_tried(
                        self.tts_combo(which)@,
                        crate::ptt::labelled_outcome(before),
                    ));
                    match before {
                        Ok((old_key, _)) => Some(old_key),
                        Err(_) => None,
                    }
                } else {
                    None
                };
                Ok(KeyChange { hotkey, label, register, retire })
            },
        }
    }

    /// Begins to change a read-aloud hotkey. The one in use is given up only once
    /// the new one is registered. Report with [`App::tts_registered`].
    pub fn apply_tts_hotkey(&self, which: TtsHotkey, raw: &str) -> (r: Result<KeyChange, String>)
        ensures
            exists|tried|
                #![trigger crate::ptt::is_tried(raw@, tried)]
                crate::ptt::is_tried(raw@, tried) && self.tts_planned(r, which, tried),
    {
        let parsed = try_parse_ptt_key(raw);
        let ghost tried = crate::ptt::labelled_outcome(parsed);
        let r = self.plan_tts_hotkey(which, parsed);
        assert(crate::ptt::is_tried(raw@, tried) && self.tts_planned(r, which, tried));
        r
    }

    /// This application with another read-aloud hotkey and combination.
    pub open spec fn with_tts_key(self, which: TtsHotkey, id: Option<u32>, combo: String) -> App {
        App {
            keys: self.keys.with_tts(which, id),
            config: with_combo(self.config, which, combo),
            ..self
        }
    }

    /// The new read-aloud hotkey was registered, if that was needed, or could not
    /// be. In the first case the settings are to be saved; report with
    /// [`App::tts_key_saved`]. In the second nothing has changed.
    pub fn tts_registered(
        &mut self,
        which: TtsHotkey,
        raw: String,
        change: KeyChange,
        registered: Result<(), String>,
    ) -> (r: Result<(), String>)
        ensures
            change.register && registered is Err ==> *final(self) == *old(self) && (r matches Err(
                m,
            ) && registered matches Err(e) && m@ == taken_text(change.label@, e@)),
            !(change.register && registered is Err) ==> r is Ok && *final(self) == old(
                self,
            ).with_tts_key(
                which,
                if change.register {
                    Some(change.hotkey.id)
                } else {
                    old(self).tts_id(which)
                },
                raw,
            ),
    {
        let mut id: Option<u32> = self.tts_current(which).0;
        if change.register {
            match registered {
                Err(e) => {
                    return Err(taken(change.label.as_str(), e.as_str()));
                },
                Ok(_) => {
                    id = Some(change.hotkey.id);
                },
            }
        }
        self.keys.set_tts(which, id);
        set_combo(&mut self.config, which, raw);
        Ok(())
    }

    /// The settings with the new read-aloud combination were saved, or could not
    /// be. The result is the combination, or what is said.
    pub fn tts_key_saved(&self, raw: String, saved: Result<(), String>) -> (r: Result<
        String,
        String,
    >)
        ensures
            match saved {
                Ok(_) => r == Ok::<String, String>(raw),
                Err(e) => r matches Err(m) && m@ == unsaved_text(e@),
            },
    {
        match saved {
            Ok(_) => Ok(raw),
            Err(e) => Err(prefixed("hotkey is active, but saving config failed: ", e.as_str())),
        }
    }
}

/// What a read-aloud hotkey is for.
pub fn tts_hotkey_purpose(which: TtsHotkey) -> (r: &'static str)
    ensures
        r@ == (match which {
            TtsHotkey::ReadSelection => "read selection"@,
            TtsHotkey::ReadClipboard => "read clipboard"@,
            TtsHotkey::Stop => "stop speaking"@,
        }),
{
    match which {
        TtsHotkey::ReadSelection => "read selection",
        TtsHotkey::ReadClipboard => "read clipboard",
        TtsHotkey::Stop => "stop speaking",
    }
}

} // verus!
