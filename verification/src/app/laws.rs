//! What holds of the application whatever happens to it.

use vstd::prelude::*;

use super::{
    App, Effect, GrantEntry, HotkeyDecision, HotkeyState, InjectionPlan, KeyChange, PopupHost,
    Tooltip, TrayState,
};
use crate::config::Config;
use crate::inject::InjectMode;
use crate::overlay::Phase;
use crate::permissions::{MicStatus, Platform};
use crate::ptt::Modifiers;
use crate::speech::SpeechStatus;
use crate::status_popup::{Phase as PopupPhase, StatusPopup};
use crate::stt::Transcription;
use crate::text;
use crate::ui::TtsHotkey;

verus! {

/// Whether the hotkey events `events` lead through `states`: each state follows
/// from the one before by its event, but for the microphone, which may have been
/// opened in between.
pub open spec fn is_run(states: Seq<HotkeyState>, events: Seq<(u32, bool)>) -> bool {
    &&& states.len() == events.len() + 1
    &&& forall|i: int|
        0 <= i < events.len() ==> #[trigger] step(states[i], events[i], states[i + 1])
}

/// Whether an event leads from one state to another, but for the microphone.
pub open spec fn step(before: HotkeyState, event: (u32, bool), after: HotkeyState) -> bool {
    exists|between: HotkeyState| #[trigger]
        before.follows(between, event.0, event.1) && after == (HotkeyState {
            capturing: after.capturing,
            ..between
        })
}

/// Whether the key `id` counts as held: as a read-aloud key, as the push-to-talk
/// key, or because it is neither and can ask for nothing.
spec fn counts_as_held(s: HotkeyState, id: u32) -> bool {
    if s.is_tts(id) {
        s.tts_held@.contains(id)
    } else {
        s.ptt_hotkey_id == Some(id) ==> s.ptt_held
    }
}

proof fn lemma_stays_held(states: Seq<HotkeyState>, events: Seq<(u32, bool)>, id: u32, n: int)
    requires
        is_run(states, events),
        0 < n <= events.len(),
        events[0] == (id, true),
        forall|i: int| 0 <= i < n ==> #[trigger] events[i] != (id, false),
    ensures
        counts_as_held(states[n], id),
    decreases n,
{
    let last = n - 1;
    assert(step(states[last], events[last], states[last + 1]));
    if n > 1 {
        lemma_stays_held(states, events, id, n - 1);
        assert(events[n - 1] != (id, false));
    }
}

/// A key that is held down asks for something at most once: from its press to its
/// release, its repeated presses are ignored, whatever other keys do meanwhile.
pub proof fn held_key_asks_once(states: Seq<HotkeyState>, events: Seq<(u32, bool)>, id: u32)
    requires
        is_run(states, events),
        events.len() > 0,
        events[0] == (id, true),
        forall|i: int| 0 <= i < events.len() ==> #[trigger] events[i] != (id, false),
    ensures
        states.last().decision(id, true) == HotkeyDecision::Ignored,
{
    lemma_stays_held(states, events, id, events.len() as int);
}

/// A press that opens the microphone is matched by the release of the same key,
/// which closes it, provided that the key was not held as a read-aloud key at that
/// time; without the microphone the release asks for nothing.
pub proof fn release_ends_what_press_began(
    before: HotkeyState,
    during: HotkeyState,
    id: u32,
    opened: bool,
)
    requires
        before.decision(id, true) == HotkeyDecision::OpenMic,
        before.follows(during, id, true),
        before.wf(),
        !before.tts_held@.contains(id),
    ensures
        (HotkeyState { capturing: opened, ..during }).decision(id, false) == if opened {
            HotkeyDecision::CloseMic
        } else {
            HotkeyDecision::Ignored
        },
{
}

/// The microphone is closed only where it is open, and opened only where it is
/// closed.
pub proof fn microphone_alternates(s: HotkeyState, id: u32, pressed: bool)
    requires
        s.wf(),
    ensures
        s.decision(id, pressed) == HotkeyDecision::OpenMic ==> !s.capturing,
        s.decision(id, pressed) == HotkeyDecision::CloseMic ==> s.capturing,
{
}

/// A transcript is kept before anything else is tried with it: it goes to the
/// clipboard, and to the history where there is one, whatever the cursor will take.
/// A blank one touches neither.
pub proof fn transcripts_are_kept(app: App, t: Transcription)
    ensures
        !text::is_blank(t.text@) ==> super::delivery_effects(app, t).contains(
            Effect::SetClipboard(t.text),
        ),
        !text::is_blank(t.text@) && app.history_ready ==> super::delivery_effects(app, t).contains(
            Effect::Record { text: t.text, provider: t.provider },
        ),
        text::is_blank(t.text@) ==> forall|i: int|
            0 <= i < super::delivery_effects(app, t).len() ==> {
                let e = #[trigger] super::delivery_effects(app, t)[i];
                !(e is SetClipboard) && !(e is Record)
            },
{
    let effects = super::delivery_effects(app, t);
    if !text::is_blank(t.text@) {
        assert(effects[1] == Effect::SetClipboard(t.text));
        if app.history_ready {
            assert(effects[2] == (Effect::Record { text: t.text, provider: t.provider }));
        }
    }
}

/// No deadline is slept through: the loop wakes no later than the toast, the popup
/// and the settings window need, and within a frame while something moves.
pub proof fn no_deadline_is_missed(app: App, now: u64)
    requires
        now <= super::LAST_TIME,
    ensures
        forall|at: u64|
            app.toast_hide_at == Some(at) || app.reader.hide_at == Some(at)
                || app.settings_repaint_at == Some(at) ==> (#[trigger] wakes_by(app, now, at)),
        app.tray_state != TrayState::Idle || super::popup_animates(app.reader.popup) ==> wakes_by(
            app,
            now,
            (now + super::FRAME_INTERVAL) as u64,
        ),
{
}

/// Whether the loop wakes at `at` or before.
pub open spec fn wakes_by(app: App, now: u64, at: u64) -> bool {
    app.wake_time(now) matches Some(t) && t <= at
}

/// With nothing pending the application sleeps until something happens: it never
/// polls, except on macOS, where permissions can change unannounced.
pub proof fn idle_means_asleep(app: App, now: u64)
    ensures
        app.wake_time(now) is None <==> {
            &&& app.tray_state == TrayState::Idle
            &&& !super::popup_animates(app.reader.popup)
            &&& app.toast_hide_at is None
            &&& app.reader.hide_at is None
            &&& app.settings_repaint_at is None
            &&& !(app.platform == Platform::MacOs && app.hotkeys_ready)
        },
{
}

/// The tray menu prompts for a permission exactly while it is missing, and has no
/// stray separator.
pub proof fn prompts_match_permissions(accessibility_ok: bool, mic: MicStatus)
    ensures
        super::grant_block(accessibility_ok, mic).contains(GrantEntry::Accessibility)
            <==> !accessibility_ok,
        super::grant_block(accessibility_ok, mic).contains(GrantEntry::Microphone) <==> mic
            != MicStatus::Granted,
        super::grant_block(accessibility_ok, mic).contains(GrantEntry::Separator) <==> super::grant_block(
            accessibility_ok,
            mic,
        ).len() > 0,
{
    let block = super::grant_block(accessibility_ok, mic);
    if !accessibility_ok {
        assert(block[0] == GrantEntry::Accessibility);
    }
    if mic != MicStatus::Granted {
        assert(block[if accessibility_ok {
            0
        } else {
            1int
        }] == GrantEntry::Microphone);
    }
    if block.len() > 0 {
        assert(block.last() == GrantEntry::Separator);
    }
}

/// The recording pill is on screen exactly while recording or transcribing: going
/// to a tray state shows it or hides it accordingly.
pub proof fn pill_follows_state(state: TrayState)
    ensures
        super::tray_effects(state, true).contains(Effect::HideOverlay) <==> state
            == TrayState::Idle,
        match super::overlay_phase(state) {
            Some(phase) => super::tray_effects(state, true).contains(Effect::ShowOverlay(phase)),
            None => state == TrayState::Idle,
        },
{
    let shown = super::tray_effects(state, true);
    assert(shown.len() == 2);
    assert(shown[1] == match state {
        TrayState::Idle => Effect::HideOverlay,
        TrayState::Recording => Effect::ShowOverlay(crate::overlay::Phase::Recording),
        TrayState::Processing => Effect::ShowOverlay(crate::overlay::Phase::Processing),
    });
}

// ---- Dictating ---------------------------------------------------------------

/// Whether one of the effects hands a clip on to be transcribed.
pub open spec fn transcribes(effects: Seq<Effect>) -> bool {
    exists|i: int| 0 <= i < effects.len() && #[trigger] effects[i] is Transcribe
}

/// A clip of 0.2 seconds (3200 samples) or more is transcribed, however long it is:
/// by the configured provider, with the configured model if one is named. A shorter
/// one, or a failed recording, is dropped and ends at rest.
pub proof fn every_clip_with_speech_is_transcribed(
    app: App,
    after: App,
    effects: Seq<Effect>,
    samples: Option<int>,
)
    requires
        app.follows_clip(after, effects, samples),
    ensures
        samples matches Some(n) && n >= 3_200 ==> {
            &&& after.tray_state == TrayState::Processing
            &&& effects.len() > 0
            &&& effects.last() matches Effect::Transcribe { provider, model }
            &&& provider == app.config.stt_provider
            &&& model is None <==> text::is_blank(app.config.stt_model@)
            &&& model matches Some(m) ==> m@ == text::trimmed(app.config.stt_model@)
        },
        !(samples matches Some(n) && n >= 3_200) ==> after.tray_state == TrayState::Idle
            && !transcribes(effects),
        after == (App { tray_state: after.tray_state, anim_frame: 0, ..app }),
{
    crate::config::any_ink_overrides_the_default(app.config.stt_model@);
}

/// What is kept of a clip is a stretch of it, and all of it unless silence is to be
/// taken off.
pub proof fn clips_are_not_altered(app: App, clip: Seq<i16>, rest: Seq<i16>)
    requires
        app.keeps(clip, rest),
    ensures
        !app.config.vad ==> rest == clip,
        exists|start: int, end: int|
            0 <= start <= end <= clip.len() && rest == #[trigger] clip.subrange(start, end),
{
    if !app.config.vad {
        assert(rest =~= clip.subrange(0, clip.len() as int));
    }
}

/// A transcript is brought to the cursor in the mode that the settings name and in no
/// other; it stays on the clipboard exactly while the keyboard is locked, and where
/// it would have to be pasted without permission. Only pasting waits for the
/// clipboard to settle.
pub proof fn transcripts_arrive_in_the_configured_mode(
    platform: Platform,
    mode: InjectMode,
    accessibility: bool,
    secure: bool,
)
    ensures
        super::injection_plan(platform, mode, accessibility, secure) == InjectionPlan::FallBack
            <==> secure || (mode == InjectMode::Paste && !accessibility),
        super::injection_plan(platform, mode, accessibility, secure) matches InjectionPlan::Inject {
            mode: m,
            settle_ms,
        } ==> m == mode && match mode {
            InjectMode::Type => settle_ms == 0,
            InjectMode::Paste => settle_ms == (if platform == Platform::Windows {
                100
            } else {
                60int
            }),
        },
{
}

/// Nothing but the transcript itself is put on the clipboard or into the history, each
/// at most once, and the history only where there is one.
pub proof fn only_the_transcript_is_kept(app: App, t: Transcription, i: int)
    requires
        0 <= i < super::delivery_effects(app, t).len(),
    ensures
        ({
            let e = super::delivery_effects(app, t)[i];
            &&& e matches Effect::SetClipboard(s) ==> s == t.text && i == 1
            &&& e matches Effect::Record { text, provider } ==> text == t.text && provider
                == t.provider && app.history_ready && i == 2
            &&& e matches Effect::SetTooltip(tip) ==> tip == Tooltip::Ready
            &&& !text::is_blank(t.text@) ==> e is SetClipboard || e is Record || e is SetTooltip
        }),
{
}

// ---- Hotkeys -----------------------------------------------------------------

/// A key that is pressed afresh does what it is registered for; a key that is
/// registered for nothing does nothing.
pub proof fn a_fresh_press_is_obeyed(s: HotkeyState, id: u32)
    ensures
        s.tts_read_hotkey_id == Some(id) && !s.tts_held@.contains(id) ==> s.decision(id, true)
            == HotkeyDecision::ReadSelection,
        s.tts_read_clipboard_hotkey_id == Some(id) && s.tts_read_hotkey_id != Some(id)
            && !s.tts_held@.contains(id) ==> s.decision(id, true) == HotkeyDecision::ReadClipboard,
        s.tts_stop_hotkey_id == Some(id) && s.tts_read_hotkey_id != Some(id)
            && s.tts_read_clipboard_hotkey_id != Some(id) && !s.tts_held@.contains(id)
            ==> s.decision(id, true) == HotkeyDecision::StopReading,
        s.ptt_hotkey_id == Some(id) && s.tts_read_hotkey_id != Some(id)
            && s.tts_read_clipboard_hotkey_id != Some(id) && s.tts_stop_hotkey_id != Some(id)
            && !s.ptt_held ==> s.decision(id, true) == HotkeyDecision::OpenMic,
        s.ptt_hotkey_id != Some(id) && s.tts_read_hotkey_id != Some(id)
            && s.tts_read_clipboard_hotkey_id != Some(id) && s.tts_stop_hotkey_id != Some(id)
            ==> s.decision(id, true) == HotkeyDecision::Ignored && s.decision(id, false)
            == HotkeyDecision::Ignored,
{
}

/// Only the push-to-talk key opens or closes the microphone, only its press opens it
/// and only its release closes it; releasing any other key does nothing.
pub proof fn only_push_to_talk_moves_the_microphone(s: HotkeyState, id: u32, pressed: bool)
    ensures
        s.decision(id, pressed) == HotkeyDecision::OpenMic ==> pressed && s.ptt_hotkey_id == Some(
            id,
        ) && !s.ptt_held,
        s.decision(id, pressed) == HotkeyDecision::CloseMic ==> !pressed && s.ptt_hotkey_id
            == Some(id) && s.ptt_held,
        s.decision(id, pressed) == HotkeyDecision::ReadSelection ==> pressed
            && s.tts_read_hotkey_id == Some(id),
        s.decision(id, pressed) == HotkeyDecision::ReadClipboard ==> pressed
            && s.tts_read_clipboard_hotkey_id == Some(id),
        s.decision(id, pressed) == HotkeyDecision::StopReading ==> pressed && s.tts_stop_hotkey_id
            == Some(id),
{
}

/// A key that was pressed and released works again: afterwards everything is held as
/// it was before, and the next press asks for the same.
pub proof fn a_released_key_works_again(
    before: HotkeyState,
    during: HotkeyState,
    after: HotkeyState,
    id: u32,
)
    requires
        !before.tts_held@.contains(id),
        before.ptt_hotkey_id == Some(id) ==> !before.ptt_held,
        before.follows(during, id, true),
        during.follows(after, id, false),
    ensures
        after.tts_held@ == before.tts_held@,
        after.ptt_held == before.ptt_held,
        after.decision(id, true) == before.decision(id, true),
{
    assert(after.tts_held@ =~= before.tts_held@);
}

/// A key that was released is not held, whatever it was held as and whatever it is
/// registered for by then; a read-aloud key that was pressed is.
pub proof fn a_released_key_is_not_held(before: HotkeyState, after: HotkeyState, id: u32)
    ensures
        before.follows(after, id, false) ==> !after.tts_held@.contains(id),
        before.follows(after, id, false) && before.ptt_hotkey_id == Some(id) && !before.is_tts(id)
            && !before.tts_held@.contains(id) ==> !after.ptt_held && !after.capturing,
        before.follows(after, id, true) && (before.tts_read_hotkey_id == Some(id)
            || before.tts_read_clipboard_hotkey_id == Some(id) || before.tts_stop_hotkey_id
            == Some(id)) ==> after.tts_held@.contains(id),
        before.follows(after, id, true) && before.ptt_hotkey_id == Some(id) && !before.is_tts(id)
            ==> after.ptt_held,
{
}

/// What one key does leaves the others as they are.
pub proof fn keys_do_not_disturb_each_other(
    before: HotkeyState,
    after: HotkeyState,
    id: u32,
    pressed: bool,
    other: u32,
)
    requires
        before.follows(after, id, pressed),
        other != id,
    ensures
        after.tts_held@.contains(other) <==> before.tts_held@.contains(other),
        before.ptt_hotkey_id != Some(id) && before.wf() ==> after.ptt_held == before.ptt_held
            && after.capturing == before.capturing,
        after.ptt_hotkey_id == before.ptt_hotkey_id,
        forall|which: TtsHotkey| #[trigger] after.tts_id(which) == before.tts_id(which),
{
}

/// A read-aloud hotkey that is registered for a purpose is the one that is found for
/// it, does what it is for when pressed afresh, and leaves the other purposes alone.
pub proof fn a_registered_key_serves_its_purpose(
    s: HotkeyState,
    which: TtsHotkey,
    other: TtsHotkey,
    id: u32,
)
    ensures
        s.with_tts(which, Some(id)).tts_id(which) == Some(id),
        s.with_tts(which, None).tts_id(which) is None,
        other != which ==> s.with_tts(which, Some(id)).tts_id(other) == s.tts_id(other),
        s.with_tts(which, Some(id)).ptt_hotkey_id == s.ptt_hotkey_id,
        !s.tts_held@.contains(id) && s.tts_read_hotkey_id != Some(id)
            && s.tts_read_clipboard_hotkey_id != Some(id) ==> s.with_tts(
            which,
            Some(id),
        ).decision(id, true) == match which {
            TtsHotkey::ReadSelection => HotkeyDecision::ReadSelection,
            TtsHotkey::ReadClipboard => HotkeyDecision::ReadClipboard,
            TtsHotkey::Stop => HotkeyDecision::StopReading,
        },
{
}

/// A combination that is saved for a purpose is the one that is found for it, and no
/// other setting changes.
pub proof fn a_saved_combination_is_found(
    config: Config,
    which: TtsHotkey,
    other: TtsHotkey,
    combo: String,
)
    ensures
        ({
            let c = super::with_combo(config, which, combo);
            &&& super::combo_for(c, which) == combo
            &&& other != which ==> super::combo_for(c, other) == super::combo_for(config, other)
            &&& c == (Config {
                tts_read_hotkey: c.tts_read_hotkey,
                tts_read_clipboard_hotkey: c.tts_read_clipboard_hotkey,
                tts_stop_hotkey: c.tts_stop_hotkey,
                ..config
            })
            &&& which == TtsHotkey::ReadSelection ==> c.tts_read_hotkey == combo
            &&& which == TtsHotkey::ReadClipboard ==> c.tts_read_clipboard_hotkey == combo
            &&& which == TtsHotkey::Stop ==> c.tts_stop_hotkey == combo
        }),
{
}

/// A change is for the hotkey that the combination came to; it is registered exactly
/// if it is not the one in use, and the one in use is given up only then.
pub proof fn a_change_is_for_the_key_that_was_asked_for(
    change: KeyChange,
    combo: ((Modifiers, Seq<char>, u32), Seq<char>),
    current: Option<u32>,
)
    requires
        super::is_change(change, combo, current),
    ensures
        change.hotkey.mods == combo.0.0 && change.hotkey.key@ == combo.0.1 && change.hotkey.id
            == combo.0.2,
        change.label@ == combo.1,
        current == Some(combo.0.2) ==> !change.register && change.retire is None,
        current != Some(combo.0.2) ==> change.register,
        current is None ==> change.retire is None,
{
}

/// The push-to-talk key can be changed to any combination that can be read, unless it
/// is held or no hotkey can be registered; each refusal says why.
pub proof fn a_readable_combination_is_accepted(
    app: App,
    r: Result<KeyChange, String>,
    tried: Result<((Modifiers, Seq<char>, u32), Seq<char>), Seq<char>>,
)
    requires
        app.ptt_planned(r, tried),
    ensures
        r is Ok <==> !app.keys.ptt_held && app.hotkeys_ready && tried is Ok,
        r matches Ok(c) ==> c.hotkey.id == tried->Ok_0.0.2 && (c.register <==> app.keys.ptt_hotkey_id
            != Some(c.hotkey.id)) && (c.retire is Some <==> c.register
            && app.keys.ptt_hotkey_id is Some),
        app.keys.ptt_held ==> (r matches Err(m) && m@ == "release the push-to-talk key first"@),
        !app.keys.ptt_held && !app.hotkeys_ready ==> (r matches Err(m) && m@
            == "global hotkeys are unavailable on this system"@),
        !app.keys.ptt_held && app.hotkeys_ready && tried is Err ==> (r matches Err(m) && m@
            == tried->Err_0),
{
}

/// A read-aloud hotkey can be changed to any combination that can be read, unless no
/// hotkey can be registered; each refusal says why.
pub proof fn a_readable_read_aloud_combination_is_accepted(
    app: App,
    r: Result<KeyChange, String>,
    which: TtsHotkey,
    tried: Result<((Modifiers, Seq<char>, u32), Seq<char>), Seq<char>>,
)
    requires
        app.tts_planned(r, which, tried),
    ensures
        r is Ok <==> app.hotkeys_ready && tried is Ok,
        r matches Ok(c) ==> c.hotkey.id == tried->Ok_0.0.2 && (c.register <==> app.keys.tts_id(
            which,
        ) != Some(c.hotkey.id)) && (c.retire is Some ==> c.register),
        !app.hotkeys_ready ==> (r matches Err(m) && m@
            == "global hotkeys are unavailable on this system"@),
        app.hotkeys_ready && tried is Err ==> (r matches Err(m) && m@ == tried->Err_0),
{
}

/// The hotkey that is given up for a new one is the one that the settings name, as far
/// as they can be read.
pub proof fn the_key_in_the_settings_is_given_up(
    app: App,
    ptt: KeyChange,
    tts: KeyChange,
    which: TtsHotkey,
    ptt_tried: Result<((Modifiers, Seq<char>, u32), Seq<char>), Seq<char>>,
    tts_tried: Result<((Modifiers, Seq<char>, u32), Seq<char>), Seq<char>>,
    ptt_combo: ((Modifiers, Seq<char>, u32), Seq<char>),
    tts_combo: Result<((Modifiers, Seq<char>, u32), Seq<char>), Seq<char>>,
)
    requires
        app.ptt_planned(Ok(ptt), ptt_tried),
        app.tts_planned(Ok(tts), which, tts_tried),
        !crate::ptt::platform_dependent(app.config.ptt_key@),
        !crate::ptt::platform_dependent(super::combo_for(app.config, which)@),
        crate::ptt::is_read(app.config.ptt_key@, ptt_combo),
        crate::ptt::is_tried(super::combo_for(app.config, which)@, tts_combo),
    ensures
        ptt.retire matches Some(k) ==> k.mods == ptt_combo.0.0 && k.key@ == ptt_combo.0.1 && k.id
            == ptt_combo.0.2,
        tts.retire is Some <==> tts.register && app.keys.tts_id(which) is Some && tts_combo is Ok,
        tts.retire matches Some(k) ==> k.mods == tts_combo->Ok_0.0.0 && k.key@
            == tts_combo->Ok_0.0.1 && k.id == tts_combo->Ok_0.0.2,
{
    if let Some(k) = ptt.retire {
        let label = choose|label: Seq<char>| #[trigger]
            crate::ptt::is_read(app.config.ptt_key@, (crate::ptt::hotkey_model(k), label));
        assert((crate::ptt::hotkey_model(k), label) == ptt_combo);
    }
}

/// What is said of a hotkey that could not be registered names it and the reason; what
/// is said of settings that could not be saved names the reason.
pub proof fn refusals_give_the_reason(label: Seq<char>, error: Seq<char>)
    ensures
        ({
            let head = "could not register "@ + label;
            let t = super::taken_text(label, error);
            &&& head.is_prefix_of(t)
            &&& (error + ")"@).is_suffix_of(t)
            &&& t.len() == head.len() + " \u{2014} is it taken by another app? ("@.len()
                + error.len() + 1
        }),
        "hotkey is active, but saving config failed: "@.is_prefix_of(super::unsaved_text(error)),
        error.is_suffix_of(super::unsaved_text(error)),
        super::unsaved_text(error).len() == "hotkey is active, but saving config failed: "@.len()
            + error.len(),
{
    let head = "could not register "@ + label;
    let middle = " \u{2014} is it taken by another app? ("@;
    let t = super::taken_text(label, error);
    reveal_strlit(")");
    assert(t =~= head + (middle + (error + ")"@)));
    assert(head =~= t.subrange(0, head.len() as int));
    assert((error + ")"@) =~= t.subrange(t.len() - (error.len() + 1), t.len() as int));
    let u = super::unsaved_text(error);
    let saved = "hotkey is active, but saving config failed: "@;
    assert(saved =~= u.subrange(0, saved.len() as int));
    assert(error =~= u.subrange(u.len() - error.len(), u.len() as int));
}

// ---- The tray ----------------------------------------------------------------

/// Going to a tray state draws that state from its first frame, and touches the
/// recording pill exactly where there is one.
pub proof fn the_tray_shows_its_state(state: TrayState, overlay: bool)
    ensures
        super::tray_effects(state, overlay).len() == (if overlay {
            2int
        } else {
            1
        }),
        super::tray_effects(state, overlay)[0] == (Effect::DrawTray { state, frame: 0 }),
        overlay ==> super::tray_effects(state, overlay)[1] == match state {
            TrayState::Idle => Effect::HideOverlay,
            TrayState::Recording => Effect::ShowOverlay(Phase::Recording),
            TrayState::Processing => Effect::ShowOverlay(Phase::Processing),
        },
{
}

/// The tooltip at rest says how to talk, with the key's own label; a failure is told
/// in its own words.
pub proof fn tooltips_say_what_is_the_matter(label: Seq<char>, m: String)
    ensures
        super::tooltip_text(Tooltip::Ready, label) == "Holler \u{2014} hold "@ + label + " to talk"@,
        super::tooltip_text(Tooltip::Failed(m), label) == "Holler \u{2014} "@ + m@,
        m@.is_suffix_of(super::tooltip_text(Tooltip::Failed(m), label)),
        super::tooltip_text(Tooltip::MicUnavailable, label)
            == "Holler \u{2014} microphone unavailable (tray \u{2192} Grant Microphone Access)"@,
        super::tooltip_text(Tooltip::PttUnavailable, label)
            == "Holler \u{2014} PTT key unavailable; pick another in Settings \u{2192} Hotkey"@,
        super::tooltip_text(Tooltip::HistoryNotSaved, label)
            == "Holler \u{2014} history not saved (see logs); text still delivered"@,
        super::tooltip_text(Tooltip::SettingsFailed, label)
            == "Holler \u{2014} settings window failed to open"@,
{
    let t = super::tooltip_text(Tooltip::Failed(m), label);
    assert(m@ =~= t.subrange(t.len() - m@.len(), t.len() as int));
}

// ---- Reading aloud -----------------------------------------------------------

/// Whether a read-aloud is under way.
pub open spec fn under_way(status: SpeechStatus) -> bool {
    status is Triggered || status is Generating || status is Speaking
}

/// The popup tells the status: it is on screen in the status's own phase, can be
/// stopped exactly while the reading is under way and stays for as long; otherwise it
/// goes after two seconds, after four if it tells of an error.
pub proof fn the_popup_tells_the_status(
    host: PopupHost,
    status: SpeechStatus,
    can_replay: bool,
    now: u64,
)
    requires
        now <= super::LAST_TIME,
    ensures
        ({
            let after = host.showing(status, can_replay, now);
            &&& after.popup is Some <==> host.popup is Some
            &&& after.popup matches Some(p) ==> {
                &&& p.visible
                &&& p.can_replay == can_replay
                &&& p.can_stop <==> under_way(status)
                &&& p.phase == match status {
                    SpeechStatus::Triggered => PopupPhase::Triggered,
                    SpeechStatus::Generating => PopupPhase::Generating,
                    SpeechStatus::Speaking => PopupPhase::Speaking,
                    SpeechStatus::Finished => PopupPhase::Finished,
                    SpeechStatus::Stopped => PopupPhase::Stopped,
                    SpeechStatus::Error(_) => PopupPhase::Error,
                }
                &&& p.inside == host.popup->0.inside && p.under == host.popup->0.under
                &&& host.popup->0.visible ==> p.frame == host.popup->0.frame
                &&& !host.popup->0.visible ==> p.frame == 0
            }
            &&& after.hide_at is None <==> under_way(status)
            &&& after.hide_at matches Some(t) ==> t == now + (if status is Error {
                4_000_000_000int
            } else {
                2_000_000_000
            })
        }),
        host.showing_effects().len() == (if host.popup is Some {
            1int
        } else {
            0
        }),
        host.popup matches Some(p) ==> host.showing_effects()[0] == (if p.visible {
            Effect::DrawPopup
        } else {
            Effect::RevealPopup
        }),
{
}

/// The popup goes away when its time has come and not before, whatever woke the loop.
pub proof fn the_popup_goes_when_it_is_due(host: PopupHost, timer: bool, now: u64)
    ensures
        ({
            let after = host.awoken(timer, now);
            let over = host.hide_at matches Some(t) && t <= now;
            &&& after.popup is Some <==> host.popup is Some
            &&& over ==> after.hide_at is None && (after.popup matches Some(p) ==> !p.visible
                && !p.inside && p.under is None && p.hover is None)
            &&& !over ==> after.hide_at == host.hide_at && (after.popup matches Some(p)
                ==> p.visible == host.popup->0.visible && p.under == host.popup->0.under && p.hover
                == host.popup->0.hover && p.inside == host.popup->0.inside)
            &&& host.waking_effects(timer, now).contains(Effect::HidePopup) <==> over
                && host.popup is Some
            &&& after.popup matches Some(p) ==> p.phase == host.popup->0.phase && p.can_stop
                == host.popup->0.can_stop && p.can_replay == host.popup->0.can_replay
        }),
{
    let e = host.waking_effects(timer, now);
    let moved = timer && super::popup_animates(host.popup);
    if super::is_due(host.hide_at, now) && host.popup is Some {
        assert(e[if moved {
            1
        } else {
            0int
        }] == Effect::HidePopup);
    }
}

/// A popup that pulses moves on by one frame of twelve each time the timer wakes the
/// loop, and is drawn; no other popup moves.
pub proof fn the_popup_pulses_by_the_timer(p: StatusPopup, timer: bool)
    requires
        p.frame < 12,
    ensures
        ({
            let moves = timer && p.visible && (p.phase == PopupPhase::Generating || p.phase
                == PopupPhase::Speaking);
            let after = super::popup_ticked(p, timer);
            &&& moves && p.frame < 11 ==> after.frame == p.frame + 1
            &&& moves && p.frame == 11 ==> after.frame == 0
            &&& !moves ==> after == p
            &&& after == (StatusPopup { frame: after.frame, ..p })
            &&& super::popup_animates(Some(p)) <==> p.visible && (p.phase
                == PopupPhase::Generating || p.phase == PopupPhase::Speaking)
        }),
{
}

/// A text that is not blank is read, and exactly as it is: by the configured voice on
/// macOS, where there is one, and by the system elsewhere. It is remembered, and the
/// popup says that the reading has begun. Blank text does nothing.
pub proof fn a_text_is_read_as_it_is(
    app: App,
    after: App,
    effects: Seq<Effect>,
    t: String,
    now: u64,
)
    requires
        app.spoke(after, effects, t, now),
    ensures
        text::is_blank(t@) ==> after == app && effects.len() == 0,
        !text::is_blank(t@) ==> after.last_spoken == Some(t),
        !text::is_blank(t@) && app.platform == Platform::MacOs && app.voice_ready ==> {
            &&& effects.len() > 0 && effects.last() == Effect::SpeakWithVoice(t)
            &&& after.speech_started
            &&& after.reader.popup matches Some(p) ==> p.visible && p.phase
                == PopupPhase::Triggered && p.can_stop && p.can_replay
            &&& after.reader.hide_at is None
        },
        !text::is_blank(t@) && app.platform != Platform::MacOs ==> {
            &&& effects.len() > 0 && effects.last() == Effect::SpeakWithSystem(t)
            &&& after.reader.popup matches Some(p) ==> p.visible && p.phase
                == PopupPhase::Triggered && p.can_stop && p.can_replay
            &&& after.reader.hide_at is None
        },
        !text::is_blank(t@) && app.platform == Platform::MacOs && !app.voice_ready ==> effects.len()
            == 0 && after.reader == app.reader,
        after.config == app.config && after.keys == app.keys && after.tray_state == app.tray_state,
{
}

/// What was read last is what is read again: replaying reads the text of the last
/// reading that began, whatever was tried with blank text since.
pub proof fn replay_reads_the_last_text_again(
    app: App,
    once: App,
    blank: App,
    effects: Seq<Effect>,
    nothing: Seq<Effect>,
    t: String,
    b: String,
    now: u64,
    later: u64,
)
    requires
        !text::is_blank(t@),
        text::is_blank(b@),
        app.spoke(once, effects, t, now),
        once.spoke(blank, nothing, b, later),
    ensures
        blank.last_spoken == Some(t),
        forall|again: App, fx: Seq<Effect>, at: u64|
            app.platform != Platform::MacOs && #[trigger] blank.spoke(
                again,
                fx,
                blank.last_spoken->0,
                at,
            ) ==> fx.last() == Effect::SpeakWithSystem(t),
{
}

/// Stopping stops whatever can be speaking: the system's engine, the worker once it
/// was started, the voice before that. What was read is remembered still.
pub proof fn stopping_stops_what_speaks(app: App, after: App, effects: Seq<Effect>, now: u64)
    requires
        app.stopped(after, effects, now),
    ensures
        app.platform != Platform::MacOs ==> effects.len() > 0 && effects[0] == Effect::StopSystem,
        app.platform == Platform::MacOs && app.speech_started ==> effects.len() > 0 && effects[0]
            == Effect::StopSpeech,
        app.platform == Platform::MacOs && !app.speech_started && app.voice_ready ==> effects
            == seq![Effect::StopVoice],
        app.platform == Platform::MacOs && !app.speech_started && !app.voice_ready
            ==> effects.len() == 0,
        app.platform != Platform::MacOs || app.speech_started ==> (after.reader.popup matches Some(
            p,
        ) ==> p.visible && p.phase == PopupPhase::Stopped && !p.can_stop && p.can_replay == (
        app.last_spoken is Some)),
        after.last_spoken == app.last_spoken && after.speech_started == app.speech_started,
        after == (App { reader: after.reader, ..app }),
{
}

// ---- Time --------------------------------------------------------------------

/// Of two times the earlier one counts, and one that is there over none.
pub proof fn the_earlier_time_counts(a: Option<u64>, b: Option<u64>)
    ensures
        super::earlier(a, b) is None <==> a is None && b is None,
        super::earlier(a, b) is Some ==> super::earlier(a, b) == a || super::earlier(a, b) == b,
        super::earlier(a, b) matches Some(t) ==> (a matches Some(x) ==> t <= x) && (b matches Some(
            y,
        ) ==> t <= y),
{
}

/// The loop wakes only for a reason: what it wakes for is one of the times that were
/// set, the next frame of something that moves, or, on macOS, the next look at the
/// permissions two seconds on.
pub proof fn the_loop_wakes_for_a_reason(app: App, now: u64)
    requires
        now <= super::LAST_TIME,
    ensures
        app.wake_time(now) matches Some(t) ==> {
            ||| app.toast_hide_at == Some(t)
            ||| app.reader.hide_at == Some(t)
            ||| app.settings_repaint_at == Some(t)
            ||| t == now + 90_000_000 && (app.tray_state != TrayState::Idle
                || super::popup_animates(app.reader.popup))
            ||| t == now + 2_000_000_000 && app.platform == Platform::MacOs && app.hotkeys_ready
        },
        app.platform == Platform::MacOs && app.hotkeys_ready ==> wakes_by(
            app,
            now,
            (now + 2_000_000_000) as u64,
        ),
        app.tray_state != TrayState::Idle ==> wakes_by(app, now, (now + 90_000_000) as u64),
{
}

/// The permissions are looked at once two seconds have gone by since the last look,
/// where hotkeys can be registered.
pub proof fn permissions_are_looked_at_in_time(app: App, now: u64)
    ensures
        app.should_poll(now) <==> app.hotkeys_ready && now >= app.last_ax_check + 2_000_000_000,
{
}

/// What has come due is done once: the toast is hidden and the settings window is
/// redrawn, and neither is due any more; what is ahead stays ahead.
pub proof fn what_is_due_is_done_once(app: App, timer: bool, now: u64)
    ensures
        ({
            let after = app.awoken(timer, now);
            let toast = app.toast_hide_at matches Some(t) && t <= now;
            let repaint = app.settings is Some && (app.settings_repaint_at matches Some(t) && t
                <= now);
            &&& app.due_effects(now).contains(Effect::HideToast) <==> toast && app.toast_ready
            &&& app.due_effects(now).contains(Effect::DrawSettings) <==> repaint
            &&& after.toast_hide_at == (if toast {
                None
            } else {
                app.toast_hide_at
            })
            &&& after.settings_repaint_at == (if repaint {
                None
            } else {
                app.settings_repaint_at
            })
            &&& after.due_effects(now).len() == 0
            &&& after.tray_state == app.tray_state && after.config == app.config && after.keys
                == app.keys && after.last_spoken == app.last_spoken
        }),
{
    let e = app.due_effects(now);
    let repaint = app.settings is Some && super::is_due(app.settings_repaint_at, now);
    if repaint {
        assert(e[0] == Effect::DrawSettings);
    }
    if super::is_due(app.toast_hide_at, now) && app.toast_ready {
        assert(e[if repaint {
            1
        } else {
            0int
        }] == Effect::HideToast);
    }
}

/// While recording or transcribing, the icon and the pill move on together by one
/// frame of twelve each time the timer wakes the loop; at rest nothing moves.
pub proof fn the_icon_moves_by_the_timer(app: App, timer: bool, now: u64)
    requires
        app.wf(),
    ensures
        ({
            let moves = timer && app.tray_state != TrayState::Idle;
            let after = app.awoken(timer, now);
            let e = app.frame_effects(timer);
            &&& moves && app.anim_frame < 11 ==> after.anim_frame == app.anim_frame + 1
            &&& moves && app.anim_frame == 11 ==> after.anim_frame == 0
            &&& !moves ==> after.anim_frame == app.anim_frame && e.len() == 0
            &&& moves ==> e.len() == (if app.overlay_ready {
                2int
            } else {
                1
            })
            &&& moves ==> e[0] == (Effect::DrawTray {
                state: app.tray_state,
                frame: after.anim_frame,
            })
            &&& moves && app.overlay_ready ==> e[1] == (Effect::DrawOverlay {
                phase: if app.tray_state == TrayState::Recording {
                    Phase::Recording
                } else {
                    Phase::Processing
                },
                frame: after.anim_frame,
            })
        }),
{
}

/// Waking up does all of it: the frames, what is due, and the popup's part.
pub proof fn waking_up_does_everything(app: App, timer: bool, now: u64, e: Effect)
    ensures
        app.waking_effects(timer, now).contains(e) <==> app.frame_effects(timer).contains(e)
            || app.due_effects(now).contains(e) || app.reader.waking_effects(
            timer,
            now,
        ).contains(e),
{
    let a = app.frame_effects(timer);
    let b = app.due_effects(now);
    let c = app.reader.waking_effects(timer, now);
    let all = app.waking_effects(timer, now);
    assert(all == a + b + c);
    if a.contains(e) {
        let i = choose|i: int| 0 <= i < a.len() && a[i] == e;
        assert(all[i] == e);
    }
    if b.contains(e) {
        let i = choose|i: int| 0 <= i < b.len() && b[i] == e;
        assert(all[a.len() + i] == e);
    }
    if c.contains(e) {
        let i = choose|i: int| 0 <= i < c.len() && c[i] == e;
        assert(all[a.len() + b.len() + i] == e);
    }
}

/// The toast shows where the user wants it and there is one, for four seconds.
pub proof fn the_toast_stays_for_four_seconds(app: App)
    ensures
        app.toasts() <==> app.config.clipboard_toast && app.toast_ready,
        crate::toast::VISIBLE_SECS * super::SECOND == 4_000_000_000,
{
}

/// A read-aloud hotkey that was changed is the one in use and the one in the settings,
/// and nothing else has changed.
pub proof fn a_changed_key_is_in_use(
    app: App,
    which: TtsHotkey,
    other: TtsHotkey,
    id: Option<u32>,
    combo: String,
)
    ensures
        ({
            let after = app.with_tts_key(which, id, combo);
            &&& after.tts_id(which) == id && after.tts_combo(which) == combo
            &&& other != which ==> after.tts_id(other) == app.tts_id(other) && after.tts_combo(
                other,
            ) == app.tts_combo(other)
            &&& after.keys.ptt_hotkey_id == app.keys.ptt_hotkey_id && after.config.ptt_key
                == app.config.ptt_key
            &&& after.keys.tts_held == app.keys.tts_held && after.reader == app.reader
                && after.tray_state == app.tray_state
        }),
{
}

/// Every status reaches the popup, with Replay usable exactly if something was read
/// before, and nothing but the popup follows it.
pub proof fn every_status_reaches_the_popup(app: App, status: SpeechStatus, now: u64)
    requires
        now <= super::LAST_TIME,
    ensures
        ({
            let after = app.with_status(status, now);
            &&& after == (App { reader: after.reader, ..app })
            &&& after.reader.popup is Some <==> app.reader.popup is Some
            &&& after.reader.popup matches Some(p) ==> p.visible && (p.can_replay
                <==> app.last_spoken is Some) && (p.can_stop <==> under_way(status))
            &&& after.reader.popup matches Some(p) ==> match status {
                SpeechStatus::Triggered => p.phase == PopupPhase::Triggered,
                SpeechStatus::Generating => p.phase == PopupPhase::Generating,
                SpeechStatus::Speaking => p.phase == PopupPhase::Speaking,
                SpeechStatus::Finished => p.phase == PopupPhase::Finished,
                SpeechStatus::Stopped => p.phase == PopupPhase::Stopped,
                SpeechStatus::Error(_) => p.phase == PopupPhase::Error,
            }
            &&& after.reader.hide_at is Some <==> !under_way(status)
        }),
        app.reader.popup is Some ==> app.status_effects().len() == 1 && (app.status_effects()[0]
            == Effect::DrawPopup || app.status_effects()[0] == Effect::RevealPopup),
        app.reader.popup matches Some(p) ==> (app.status_effects()[0] == Effect::RevealPopup
            <==> !p.visible),
        app.reader.popup is None ==> app.status_effects().len() == 0,
{
}

} // verus!
