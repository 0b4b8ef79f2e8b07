//! How the application comes up, and its tray menu.

use vstd::prelude::*;

use super::{one, App, Effect, HotkeyState, PopupHost, Tooltip};
use crate::permissions::Platform;
use crate::ptt::{parse_ptt_key, try_parse_ptt_key, HotKey};
use crate::status_popup::StatusPopup;
use crate::ui::{TtsHotkey, UiState};

verus! {

/// An entry of the tray menu, besides the prompts of
/// [`App::rebuild_grant_block`] at its top.
#[derive(Debug, Clone, Copy, PartialEq, Eq, Structural)]
pub enum MenuEntry {
    Settings,
    EditConfig,
    OpenHistory,
    ReadClipboard,
    Replay,
    StopSpeaking,
    Quit,
    Separator,
    GrantAccessibility,
    GrantMicrophone,
}

/// What an entry says. A separator says nothing.
pub open spec fn entry_label(entry: MenuEntry) -> Seq<char> {
    match entry {
        MenuEntry::Settings => "Settings\u{2026}"@,
        MenuEntry::EditConfig => "Edit Settings (config.toml)\u{2026}"@,
        MenuEntry::OpenHistory => "Open History Folder\u{2026}"@,
        MenuEntry::ReadClipboard => "Read Clipboard Aloud"@,
        MenuEntry::Replay => "Replay Last Reading"@,
        MenuEntry::StopSpeaking => "Stop Speaking"@,
        MenuEntry::Quit => "Quit Holler"@,
        MenuEntry::Separator => ""@,
        MenuEntry::GrantAccessibility => "Grant Accessibility Access\u{2026}"@,
        MenuEntry::GrantMicrophone => "Grant Microphone Access\u{2026}"@,
    }
}

impl MenuEntry {
    /// What this entry says. A separator says nothing.
    pub fn label(self) -> (r: &'static str)
        ensures
            r@ == entry_label(self),
    {
        match self {
            MenuEntry::Settings => "Settings\u{2026}",
            MenuEntry::EditConfig => "Edit Settings (config.toml)\u{2026}",
            MenuEntry::OpenHistory => "Open History Folder\u{2026}",
            MenuEntry::ReadClipboard => "Read Clipboard Aloud",
            MenuEntry::Replay => "Replay Last Reading",
            MenuEntry::StopSpeaking => "Stop Speaking",
            MenuEntry::Quit => "Quit Holler",
            MenuEntry::Separator => "",
            MenuEntry::GrantAccessibility => "Grant Accessibility Access\u{2026}",
            MenuEntry::GrantMicrophone => "Grant Microphone Access\u{2026}",
        }
    }
}

/// The entries that the tray menu always has, from top to bottom.
pub fn menu_entries() -> (r: Vec<MenuEntry>)
    ensures
        r@ == seq![
            MenuEntry::Settings,
            MenuEntry::EditConfig,
            MenuEntry::OpenHistory,
            MenuEntry::Separator,
            MenuEntry::ReadClipboard,
            MenuEntry::Replay,
            MenuEntry::StopSpeaking,
            MenuEntry::Separator,
            MenuEntry::Quit,
        ],
{
    let r = vec![
        MenuEntry::Settings,
        MenuEntry::EditConfig,
        MenuEntry::OpenHistory,
        MenuEntry::Separator,
        MenuEntry::ReadClipboard,
        MenuEntry::Replay,
        MenuEntry::StopSpeaking,
        MenuEntry::Separator,
        MenuEntry::Quit,
    ];
    assert(r@ =~= seq![
        MenuEntry::Settings,
        MenuEntry::EditConfig,
        MenuEntry::OpenHistory,
        MenuEntry::Separator,
        MenuEntry::ReadClipboard,
        MenuEntry::Replay,
        MenuEntry::StopSpeaking,
        MenuEntry::Separator,
        MenuEntry::Quit,
    ]);
    r
}

/// What choosing an entry asks for.
#[derive(Debug, Clone, Copy, PartialEq, Eq, Structural)]
pub enum MenuChoice {
    Nothing,
    Exit,
    /// Bring the settings window, which is open, to the front.
    FocusSettings,
    /// Open the settings window, then [`App::settings_opened`].
    OpenSettings,
    /// Open the settings file with its default program.
    OpenConfigFile,
    /// Open the folder of the history with its default program.
    OpenHistoryFolder,
    /// Read the clipboard, then [`App::read_clipboard_aloud`].
    ReadClipboard,
    /// [`App::replay_last`].
    Replay,
    /// [`App::stop_read_aloud`].
    StopReading,
    /// Open the system's Accessibility settings.
    OpenAccessibilitySettings,
    /// Open the system's microphone settings.
    OpenMicrophoneSettings,
}

/// What choosing an entry asks for, with the settings window open or not.
pub open spec fn menu_choice(entry: MenuEntry, settings_open: bool) -> MenuChoice {
    match entry {
        MenuEntry::Settings => if settings_open {
            MenuChoice::FocusSettings
        } else {
            MenuChoice::OpenSettings
        },
        MenuEntry::EditConfig => MenuChoice::OpenConfigFile,
        MenuEntry::OpenHistory => MenuChoice::OpenHistoryFolder,
        MenuEntry::ReadClipboard => MenuChoice::ReadClipboard,
        MenuEntry::Replay => MenuChoice::Replay,
        MenuEntry::StopSpeaking => MenuChoice::StopReading,
        MenuEntry::Quit => MenuChoice::Exit,
        MenuEntry::Separator => MenuChoice::Nothing,
        MenuEntry::GrantAccessibility => MenuChoice::OpenAccessibilitySettings,
        MenuEntry::GrantMicrophone => MenuChoice::OpenMicrophoneSettings,
    }
}

/// The program that opens a file or folder as the user is used to.
pub fn opener(platform: Platform) -> (r: &'static str)
    ensures
        r@ == (match platform {
            Platform::MacOs => "open"@,
            Platform::Windows => "explorer"@,
            Platform::Other => "xdg-open"@,
        }),
{
    match platform {
        Platform::MacOs => "open",
        Platform::Windows => "explorer",
        Platform::Other => "xdg-open",
    }
}

/// The hotkeys that could be registered.
#[derive(Debug, Clone, Copy, PartialEq, Eq, Structural)]
pub struct Registered {
    pub ptt: Option<u32>,
    pub read: Option<u32>,
    pub clipboard: Option<u32>,
    pub stop: Option<u32>,
}

/// The number of a read-aloud hotkey after an attempt to register it. Without one
/// the hotkey does nothing; the tray menu still does.
pub fn register_tts_hotkey(
    parsed: &Result<(HotKey, String), String>,
    registered: bool,
) -> (r: Option<u32>)
    ensures
        r == (match *parsed {
            Ok((hotkey, _)) => if registered {
                Some(hotkey.id)
            } else {
                None
            },
            Err(_) => None,
        }),
{
    match parsed {
        Ok((hotkey, _)) => {
            if registered {
                Some(hotkey.id)
            } else {
                None
            }
        },
        Err(_) => None,
    }
}

impl HotkeyState {
    /// The state with these hotkeys registered.
    pub open spec fn with_registered(self, keys: Registered) -> HotkeyState {
        HotkeyState {
            ptt_hotkey_id: keys.ptt,
            tts_read_hotkey_id: keys.read,
            tts_read_clipboard_hotkey_id: keys.clipboard,
            tts_stop_hotkey_id: keys.stop,
            ..self
        }
    }

    fn register(&mut self, keys: Registered)
        ensures
            *final(self) == old(self).with_registered(keys),
    {
        self.ptt_hotkey_id = keys.ptt;
        self.tts_read_hotkey_id = keys.read;
        self.tts_read_clipboard_hotkey_id = keys.clipboard;
        self.tts_stop_hotkey_id = keys.stop;
    }
}

impl App {
    /// Begins to come up: the push-to-talk hotkey to register. The tray icon is
    /// built once, so a second call does nothing.
    pub fn begin_init(&mut self) -> (r: Option<HotKey>)
        ensures
            r is Some <==> !old(self).tray_built,
            r is None ==> *final(self) == *old(self),
            r matches Some(hotkey) ==> crate::ptt::is_read(
                old(self).config.ptt_key@,
                (crate::ptt::hotkey_model(hotkey), final(self).ptt_label@),
            ) && *final(self) == (App {
                tray_built: true,
                ptt_label: final(self).ptt_label,
                ..*old(self)
            }),
    {
        if self.tray_built {
            return None;
        }
        let (hotkey, label) = parse_ptt_key(self.config.ptt_key.as_str());
        self.ptt_label = label;
        self.tray_built = true;
        Some(hotkey)
    }

    /// The configured hotkey for a read-aloud action, to be registered; see
    /// [`register_tts_hotkey`].
    pub fn tts_trigger(&self, which: TtsHotkey) -> (r: Result<(HotKey, String), String>)
        ensures
            crate::ptt::is_tried(
                super::combo_for(self.config, which)@,
                crate::ptt::labelled_outcome(r),
            ),
    {
        match which {
            TtsHotkey::ReadSelection => try_parse_ptt_key(self.config.tts_read_hotkey.as_str()),
            TtsHotkey::ReadClipboard => try_parse_ptt_key(
                self.config.tts_read_clipboard_hotkey.as_str(),
            ),
            TtsHotkey::Stop => try_parse_ptt_key(self.config.tts_stop_hotkey.as_str()),
        }
    }

    /// Ends coming up: `keys` are the hotkeys that could be registered (`None` if
    /// hotkeys are not to be had at all), the flags say which windows could be
    /// made. None of this failing keeps the application from running.
    pub fn finish_init(
        &mut self,
        keys: Option<Registered>,
        overlay: bool,
        toast: bool,
        popup: bool,
    ) -> (r: Vec<Effect>)
        requires
            old(self).wf(),
        ensures
            final(self).wf(),
            r@ == (if keys is Some && keys->0.ptt is None {
                seq![Effect::SetTooltip(Tooltip::PttUnavailable)]
            } else {
                Seq::empty()
            }),
            match final(self).reader.popup {
                Some(p) => popup && !p.visible && p.phase
                    == crate::status_popup::Phase::Triggered && p.frame == 0 && !p.inside
                    && !p.can_replay && !p.can_stop,
                None => !popup,
            },
            *final(self) == (App {
                hotkeys_ready: keys is Some,
                keys: match keys {
                    Some(k) => old(self).keys.with_registered(k),
                    None => old(self).keys,
                },
                overlay_ready: overlay,
                toast_ready: toast,
                reader: PopupHost {
                    popup: final(self).reader.popup,
                    hide_at: old(self).reader.hide_at,
                },
                voice_ready: true,
                ..*old(self)
            }),
    {
        let mut r: Vec<Effect> = Vec::new();
        self.hotkeys_ready = keys.is_some();
        match keys {
            Some(k) => {
                self.keys.register(k);
                if k.ptt.is_none() {
                    r = one(Effect::SetTooltip(Tooltip::PttUnavailable));
                }
            },
            None => {},
        }
        self.overlay_ready = overlay;
        self.toast_ready = toast;
        self.reader.popup = if popup {
            Some(StatusPopup::create())
        } else {
            None
        };
        self.voice_ready = true;
        r
    }

    /// An entry of the tray menu was chosen.
    pub fn menu_chosen(&self, entry: MenuEntry) -> (r: MenuChoice)
        ensures
            r == menu_choice(entry, self.settings is Some),
    {
        match entry {
            MenuEntry::Settings => if self.settings.is_some() {
                MenuChoice::FocusSettings
            } else {
                MenuChoice::OpenSettings
            },
            MenuEntry::EditConfig => MenuChoice::OpenConfigFile,
            MenuEntry::OpenHistory => MenuChoice::OpenHistoryFolder,
            MenuEntry::ReadClipboard => MenuChoice::ReadClipboard,
            MenuEntry::Replay => MenuChoice::Replay,
            MenuEntry::StopSpeaking => MenuChoice::StopReading,
            MenuEntry::Quit => MenuChoice::Exit,
            MenuEntry::Separator => MenuChoice::Nothing,
            MenuEntry::GrantAccessibility => MenuChoice::OpenAccessibilitySettings,
            MenuEntry::GrantMicrophone => MenuChoice::OpenMicrophoneSettings,
        }
    }

    /// The settings window was opened, or could not be.
    pub fn settings_opened(&mut self, window: Option<UiState>) -> (r: Vec<Effect>)
        ensures
            *final(self) == (App { settings: window, ..*old(self) }),
            r@ == (if window is None {
                seq![Effect::SetTooltip(Tooltip::SettingsFailed)]
            } else {
                Seq::empty()
            }),
    {
        let failed = window.is_none();
        self.settings = window;
        if failed {
            one(Effect::SetTooltip(Tooltip::SettingsFailed))
        } else {
            Vec::new()
        }
    }

    /// The settings window was closed. Nothing of it stays.
    pub fn settings_closed(&mut self)
        ensures
            *final(self) == (App { settings: None, settings_repaint_at: None, ..*old(self) }),
    {
        self.settings = None;
        self.settings_repaint_at = None;
    }

    /// Begins to read the selection aloud, with what the system allows now. See
    /// [`App::wants_injector`] and [`App::selection_captured`] for what follows.
    pub fn read_selection_aloud(&mut self, accessibility: bool)
        ensures
            *final(self) == (App { accessibility_ok: accessibility, ..*old(self) }),
    {
        self.accessibility_ok = accessibility;
    }
}

// ---- Laws ------------------------------------------------------------------

/// Each entry of the menu asks for what it says, and only the entry that says so ends
/// the application.
pub proof fn entries_do_what_they_say(entry: MenuEntry, open: bool)
    ensures
        menu_choice(entry, open) == MenuChoice::Exit <==> entry_label(entry) == "Quit Holler"@,
        menu_choice(entry, open) == MenuChoice::Nothing <==> entry_label(entry) == ""@,
        menu_choice(entry, open) == MenuChoice::OpenSettings <==> entry_label(entry)
            == "Settings\u{2026}"@ && !open,
        menu_choice(entry, open) == MenuChoice::FocusSettings <==> entry_label(entry)
            == "Settings\u{2026}"@ && open,
        menu_choice(entry, open) == MenuChoice::OpenConfigFile <==> entry_label(entry)
            == "Edit Settings (config.toml)\u{2026}"@,
        menu_choice(entry, open) == MenuChoice::OpenHistoryFolder <==> entry_label(entry)
            == "Open History Folder\u{2026}"@,
        menu_choice(entry, open) == MenuChoice::ReadClipboard <==> entry_label(entry)
            == "Read Clipboard Aloud"@,
        menu_choice(entry, open) == MenuChoice::Replay <==> entry_label(entry)
            == "Replay Last Reading"@,
        menu_choice(entry, open) == MenuChoice::StopReading <==> entry_label(entry)
            == "Stop Speaking"@,
        menu_choice(entry, open) == MenuChoice::OpenAccessibilitySettings <==> entry_label(entry)
            == "Grant Accessibility Access\u{2026}"@,
        menu_choice(entry, open) == MenuChoice::OpenMicrophoneSettings <==> entry_label(entry)
            == "Grant Microphone Access\u{2026}"@,
{
    reveal_strlit("Quit Holler");
    reveal_strlit("");
    reveal_strlit("Settings\u{2026}");
    reveal_strlit("Edit Settings (config.toml)\u{2026}");
    reveal_strlit("Open History Folder\u{2026}");
    reveal_strlit("Read Clipboard Aloud");
    reveal_strlit("Replay Last Reading");
    reveal_strlit("Stop Speaking");
    reveal_strlit("Grant Accessibility Access\u{2026}");
    reveal_strlit("Grant Microphone Access\u{2026}");
    assert("Quit Holler"@.len() == 11 && ""@.len() == 0 && "Settings\u{2026}"@.len() == 9);
    assert("Edit Settings (config.toml)\u{2026}"@.len() == 28);
    assert("Open History Folder\u{2026}"@.len() == 20);
    assert("Read Clipboard Aloud"@.len() == 20 && "Replay Last Reading"@.len() == 19);
    assert("Open History Folder\u{2026}"@[0] != "Read Clipboard Aloud"@[0]);
    assert("Stop Speaking"@.len() == 13);
    assert("Grant Accessibility Access\u{2026}"@.len() == 27);
    assert("Grant Microphone Access\u{2026}"@.len() == 24);
}

/// A hotkey that was registered as the application came up does what it was
/// registered for when it is first pressed; one that could not be does nothing.
pub proof fn registered_keys_work(s: HotkeyState, keys: Registered, id: u32)
    requires
        s.is_fresh(),
    ensures
        ({
            let r = s.with_registered(keys).decision(id, true);
            &&& keys.read == Some(id) ==> r == super::HotkeyDecision::ReadSelection
            &&& keys.clipboard == Some(id) && keys.read != Some(id) ==> r
                == super::HotkeyDecision::ReadClipboard
            &&& keys.stop == Some(id) && keys.read != Some(id) && keys.clipboard != Some(id) ==> r
                == super::HotkeyDecision::StopReading
            &&& keys.ptt == Some(id) && keys.read != Some(id) && keys.clipboard != Some(id)
                && keys.stop != Some(id) ==> r == super::HotkeyDecision::OpenMic
            &&& keys.ptt != Some(id) && keys.read != Some(id) && keys.clipboard != Some(id)
                && keys.stop != Some(id) ==> r == super::HotkeyDecision::Ignored
        }),
{
}

} // verus!
