//! Settings: every field with its default, the overrides derived from them, and
//! the decisions made around reading and writing `config.toml`.
//!
//! API keys are not here: they live in a separate file (see [`crate::secrets`])
//! so that the settings stay safe to share.

use vstd::prelude::*;

use crate::text::trim;

verus! {

/// The user's settings.
#[derive(Debug, Clone, PartialEq, Eq)]
pub struct Config {
    /// Push-to-talk combination, such as "ctrl+alt+space".
    pub ptt_key: String,
    /// Speech-to-text provider: "deepgram" or "openai".
    pub stt_provider: String,
    /// Model name; blank means the provider's default.
    pub stt_model: String,
    /// Injection strategy: "paste" or "type".
    pub injection_mode: String,
    /// Whether silence is trimmed off a clip before it is transcribed.
    pub vad: bool,
    /// Whether a toast says so when text could only be copied.
    pub clipboard_toast: bool,
    /// Read-aloud backend: "native", "cloud"/"openai" or "deepgram".
    pub tts_backend: String,
    /// Voice name; blank means the backend's default.
    pub tts_voice: String,
    /// Speaking rate in words per minute; 0 means the backend's default.
    pub tts_rate: u32,
    /// Combination that reads the selection aloud.
    pub tts_read_hotkey: String,
    /// Combination that reads the clipboard aloud.
    pub tts_read_clipboard_hotkey: String,
    /// Combination that stops speech.
    pub tts_stop_hotkey: String,
}

/// A settings file as it was found: every field may be absent.
#[derive(Debug, Clone, PartialEq, Eq)]
pub struct PartialConfig {
    pub ptt_key: Option<String>,
    pub stt_provider: Option<String>,
    pub stt_model: Option<String>,
    pub injection_mode: Option<String>,
    pub vad: Option<bool>,
    pub clipboard_toast: Option<bool>,
    pub tts_backend: Option<String>,
    pub tts_voice: Option<String>,
    pub tts_rate: Option<u32>,
    pub tts_read_hotkey: Option<String>,
    pub tts_read_clipboard_hotkey: Option<String>,
    pub tts_stop_hotkey: Option<String>,
}

/// What a [`Config`] holds.
#[verifier::ext_equal]
pub struct ConfigModel {
    pub ptt_key: Seq<char>,
    pub stt_provider: Seq<char>,
    pub stt_model: Seq<char>,
    pub injection_mode: Seq<char>,
    pub vad: bool,
    pub clipboard_toast: bool,
    pub tts_backend: Seq<char>,
    pub tts_voice: Seq<char>,
    pub tts_rate: u32,
    pub tts_read_hotkey: Seq<char>,
    pub tts_read_clipboard_hotkey: Seq<char>,
    pub tts_stop_hotkey: Seq<char>,
}

impl View for Config {
    type V = ConfigModel;

    open spec fn view(&self) -> ConfigModel {
        ConfigModel {
            ptt_key: self.ptt_key@,
            stt_provider: self.stt_provider@,
            stt_model: self.stt_model@,
            injection_mode: self.injection_mode@,
            vad: self.vad,
            clipboard_toast: self.clipboard_toast,
            tts_backend: self.tts_backend@,
            tts_voice: self.tts_voice@,
            tts_rate: self.tts_rate,
            tts_read_hotkey: self.tts_read_hotkey@,
            tts_read_clipboard_hotkey: self.tts_read_clipboard_hotkey@,
            tts_stop_hotkey: self.tts_stop_hotkey@,
        }
    }
}

/// The settings of a first run.
pub open spec fn default_config() -> ConfigModel {
    ConfigModel {
        ptt_key: "ctrl+alt+space"@,
        stt_provider: "deepgram"@,
        stt_model: ""@,
        injection_mode: "paste"@,
        vad: true,
        clipboard_toast: true,
        tts_backend: "native"@,
        tts_voice: ""@,
        tts_rate: 0,
        tts_read_hotkey: "ctrl+alt+r"@,
        tts_read_clipboard_hotkey: "ctrl+alt+c"@,
        tts_stop_hotkey: "ctrl+alt+period"@,
    }
}

/// What `found` holds, or `fallback` where nothing was found.
pub open spec fn text_or(found: Option<String>, fallback: Seq<char>) -> Seq<char> {
    match found {
        Some(s) => s@,
        None => fallback,
    }
}

/// The settings that a file with the fields of `p` stands for: an absent field
/// has its default.
pub open spec fn filled(p: PartialConfig) -> ConfigModel {
    let d = default_config();
    ConfigModel {
        ptt_key: text_or(p.ptt_key, d.ptt_key),
        stt_provider: text_or(p.stt_provider, d.stt_provider),
        stt_model: text_or(p.stt_model, d.stt_model),
        injection_mode: text_or(p.injection_mode, d.injection_mode),
        vad: match p.vad {
            Some(b) => b,
            None => d.vad,
        },
        clipboard_toast: match p.clipboard_toast {
            Some(b) => b,
            None => d.clipboard_toast,
        },
        tts_backend: text_or(p.tts_backend, d.tts_backend),
        tts_voice: text_or(p.tts_voice, d.tts_voice),
        tts_rate: match p.tts_rate {
            Some(n) => n,
            None => d.tts_rate,
        },
        tts_read_hotkey: text_or(p.tts_read_hotkey, d.tts_read_hotkey),
        tts_read_clipboard_hotkey: text_or(
            p.tts_read_clipboard_hotkey,
            d.tts_read_clipboard_hotkey,
        ),
        tts_stop_hotkey: text_or(p.tts_stop_hotkey, d.tts_stop_hotkey),
    }
}

impl Default for Config {
    fn default() -> (r: Self)
        ensures
            r@ == default_config(),
    {
        Config {
            ptt_key: "ctrl+alt+space".to_owned(),
            stt_provider: "deepgram".to_owned(),
            stt_model: "".to_owned(),
            injection_mode: "paste".to_owned(),
            vad: true,
            clipboard_toast: true,
            tts_backend: "native".to_owned(),
            tts_voice: "".to_owned(),
            tts_rate: 0,
            tts_read_hotkey: "ctrl+alt+r".to_owned(),
            tts_read_clipboard_hotkey: "ctrl+alt+c".to_owned(),
            tts_stop_hotkey: "ctrl+alt+period".to_owned(),
        }
    }
}

fn string_or(found: Option<String>, fallback: String) -> (r: String)
    ensures
        r@ == text_or(found, fallback@),
{
    match found {
        Some(s) => s,
        None => fallback,
    }
}

/// `s` without surrounding white space, unless nothing is left.
pub open spec fn override_of(s: Seq<char>) -> Option<Seq<char>> {
    let t = crate::text::trimmed(s);
    if t.len() == 0 {
        None
    } else {
        Some(t)
    }
}

/// What an optional piece of text holds.
pub open spec fn opt_view(o: Option<&str>) -> Option<Seq<char>> {
    match o {
        Some(s) => Some(s@),
        None => None,
    }
}

fn non_blank(s: &str) -> (r: Option<&str>)
    ensures
        opt_view(r) == override_of(s@),
{
    let t = trim(s);
    if t.unicode_len() == 0 {
        None
    } else {
        Some(t)
    }
}

impl Config {
    /// The settings that a file with the fields of `p` stands for.
    pub fn from_partial(p: PartialConfig) -> (r: Config)
        ensures
            r@ == filled(p),
    {
        let d = Config::default();
        Config {
            ptt_key: string_or(p.ptt_key, d.ptt_key),
            stt_provider: string_or(p.stt_provider, d.stt_provider),
            stt_model: string_or(p.stt_model, d.stt_model),
            injection_mode: string_or(p.injection_mode, d.injection_mode),
            vad: match p.vad {
                Some(b) => b,
                None => d.vad,
            },
            clipboard_toast: match p.clipboard_toast {
                Some(b) => b,
                None => d.clipboard_toast,
            },
            tts_backend: string_or(p.tts_backend, d.tts_backend),
            tts_voice: string_or(p.tts_voice, d.tts_voice),
            tts_rate: match p.tts_rate {
                Some(n) => n,
                None => d.tts_rate,
            },
            tts_read_hotkey: string_or(p.tts_read_hotkey, d.tts_read_hotkey),
            tts_read_clipboard_hotkey: string_or(
                p.tts_read_clipboard_hotkey,
                d.tts_read_clipboard_hotkey,
            ),
            tts_stop_hotkey: string_or(p.tts_stop_hotkey, d.tts_stop_hotkey),
        }
    }

    /// A file that names every field.
    pub fn to_partial(&self) -> (r: PartialConfig)
        ensures
            filled(r) == self@,
            r.ptt_key is Some && r.stt_provider is Some && r.stt_model is Some
                && r.injection_mode is Some && r.vad is Some && r.clipboard_toast is Some
                && r.tts_backend is Some && r.tts_voice is Some && r.tts_rate is Some
                && r.tts_read_hotkey is Some && r.tts_read_clipboard_hotkey is Some
                && r.tts_stop_hotkey is Some,
    {
        PartialConfig {
            ptt_key: Some(self.ptt_key.clone()),
            stt_provider: Some(self.stt_provider.clone()),
            stt_model: Some(self.stt_model.clone()),
            injection_mode: Some(self.injection_mode.clone()),
            vad: Some(self.vad),
            clipboard_toast: Some(self.clipboard_toast),
            tts_backend: Some(self.tts_backend.clone()),
            tts_voice: Some(self.tts_voice.clone()),
            tts_rate: Some(self.tts_rate),
            tts_read_hotkey: Some(self.tts_read_hotkey.clone()),
            tts_read_clipboard_hotkey: Some(self.tts_read_clipboard_hotkey.clone()),
            tts_stop_hotkey: Some(self.tts_stop_hotkey.clone()),
        }
    }

    /// The configured model, or `None` for the provider's default.
    pub fn model_override(&self) -> (r: Option<&str>)
        ensures
            opt_view(r) == override_of(self.stt_model@),
    {
        non_blank(self.stt_model.as_str())
    }

    /// The configured voice, or `None` for the backend's default.
    pub fn tts_voice_override(&self) -> (r: Option<&str>)
        ensures
            opt_view(r) == override_of(self.tts_voice@),
    {
        non_blank(self.tts_voice.as_str())
    }

    /// The configured words per minute, or `None` for the backend's default.
    pub fn tts_rate_override(&self) -> (r: Option<u32>)
        ensures
            r == (if self.tts_rate == 0 {
                None
            } else {
                Some(self.tts_rate)
            }),
    {
        if self.tts_rate != 0 {
            Some(self.tts_rate)
        } else {
            None
        }
    }
}

/// Why settings or keys could not be read or written.
#[derive(Debug, PartialEq, Eq)]
pub enum ConfigError {
    /// There is no directory to keep them in.
    Path(String),
    /// The file system refused.
    Io(String),
    /// The file is not valid.
    Parse(String),
    /// The settings could not be written down.
    Serialize(String),
}

/// What a [`ConfigError`] says to the user.
pub open spec fn config_error_text(e: ConfigError) -> Seq<char> {
    match e {
        ConfigError::Path(m) => "config path error: "@ + m@,
        ConfigError::Io(m) => "config i/o error: "@ + m@,
        ConfigError::Parse(m) => "config parse error: "@ + m@,
        ConfigError::Serialize(m) => "config serialize error: "@ + m@,
    }
}

/// `prefix` followed by `rest`.
pub fn prefixed(prefix: &str, rest: &str) -> (r: String)
    ensures
        r@ == prefix@ + rest@,
{
    let mut r = prefix.to_owned();
    r.append(rest);
    r
}

impl ConfigError {
    /// What this error says to the user.
    pub fn message(&self) -> (r: String)
        ensures
            r@ == config_error_text(*self),
    {
        match self {
            ConfigError::Path(m) => prefixed("config path error: ", m.as_str()),
            ConfigError::Io(m) => prefixed("config i/o error: ", m.as_str()),
            ConfigError::Parse(m) => prefixed("config parse error: ", m.as_str()),
            ConfigError::Serialize(m) => prefixed("config serialize error: ", m.as_str()),
        }
    }
}

/// A file in a directory.
#[derive(Debug, Clone, PartialEq, Eq)]
pub struct FileIn<D> {
    pub dir: D,
    pub file: String,
}

/// The file called `file` in `dir`, where there is such a directory.
pub open spec fn located<D>(r: Result<FileIn<D>, ConfigError>, dir: Option<D>, file: Seq<char>) -> bool {
    match dir {
        Some(d) => r matches Ok(f) && f.dir == d && f.file@ == file,
        None => r matches Err(ConfigError::Path(m)) && m@
            == "could not determine a config directory"@,
    }
}

/// `config.toml` in the application's configuration directory, where the
/// platform has one.
pub fn config_path<D>(config_dir: Option<D>) -> (r: Result<FileIn<D>, ConfigError>)
    ensures
        located(r, config_dir, "config.toml"@),
{
    file_in(config_dir, "config.toml")
}

/// `holler.log` in the application's data directory, where the platform has one.
pub fn log_path<D>(data_dir: Option<D>) -> (r: Result<FileIn<D>, ConfigError>)
    ensures
        located(r, data_dir, "holler.log"@),
{
    file_in(data_dir, "holler.log")
}

/// The file called `file` in `dir`, or the error that there is no directory.
pub(crate) fn file_in<D>(dir: Option<D>, file: &str) -> (r: Result<FileIn<D>, ConfigError>)
    ensures
        located(r, dir, file@),
{
    match dir {
        Some(d) => Ok(FileIn { dir: d, file: file.to_owned() }),
        None => Err(ConfigError::Path("could not determine a config directory".to_owned())),
    }
}

/// What was found where the settings file should be.
#[derive(Debug, PartialEq, Eq)]
pub enum FoundConfig {
    /// No file.
    Absent,
    /// A file that could not be read, and why.
    Unreadable(String),
    /// A file that is not valid, and why.
    Malformed(String),
    /// A valid file with these fields.
    Fields(PartialConfig),
}

/// Settings to run with.
#[derive(Debug, PartialEq, Eq)]
pub struct LoadedConfig {
    pub config: Config,
    /// Whether they have to be written to disk now (there was no file).
    pub create: bool,
}

/// The settings to run with. Without a file they are the defaults, which are
/// then to be saved; a file that cannot be read or understood is an error.
pub fn load_or_create(found: FoundConfig) -> (r: Result<LoadedConfig, ConfigError>)
    ensures
        match found {
            FoundConfig::Absent => r matches Ok(l) && l.create && l.config@ == default_config(),
            FoundConfig::Fields(p) => r matches Ok(l) && !l.create && l.config@ == filled(p),
            FoundConfig::Unreadable(m) => r == Err::<LoadedConfig, ConfigError>(ConfigError::Io(m)),
            FoundConfig::Malformed(m) => r == Err::<LoadedConfig, ConfigError>(
                ConfigError::Parse(m),
            ),
        },
{
    match found {
        FoundConfig::Absent => Ok(LoadedConfig { config: Config::default(), create: true }),
        FoundConfig::Unreadable(m) => Err(ConfigError::Io(m)),
        FoundConfig::Malformed(m) => Err(ConfigError::Parse(m)),
        FoundConfig::Fields(p) => Ok(
            LoadedConfig { config: Config::from_partial(p), create: false },
        ),
    }
}

/// Where a save stands: the next thing to do, or how it ended.
#[derive(Debug, PartialEq, Eq)]
pub enum SaveStep {
    /// Create the directory.
    CreateDir,
    /// Write the settings down as text.
    Render,
    /// Write this text to the file.
    Write(String),
    /// The save is over.
    Ended(Result<(), ConfigError>),
}

/// How the thing that a [`SaveStep`] asked for went. `Ok` carries the rendered
/// text for [`SaveStep::Render`] and nothing of interest otherwise.
pub type StepResult = Result<String, String>;

/// The step that follows `step` once it went as `done` says.
pub open spec fn save_follows(step: SaveStep, done: StepResult) -> SaveStep {
    match (step, done) {
        (SaveStep::CreateDir, Ok(_)) => SaveStep::Render,
        (SaveStep::CreateDir, Err(m)) => SaveStep::Ended(Err(ConfigError::Io(m))),
        (SaveStep::Render, Ok(t)) => SaveStep::Write(t),
        (SaveStep::Render, Err(m)) => SaveStep::Ended(Err(ConfigError::Serialize(m))),
        (SaveStep::Write(_), Ok(_)) => SaveStep::Ended(Ok(())),
        (SaveStep::Write(_), Err(m)) => SaveStep::Ended(Err(ConfigError::Io(m))),
        (SaveStep::Ended(r), _) => SaveStep::Ended(r),
    }
}

/// The first step of a save to `path`; without a path the save ends at once.
pub fn save<D>(path: Result<FileIn<D>, ConfigError>) -> (r: SaveStep)
    ensures
        r == (match path {
            Ok(_) => SaveStep::CreateDir,
            Err(e) => SaveStep::Ended(Err(e)),
        }),
{
    match path {
        Ok(_) => SaveStep::CreateDir,
        Err(e) => SaveStep::Ended(Err(e)),
    }
}

/// The step that follows `step`, once it went as `done` says.
pub fn save_next(step: SaveStep, done: StepResult) -> (r: SaveStep)
    ensures
        r == save_follows(step, done),
{
    match step {
        SaveStep::CreateDir => match done {
            Ok(_) => SaveStep::Render,
            Err(m) => SaveStep::Ended(Err(ConfigError::Io(m))),
        },
        SaveStep::Render => match done {
            Ok(t) => SaveStep::Write(t),
            Err(m) => SaveStep::Ended(Err(ConfigError::Serialize(m))),
        },
        SaveStep::Write(_) => match done {
            Ok(_) => SaveStep::Ended(Ok(())),
            Err(m) => SaveStep::Ended(Err(ConfigError::Io(m))),
        },
        SaveStep::Ended(r) => SaveStep::Ended(r),
    }
}

/// A save that ends well has written the text that was rendered, and nothing is
/// written unless the directory was made and the settings were rendered.
pub proof fn save_writes_what_was_rendered(made: StepResult, text: StepResult, wrote: StepResult)
    ensures
        ({
            let second = save_follows(SaveStep::CreateDir, made);
            let third = save_follows(second, text);
            let last = save_follows(third, wrote);
            &&& third is Write <==> made is Ok && text is Ok
            &&& third matches SaveStep::Write(t) ==> text == Ok::<String, String>(t)
            &&& last is Ended
            &&& last == SaveStep::Ended(Ok(())) <==> made is Ok && text is Ok && wrote is Ok
        }),
{
}

/// A file that names every field is read as exactly those settings, whatever
/// the defaults are.
pub proof fn full_file_ignores_defaults(p: PartialConfig, c: Config)
    requires
        p.ptt_key == Some(c.ptt_key),
        p.stt_provider == Some(c.stt_provider),
        p.stt_model == Some(c.stt_model),
        p.injection_mode == Some(c.injection_mode),
        p.vad == Some(c.vad),
        p.clipboard_toast == Some(c.clipboard_toast),
        p.tts_backend == Some(c.tts_backend),
        p.tts_voice == Some(c.tts_voice),
        p.tts_rate == Some(c.tts_rate),
        p.tts_read_hotkey == Some(c.tts_read_hotkey),
        p.tts_read_clipboard_hotkey == Some(c.tts_read_clipboard_hotkey),
        p.tts_stop_hotkey == Some(c.tts_stop_hotkey),
    ensures
        filled(p) == c@,
{
}

/// A text overrides a default exactly if it has a character that is not white space,
/// and then by what trimming leaves of it.
pub proof fn any_ink_overrides_the_default(s: Seq<char>)
    ensures
        override_of(s) is None <==> crate::text::is_blank(s),
        override_of(s) matches Some(t) ==> t == crate::text::trimmed(s) && !crate::text::is_blank(
            t,
        ),
{
    crate::text::trimmed_is_empty_iff_blank(s);
    crate::text::trimmed_is_stable(s);
    crate::text::trimmed_is_empty_iff_blank(crate::text::trimmed(s));
}

/// A text that was found is used, and the fallback only where none was.
pub proof fn what_was_found_is_used(found: Option<String>, fallback: Seq<char>)
    ensures
        found matches Some(s) ==> text_or(found, fallback) == s@,
        found is None ==> text_or(found, fallback) == fallback,
{
}

/// The settings without a file: dictation with Ctrl+Alt+Space through Deepgram's
/// default model, pasted, without silence, told of on the clipboard; reading with the
/// system's voice.
pub proof fn the_defaults_are_the_documented_ones()
    ensures
        default_config().ptt_key == "ctrl+alt+space"@,
        default_config().stt_provider == "deepgram"@,
        default_config().stt_model == Seq::<char>::empty(),
        default_config().injection_mode == "paste"@,
        default_config().vad && default_config().clipboard_toast,
        default_config().tts_backend == "native"@,
        default_config().tts_voice == Seq::<char>::empty(),
        default_config().tts_rate == 0,
        default_config().tts_read_hotkey == "ctrl+alt+r"@,
        default_config().tts_read_clipboard_hotkey == "ctrl+alt+c"@,
        default_config().tts_stop_hotkey == "ctrl+alt+period"@,
{
    reveal_strlit("");
    assert(""@ =~= Seq::<char>::empty());
}

/// Each setting that a file has is the one that is used, and no setting of the file
/// touches another: two files that agree in a setting agree in what comes of it.
pub proof fn each_setting_stands_for_itself(p: PartialConfig, q: PartialConfig)
    ensures
        p.ptt_key matches Some(s) ==> filled(p).ptt_key == s@,
        p.stt_provider matches Some(s) ==> filled(p).stt_provider == s@,
        p.stt_model matches Some(s) ==> filled(p).stt_model == s@,
        p.injection_mode matches Some(s) ==> filled(p).injection_mode == s@,
        p.vad matches Some(b) ==> filled(p).vad == b,
        p.clipboard_toast matches Some(b) ==> filled(p).clipboard_toast == b,
        p.tts_backend matches Some(s) ==> filled(p).tts_backend == s@,
        p.tts_voice matches Some(s) ==> filled(p).tts_voice == s@,
        p.tts_rate matches Some(n) ==> filled(p).tts_rate == n,
        p.tts_read_hotkey matches Some(s) ==> filled(p).tts_read_hotkey == s@,
        p.tts_read_clipboard_hotkey matches Some(s) ==> filled(p).tts_read_clipboard_hotkey == s@,
        p.tts_stop_hotkey matches Some(s) ==> filled(p).tts_stop_hotkey == s@,
        p.ptt_key is None ==> filled(p).ptt_key == default_config().ptt_key,
        p.stt_provider is None ==> filled(p).stt_provider == default_config().stt_provider,
        p.stt_model is None ==> filled(p).stt_model == default_config().stt_model,
        p.injection_mode is None ==> filled(p).injection_mode == default_config().injection_mode,
        p.vad is None ==> filled(p).vad == default_config().vad,
        p.clipboard_toast is None ==> filled(p).clipboard_toast
            == default_config().clipboard_toast,
        p.tts_backend is None ==> filled(p).tts_backend == default_config().tts_backend,
        p.tts_voice is None ==> filled(p).tts_voice == default_config().tts_voice,
        p.tts_rate is None ==> filled(p).tts_rate == default_config().tts_rate,
        p.tts_read_hotkey is None ==> filled(p).tts_read_hotkey
            == default_config().tts_read_hotkey,
        p.tts_read_clipboard_hotkey is None ==> filled(p).tts_read_clipboard_hotkey
            == default_config().tts_read_clipboard_hotkey,
        p.tts_stop_hotkey is None ==> filled(p).tts_stop_hotkey
            == default_config().tts_stop_hotkey,
{
}

/// Saving succeeds exactly if each of its steps does, in order: the directory, the
/// text, the file; the first that fails is the error.
pub proof fn saving_needs_every_step(dir: StepResult, render: StepResult, write: StepResult)
    ensures
        ({
            let after_dir = save_follows(SaveStep::CreateDir, dir);
            let after_render = save_follows(after_dir, render);
            let end = save_follows(after_render, write);
            &&& end is Ended
            &&& end == SaveStep::Ended(Ok(())) <==> dir is Ok && render is Ok && write is Ok
            &&& dir matches Err(m) ==> end == SaveStep::Ended(Err(ConfigError::Io(m)))
            &&& dir is Ok && render is Err ==> end == SaveStep::Ended(
                Err(ConfigError::Serialize(render->Err_0)),
            )
            &&& dir is Ok && render is Ok && write is Err ==> end == SaveStep::Ended(
                Err(ConfigError::Io(write->Err_0)),
            )
        }),
{
}

/// A file is in the directory that was found, under its name; without a directory
/// there is none.
pub proof fn a_file_is_in_its_directory<D>(
    r: Result<FileIn<D>, ConfigError>,
    dir: Option<D>,
    file: Seq<char>,
)
    requires
        located(r, dir, file),
    ensures
        r is Ok <==> dir is Some,
        r matches Ok(f) ==> dir == Some(f.dir) && f.file@ == file,
        r matches Err(e) ==> e is Path,
{
}

/// Two settings that look the same are the same in every field.
pub proof fn settings_are_told_apart_by_every_field(a: Config, b: Config)
    ensures
        a@ == b@ <==> {
            &&& a.ptt_key@ == b.ptt_key@
            &&& a.stt_provider@ == b.stt_provider@ && a.stt_model@ == b.stt_model@
            &&& a.injection_mode@ == b.injection_mode@
            &&& a.vad == b.vad && a.clipboard_toast == b.clipboard_toast
            &&& a.tts_backend@ == b.tts_backend@ && a.tts_voice@ == b.tts_voice@ && a.tts_rate
                == b.tts_rate
            &&& a.tts_read_hotkey@ == b.tts_read_hotkey@ && a.tts_read_clipboard_hotkey@
                == b.tts_read_clipboard_hotkey@ && a.tts_stop_hotkey@ == b.tts_stop_hotkey@
        },
{
}

/// Each error is told by what failed and why.
pub proof fn errors_are_told_by_what_failed(m: String)
    ensures
        config_error_text(ConfigError::Path(m)) == "config path error: "@ + m@,
        config_error_text(ConfigError::Io(m)) == "config i/o error: "@ + m@,
        config_error_text(ConfigError::Parse(m)) == "config parse error: "@ + m@,
        config_error_text(ConfigError::Serialize(m)) == "config serialize error: "@ + m@,
{
}

} // verus!
