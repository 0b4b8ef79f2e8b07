//! Read-aloud: the interface that a voice has, the configured backend, the
//! requests to the cloud voices and what becomes of their replies.

use vstd::prelude::*;

use crate::config::{prefixed, Config, ConfigError};
use crate::secrets::{load_secret, store_secret, SecretTable};
use crate::stt::{api_failure_text, HttpStatus};
use crate::text::{self, blank, same, to_ascii_lowercase, to_decimal, trim};

verus! {

/// How far an utterance has come.
#[derive(Debug, Clone, Copy, PartialEq, Eq, Structural)]
pub enum SpeakPhase {
    /// Audio is being generated.
    Synthesizing,
    /// Audio is being played.
    Playing,
}

/// Encoded audio, synthesized ahead of being played.
#[derive(Debug, PartialEq, Eq)]
pub struct PreparedAudio(Vec<u8>);

impl View for PreparedAudio {
    type V = Seq<u8>;

    closed spec fn view(&self) -> Seq<u8> {
        self.0@
    }
}

impl PreparedAudio {
    /// Wraps encoded audio.
    pub fn new(bytes: Vec<u8>) -> (r: PreparedAudio)
        ensures
            r@ == bytes@,
    {
        PreparedAudio(bytes)
    }

    /// The encoded audio.
    pub fn as_bytes(&self) -> (r: &[u8])
        ensures
            r@ == self@,
    {
        self.0.as_slice()
    }
}

/// Something that is told how far an utterance has come.
pub trait PhaseListener {
    fn on_phase(&self, phase: SpeakPhase);
}

/// A voice.
pub trait TtsProvider: Send + Sync {
    /// Speaks `text`, and returns when that is over. `listener` hears of each
    /// phase. Blank text is a silent success and has no phase.
    fn speak(&self, text: &str, listener: &dyn PhaseListener) -> (r: Result<(), TtsError>);

    /// Stops speech at once; without any it does nothing.
    fn stop(&self) -> (r: Result<(), TtsError>);

    /// A short name.
    fn name(&self) -> (r: &str);

    /// Whether audio can be synthesized apart from being played.
    fn can_prefetch(&self) -> (r: bool)
        default_ensures
            !r,
    {
        false
    }

    /// Synthesizes `text` without playing it.
    fn prepare(&self, text: &str) -> (r: Result<PreparedAudio, TtsError>)
        default_ensures
            r matches Err(TtsError::Unsupported(m)) && m@ == CANNOT_PREPARE@,
    {
        Err(TtsError::Unsupported(CANNOT_PREPARE.to_owned()))
    }

    /// Plays what [`TtsProvider::prepare`] made.
    fn play_prepared(&self, audio: PreparedAudio, listener: &dyn PhaseListener) -> (r: Result<
        (),
        TtsError,
    >)
        default_ensures
            r matches Err(TtsError::Unsupported(m)) && m@ == CANNOT_PLAY_PREPARED@,
    {
        Err(TtsError::Unsupported(CANNOT_PLAY_PREPARED.to_owned()))
    }
}

/// Which voice the settings ask for.
#[derive(Debug, Clone, Copy, PartialEq, Eq, Structural, Default)]
pub enum TtsBackend {
    /// The offline system voice.
    #[default]
    Native,
    /// OpenAI.
    OpenAi,
    /// Deepgram Aura.
    Deepgram,
}

/// The backend that a settings value names; an unknown value means `Native`, and
/// "cloud" means OpenAI.
pub open spec fn backend_named(s: Seq<char>) -> TtsBackend {
    let name = text::lower(text::trimmed(s));
    if name == "cloud"@ || name == "openai"@ {
        TtsBackend::OpenAi
    } else if name == "deepgram"@ {
        TtsBackend::Deepgram
    } else {
        TtsBackend::Native
    }
}

impl TtsBackend {
    /// The backend that a settings value names.
    pub fn from_config(s: &str) -> (r: TtsBackend)
        ensures
            r == backend_named(s@),
    {
        let name = to_ascii_lowercase(trim(s));
        if same(name.as_str(), "cloud") || same(name.as_str(), "openai") {
            TtsBackend::OpenAi
        } else if same(name.as_str(), "deepgram") {
            TtsBackend::Deepgram
        } else {
            TtsBackend::Native
        }
    }
}

/// Why text could not be spoken.
#[derive(Debug, PartialEq, Eq)]
pub enum TtsError {
    /// No API key is configured for this provider.
    MissingKey(String),
    /// The platform's speech engine could not be reached.
    Engine(String),
    /// The request itself failed.
    Http(String),
    /// The API answered with an error.
    Api(String),
    /// The audio could not be played.
    Playback(String),
    /// The backend does not work on this platform.
    Unsupported(String),
}

/// What a [`TtsError`] says to the user.
pub open spec fn tts_error_text(e: TtsError) -> Seq<char> {
    match e {
        TtsError::MissingKey(m) => "no API key configured for "@ + m@,
        TtsError::Engine(m) => "speech engine error: "@ + m@,
        TtsError::Http(m) => "request failed: "@ + m@,
        TtsError::Api(m) => "tts API error: "@ + m@,
        TtsError::Playback(m) => "playback failed: "@ + m@,
        TtsError::Unsupported(m) => "tts not supported here: "@ + m@,
    }
}

impl TtsError {
    /// What this error says to the user.
    pub fn message(&self) -> (r: String)
        ensures
            r@ == tts_error_text(*self),
    {
        match self {
            TtsError::MissingKey(m) => prefixed("no API key configured for ", m.as_str()),
            TtsError::Engine(m) => prefixed("speech engine error: ", m.as_str()),
            TtsError::Http(m) => prefixed("request failed: ", m.as_str()),
            TtsError::Api(m) => prefixed("tts API error: ", m.as_str()),
            TtsError::Playback(m) => prefixed("playback failed: ", m.as_str()),
            TtsError::Unsupported(m) => prefixed("tts not supported here: ", m.as_str()),
        }
    }
}

// ---- Keys ------------------------------------------------------------------

/// The text of the key file once `secret` is stored for `account`; see
/// [`store_secret`].
pub fn store_key(
    account: &str,
    secret: &str,
    stored: Result<SecretTable, ConfigError>,
) -> (r: Result<String, ConfigError>)
    ensures
        r matches Ok(s) && crate::secrets::is_file_for(
            s@,
            crate::secrets::table_with(crate::secrets::table_if_read(stored), account@, secret@),
        ),
{
    store_secret(account, secret, stored)
}

/// The key for `account`; see [`load_secret`].
pub fn load_key(
    account: &str,
    env: Option<String>,
    stored: &Result<SecretTable, ConfigError>,
) -> (r: Option<String>)
    ensures
        crate::secrets::opt(r) == crate::secrets::resolved_key(
            crate::secrets::opt(env),
            crate::secrets::table_key(crate::secrets::table_if_read(*stored), account@),
        ),
{
    load_secret(account, env, stored)
}

// ---- Speaking --------------------------------------------------------------

/// What an utterance asks for next.
#[derive(Debug, PartialEq, Eq)]
pub enum SpeakStep {
    /// Report [`SpeakPhase::Synthesizing`] and request the audio.
    Synthesize,
    /// Request the audio, without a phase to report: it cannot be played.
    Probe,
    /// Report [`SpeakPhase::Playing`] and play this audio.
    Play(Vec<u8>),
    /// The utterance is over.
    Done(Result<(), TtsError>),
}

pub const PLAYBACK_UNSUPPORTED: &'static str = "cloud TTS playback is implemented for macOS only in this build";

pub const NATIVE_UNSUPPORTED: &'static str = "native TTS is implemented for macOS only in this build";

/// Whether an utterance ends with [`TtsError::Unsupported`] and this message.
pub open spec fn ends_unsupported(step: SpeakStep, message: Seq<char>) -> bool {
    step matches SpeakStep::Done(Err(TtsError::Unsupported(m))) && m@ == message
}

/// Whether an utterance ends well.
pub open spec fn ends_well(step: SpeakStep) -> bool {
    step matches SpeakStep::Done(Ok(_))
}

fn unsupported(message: &str) -> (r: SpeakStep)
    ensures
        ends_unsupported(r, message@),
{
    SpeakStep::Done(Err(TtsError::Unsupported(message.to_owned())))
}

/// What follows once audio was requested: a request that failed ends the
/// utterance; a stop in the meantime ends it in silence; else the audio plays.
pub open spec fn after_synthesis(
    stop_requested: bool,
    audio: Result<Vec<u8>, TtsError>,
) -> SpeakStep {
    match audio {
        Err(e) => SpeakStep::Done(Err(e)),
        Ok(bytes) => if stop_requested {
            SpeakStep::Done(Ok(()))
        } else {
            SpeakStep::Play(bytes)
        },
    }
}

fn synthesized_step(stop_requested: bool, audio: Result<Vec<u8>, TtsError>) -> (r: SpeakStep)
    ensures
        r == after_synthesis(stop_requested, audio),
{
    match audio {
        Err(e) => SpeakStep::Done(Err(e)),
        Ok(bytes) => {
            if stop_requested {
                SpeakStep::Done(Ok(()))
            } else {
                SpeakStep::Play(bytes)
            }
        },
    }
}

pub const CANNOT_PREPARE: &'static str = "this backend cannot pre-synthesize audio";

pub const CANNOT_PLAY_PREPARED: &'static str = "this backend cannot play pre-synthesized audio";

/// Whether `r` is `audio`, ready to be played, or the error in its place. Where audio
/// cannot be played, none is prepared.
pub open spec fn is_prepared(
    r: Result<PreparedAudio, TtsError>,
    audio: Result<Vec<u8>, TtsError>,
    can_play: bool,
) -> bool {
    if !can_play {
        r matches Err(TtsError::Unsupported(m)) && m@ == CANNOT_PREPARE@
    } else {
        match audio {
            Ok(b) => r matches Ok(p) && p@ == b@,
            Err(e) => r == Err::<PreparedAudio, TtsError>(e),
        }
    }
}

fn prepared(audio: Result<Vec<u8>, TtsError>, can_play: bool) -> (r: Result<
    PreparedAudio,
    TtsError,
>)
    ensures
        is_prepared(r, audio, can_play),
{
    if !can_play {
        return Err(TtsError::Unsupported(CANNOT_PREPARE.to_owned()));
    }
    match audio {
        Ok(b) => Ok(PreparedAudio::new(b)),
        Err(e) => Err(e),
    }
}

/// How a request for audio ended.
#[derive(Debug, PartialEq, Eq)]
pub enum AudioReply {
    /// There was no reply.
    Failed(String),
    /// The reply reports an error; `message` is the server's, where the body has
    /// one.
    Refused { status: HttpStatus, body: String, message: Option<String> },
    /// The reply reports success.
    Audio(Vec<u8>),
}

/// What the server says of an error, or the raw body where that has no message.
pub fn parse_api_error(body: String, message: Option<String>) -> (r: String)
    ensures
        r@ == crate::config::text_or(message, body@),
{
    match message {
        Some(m) => m,
        None => body,
    }
}

/// The audio in a reply. An empty reply is an error.
pub fn audio_in(reply: AudioReply) -> (r: Result<Vec<u8>, TtsError>)
    ensures
        match reply {
            AudioReply::Failed(m) => r == Err::<Vec<u8>, TtsError>(TtsError::Http(m)),
            AudioReply::Refused { status, body, message } => r matches Err(TtsError::Api(m)) && m@
                == crate::stt::api_failure(
                status.line@,
                crate::config::text_or(message, body@),
            ),
            AudioReply::Audio(bytes) => if bytes@.len() == 0 {
                r matches Err(TtsError::Playback(m)) && m@ == "empty audio response"@
            } else {
                r == Ok::<Vec<u8>, TtsError>(bytes)
            },
        },
{
    match reply {
        AudioReply::Failed(m) => Err(TtsError::Http(m)),
        AudioReply::Refused { status, body, message } => {
            let said = parse_api_error(body, message);
            Err(TtsError::Api(api_failure_text(status.line.as_str(), said.as_str())))
        },
        AudioReply::Audio(bytes) => {
            if bytes.len() == 0 {
                Err(TtsError::Playback("empty audio response".to_owned()))
            } else {
                Ok(bytes)
            }
        },
    }
}

// ---- Request bodies --------------------------------------------------------

/// The bytes that `serde_json::to_vec` makes of an object with these string
/// members. A later member of one name replaces an earlier one.
pub uninterp spec fn json_object(members: Seq<(Seq<char>, Seq<char>)>) -> Seq<u8>;

/// What a list of pairs of strings holds.
pub open spec fn members_view(list: Seq<(String, String)>) -> Seq<(Seq<char>, Seq<char>)> {
    list.map_values(|p: (String, String)| (p.0@, p.1@))
}

/// `serde_json::to_vec` on an object with string members, which does not fail.
#[verifier::external_body]
fn json_to_vec(members: &Vec<(String, String)>) -> (r: Result<Vec<u8>, String>)
    ensures
        r is Ok,
        r matches Ok(b) ==> b@ == json_object(members_view(members@)),
{
    let object: serde_json::Map<String, serde_json::Value> = members.iter().map(
        |p| (p.0.clone(), serde_json::Value::String(p.1.clone())),
    ).collect();
    serde_json::to_vec(&object).map_err(|e| e.to_string())
}

/// Whether `r` is the encoded object.
pub open spec fn is_body(
    r: Result<Vec<u8>, TtsError>,
    members: Seq<(Seq<char>, Seq<char>)>,
) -> bool {
    r matches Ok(v) && v@ == json_object(members)
}

fn json_body(members: &Vec<(String, String)>) -> (r: Result<Vec<u8>, TtsError>)
    ensures
        is_body(r, members_view(members@)),
{
    match json_to_vec(members) {
        Ok(b) => Ok(b),
        Err(m) => Err(TtsError::Playback(m)),
    }
}

/// `s` without surrounding white space, or `fallback` if nothing is left.
pub open spec fn nonblank_or(s: Option<String>, fallback: Seq<char>) -> Seq<char> {
    match s {
        Some(t) => match crate::config::override_of(t@) {
            Some(u) => u,
            None => fallback,
        },
        None => fallback,
    }
}

fn nonblank_or_default(s: Option<String>, fallback: &str) -> (r: String)
    ensures
        r@ == nonblank_or(s, fallback@),
{
    match s {
        Some(t) => {
            let u = trim(t.as_str());
            if u.unicode_len() == 0 {
                fallback.to_owned()
            } else {
                u.to_owned()
            }
        },
        None => fallback.to_owned(),
    }
}

// ---- OpenAI ----------------------------------------------------------------

/// The OpenAI voice.
#[derive(Debug, PartialEq, Eq)]
pub struct OpenAiTts {
    pub api_key: String,
    pub model: String,
    pub voice: String,
    /// Whether the utterance under way is to stop.
    pub stop_requested: bool,
}

impl OpenAiTts {
    pub const ENDPOINT: &'static str = "https://api.openai.com/v1/audio/speech";

    pub const DEFAULT_MODEL: &'static str = "gpt-4o-mini-tts";

    pub const DEFAULT_VOICE: &'static str = "alloy";

    pub const RESPONSE_FORMAT: &'static str = "wav";

    pub const KEY_ACCOUNT: &'static str = "openai";

    /// A voice with a key; a blank voice name means the default one.
    pub fn new(api_key: String, model: String, voice: Option<String>) -> (r: OpenAiTts)
        ensures
            r.api_key == api_key,
            r.model == model,
            r.voice@ == nonblank_or(voice, OpenAiTts::DEFAULT_VOICE@),
            !r.stop_requested,
    {
        OpenAiTts {
            api_key,
            model,
            voice: nonblank_or_default(voice, OpenAiTts::DEFAULT_VOICE),
            stop_requested: false,
        }
    }

    /// A voice with the stored key, if there is one; see [`load_key`].
    pub fn from_stored_key(
        model: String,
        voice: Option<String>,
        stored: Option<String>,
    ) -> (r: Result<OpenAiTts, TtsError>)
        ensures
            match stored {
                Some(k) => r matches Ok(p) && p.api_key == k && p.model == model && p.voice@
                    == nonblank_or(voice, OpenAiTts::DEFAULT_VOICE@) && !p.stop_requested,
                None => r matches Err(TtsError::MissingKey(a)) && a@ == OpenAiTts::KEY_ACCOUNT@,
            },
    {
        match stored {
            Some(k) => Ok(OpenAiTts::new(k, model, voice)),
            None => Err(TtsError::MissingKey(OpenAiTts::KEY_ACCOUNT.to_owned())),
        }
    }

    /// The members of the request for `text`.
    pub open spec fn request_members(self, text: Seq<char>) -> Seq<(Seq<char>, Seq<char>)> {
        seq![
            ("model"@, self.model@),
            ("voice"@, self.voice@),
            ("input"@, text),
            ("response_format"@, OpenAiTts::RESPONSE_FORMAT@),
        ]
    }

    /// The members of the request for `text`.
    pub fn request_body(&self, text: &str) -> (r: Vec<(String, String)>)
        ensures
            members_view(r@) == self.request_members(text@),
    {
        let mut r: Vec<(String, String)> = Vec::new();
        r.push(("model".to_owned(), self.model.clone()));
        r.push(("voice".to_owned(), self.voice.clone()));
        r.push(("input".to_owned(), text.to_owned()));
        r.push(("response_format".to_owned(), OpenAiTts::RESPONSE_FORMAT.to_owned()));
        assert(members_view(r@) =~= self.request_members(text@));
        r
    }

    /// The encoded request for `text`, posted to [`OpenAiTts::ENDPOINT`] with the
    /// key as bearer token.
    pub fn request(&self, text: &str) -> (r: Result<Vec<u8>, TtsError>)
        ensures
            is_body(r, self.request_members(text@)),
    {
        let members = self.request_body(text);
        json_body(&members)
    }

    /// Begins to speak `text`, forgetting an earlier stop. `can_play` says
    /// whether audio can be played on this platform.
    pub fn speak(&mut self, text: &str, can_play: bool) -> (r: SpeakStep)
        ensures
            !final(self).stop_requested,
            final(self).api_key == old(self).api_key && final(self).model == old(self).model
                && final(self).voice == old(self).voice,
            text::is_blank(text@) ==> ends_well(r),
            !text::is_blank(text@) ==> r == (if can_play {
                SpeakStep::Synthesize
            } else {
                SpeakStep::Probe
            }),
    {
        self.stop_requested = false;
        if blank(text) {
            SpeakStep::Done(Ok(()))
        } else if can_play {
            SpeakStep::Synthesize
        } else {
            SpeakStep::Probe
        }
    }

    /// Goes on once the audio was requested. Where audio cannot be played, an
    /// answer only shows that the request works.
    pub fn synthesized(&self, audio: Result<Vec<u8>, TtsError>, can_play: bool) -> (r: SpeakStep)
        ensures
            can_play ==> r == after_synthesis(self.stop_requested, audio),
            !can_play ==> match audio {
                Err(e) => r == SpeakStep::Done(Err(e)),
                Ok(_) => ends_unsupported(r, PLAYBACK_UNSUPPORTED@),
            },
    {
        if can_play {
            synthesized_step(self.stop_requested, audio)
        } else {
            match audio {
                Err(e) => SpeakStep::Done(Err(e)),
                Ok(_) => unsupported(PLAYBACK_UNSUPPORTED),
            }
        }
    }

    /// Whether audio can be synthesized ahead: where it can be played.
    pub fn can_prefetch(&self, can_play: bool) -> (r: bool)
        ensures
            r == can_play,
    {
        can_play
    }

    /// Audio synthesized ahead of being played: what a request for it came to. Where
    /// audio cannot be played, nothing needs to be requested.
    pub fn prepare(&self, audio: Result<Vec<u8>, TtsError>, can_play: bool) -> (r: Result<
        PreparedAudio,
        TtsError,
    >)
        ensures
            is_prepared(r, audio, can_play),
    {
        prepared(audio, can_play)
    }

    /// Begins to play audio synthesized ahead, forgetting an earlier stop. Where audio
    /// cannot be played, nothing changes.
    pub fn play_prepared(&mut self, audio: &PreparedAudio, can_play: bool) -> (r: SpeakStep)
        ensures
            can_play ==> *final(self) == (OpenAiTts { stop_requested: false, ..*old(self) }) && (
            r matches SpeakStep::Play(b) && b@ == audio@),
            !can_play ==> *final(self) == *old(self) && ends_unsupported(r, CANNOT_PLAY_PREPARED@),
    {
        if !can_play {
            return unsupported(CANNOT_PLAY_PREPARED);
        }
        self.stop_requested = false;
        SpeakStep::Play(bytes_of(audio))
    }

    /// Asks the utterance under way to stop.
    pub fn stop(&mut self) -> (r: Result<(), TtsError>)
        ensures
            r is Ok,
            final(self).stop_requested,
            final(self).api_key == old(self).api_key && final(self).model == old(self).model
                && final(self).voice == old(self).voice,
    {
        self.stop_requested = true;
        Ok(())
    }

    /// The voice's short name.
    pub fn name(&self) -> (r: &'static str)
        ensures
            r@ == "openai"@,
    {
        "openai"
    }
}

// ---- Deepgram --------------------------------------------------------------

/// The Deepgram Aura voice.
#[derive(Debug, PartialEq, Eq)]
pub struct DeepgramTts {
    pub api_key: String,
    /// Voice and model in one identifier, such as "aura-2-thalia-en".
    pub model: String,
    /// Whether the utterance under way is to stop.
    pub stop_requested: bool,
}

/// What Deepgram says of a failed request, as far as it can be read.
#[derive(Debug, PartialEq, Eq)]
pub struct DeepgramSaid {
    pub err_msg: Option<String>,
    pub reason: Option<String>,
    pub message: Option<String>,
}

/// The first of the three that is there.
pub open spec fn first_said(s: DeepgramSaid) -> Option<String> {
    if s.err_msg is Some {
        s.err_msg
    } else if s.reason is Some {
        s.reason
    } else {
        s.message
    }
}

impl DeepgramSaid {
    /// The message to show, if there is one.
    pub fn first(self) -> (r: Option<String>)
        ensures
            r == first_said(self),
    {
        if self.err_msg.is_some() {
            self.err_msg
        } else if self.reason.is_some() {
            self.reason
        } else {
            self.message
        }
    }
}

impl DeepgramTts {
    pub const ENDPOINT: &'static str = "https://api.deepgram.com/v1/speak";

    pub const DEFAULT_MODEL: &'static str = "aura-2-thalia-en";

    pub const KEY_ACCOUNT: &'static str = "deepgram";

    pub const ENCODING: &'static str = "linear16";

    pub const CONTAINER: &'static str = "wav";

    pub const SAMPLE_RATE: u32 = 24_000;

    /// A voice with a key; a blank model means the default one.
    pub fn new(api_key: String, model: Option<String>) -> (r: DeepgramTts)
        ensures
            r.api_key == api_key,
            r.model@ == nonblank_or(model, DeepgramTts::DEFAULT_MODEL@),
            !r.stop_requested,
    {
        DeepgramTts {
            api_key,
            model: nonblank_or_default(model, DeepgramTts::DEFAULT_MODEL),
            stop_requested: false,
        }
    }

    /// A voice with the stored key, if there is one; see [`load_key`].
    pub fn from_stored_key(model: Option<String>, stored: Option<String>) -> (r: Result<
        DeepgramTts,
        TtsError,
    >)
        ensures
            match stored {
                Some(k) => r matches Ok(p) && p.api_key == k && p.model@ == nonblank_or(
                    model,
                    DeepgramTts::DEFAULT_MODEL@,
                ) && !p.stop_requested,
                None => r matches Err(TtsError::MissingKey(a)) && a@ == DeepgramTts::KEY_ACCOUNT@,
            },
    {
        match stored {
            Some(k) => Ok(DeepgramTts::new(k, model)),
            None => Err(TtsError::MissingKey(DeepgramTts::KEY_ACCOUNT.to_owned())),
        }
    }

    /// Where a request is posted to.
    pub fn request_url(&self) -> (r: String)
        ensures
            r@ == DeepgramTts::ENDPOINT@ + "?model="@ + self.model@ + "&encoding="@
                + DeepgramTts::ENCODING@ + "&container="@ + DeepgramTts::CONTAINER@
                + "&sample_rate="@ + text::decimal(DeepgramTts::SAMPLE_RATE as nat),
    {
        let mut r = prefixed(DeepgramTts::ENDPOINT, "?model=");
        r.append(self.model.as_str());
        r.append("&encoding=");
        r.append(DeepgramTts::ENCODING);
        r.append("&container=");
        r.append(DeepgramTts::CONTAINER);
        r.append("&sample_rate=");
        r.append(to_decimal(DeepgramTts::SAMPLE_RATE as u64).as_str());
        r
    }

    /// The value of the authorization header.
    pub fn authorization(&self) -> (r: String)
        ensures
            r@ == "Token "@ + self.api_key@,
    {
        prefixed("Token ", self.api_key.as_str())
    }

    /// The encoded request for `text`.
    pub fn request(&self, text: &str) -> (r: Result<Vec<u8>, TtsError>)
        ensures
            is_body(r, seq![("text"@, text@)]),
    {
        let mut members: Vec<(String, String)> = Vec::new();
        members.push(("text".to_owned(), text.to_owned()));
        assert(members_view(members@) =~= seq![("text"@, text@)]);
        json_body(&members)
    }

    /// Begins to speak `text`, forgetting an earlier stop. Where audio cannot be
    /// played on this platform, nothing is requested.
    pub fn speak(&mut self, text: &str, can_play: bool) -> (r: SpeakStep)
        ensures
            !final(self).stop_requested,
            final(self).api_key == old(self).api_key && final(self).model == old(self).model,
            text::is_blank(text@) ==> ends_well(r),
            !text::is_blank(text@) && can_play ==> r == SpeakStep::Synthesize,
            !text::is_blank(text@) && !can_play ==> ends_unsupported(r, PLAYBACK_UNSUPPORTED@),
    {
        self.stop_requested = false;
        if blank(text) {
            SpeakStep::Done(Ok(()))
        } else if can_play {
            SpeakStep::Synthesize
        } else {
            unsupported(PLAYBACK_UNSUPPORTED)
        }
    }

    /// Goes on once the audio was requested.
    pub fn synthesized(&self, audio: Result<Vec<u8>, TtsError>) -> (r: SpeakStep)
        ensures
            r == after_synthesis(self.stop_requested, audio),
    {
        synthesized_step(self.stop_requested, audio)
    }

    /// Whether audio can be synthesized ahead: where it can be played.
    pub fn can_prefetch(&self, can_play: bool) -> (r: bool)
        ensures
            r == can_play,
    {
        can_play
    }

    /// Audio synthesized ahead of being played: what a request for it came to. Where
    /// audio cannot be played, nothing needs to be requested.
    pub fn prepare(&self, audio: Result<Vec<u8>, TtsError>, can_play: bool) -> (r: Result<
        PreparedAudio,
        TtsError,
    >)
        ensures
            is_prepared(r, audio, can_play),
    {
        prepared(audio, can_play)
    }

    /// Begins to play audio synthesized ahead, forgetting an earlier stop. Where audio
    /// cannot be played, nothing changes.
    pub fn play_prepared(&mut self, audio: &PreparedAudio, can_play: bool) -> (r: SpeakStep)
        ensures
            can_play ==> *final(self) == (DeepgramTts { stop_requested: false, ..*old(self) }) && (
            r matches SpeakStep::Play(b) && b@ == audio@),
            !can_play ==> *final(self) == *old(self) && ends_unsupported(r, CANNOT_PLAY_PREPARED@),
    {
        if !can_play {
            return unsupported(CANNOT_PLAY_PREPARED);
        }
        self.stop_requested = false;
        SpeakStep::Play(bytes_of(audio))
    }

    /// Asks the utterance under way to stop.
    pub fn stop(&mut self) -> (r: Result<(), TtsError>)
        ensures
            r is Ok,
            final(self).stop_requested,
            final(self).api_key == old(self).api_key && final(self).model == old(self).model,
    {
        self.stop_requested = true;
        Ok(())
    }

    /// The voice's short name.
    pub fn name(&self) -> (r: &'static str)
        ensures
            r@ == "deepgram"@,
    {
        "deepgram"
    }
}

fn bytes_of(audio: &PreparedAudio) -> (r: Vec<u8>)
    ensures
        r@ == audio@,
{
    let src = audio.as_bytes();
    let mut r: Vec<u8> = Vec::new();
    let mut i: usize = 0;
    while i < src.len()
        invariant
            i <= src@.len(),
            r@ == src@.take(i as int),
        decreases src@.len() - i,
    {
        r.push(src[i]);
        assert(src@.take(i + 1) =~= src@.take(i as int).push(src@[i as int]));
        i = i + 1;
    }
    assert(src@.take(src@.len() as int) =~= src@);
    r
}

// ---- The system voice ------------------------------------------------------

/// The offline system voice.
#[derive(Debug, PartialEq, Eq)]
pub struct NativeTts {
    /// A named voice, or `None` for the system's default.
    pub voice: Option<String>,
    /// Words per minute, or `None` for the system's default.
    pub rate: Option<u32>,
}

/// What the system voice does with a text.
#[derive(Debug, PartialEq, Eq)]
pub enum NativeStep {
    /// Run the `say` program with these arguments and wait for it.
    Run(Vec<String>),
    /// There is nothing to do, or nothing that can be done.
    Done(Result<(), TtsError>),
}

impl Default for NativeTts {
    fn default() -> (r: Self)
        ensures
            r.voice is None && r.rate is None,
    {
        NativeTts { voice: None, rate: None }
    }
}

impl NativeTts {
    /// A voice; a blank name means the system's default.
    pub fn new(voice: Option<String>, rate: Option<u32>) -> (r: NativeTts)
        ensures
            r.rate == rate,
            match voice {
                Some(v) => crate::secrets::opt(r.voice) == crate::config::override_of(v@),
                None => r.voice is None,
            },
    {
        let named: Option<String> = match voice {
            Some(v) => {
                let t = trim(v.as_str());
                if t.unicode_len() == 0 {
                    None
                } else {
                    Some(t.to_owned())
                }
            },
            None => None,
        };
        NativeTts { voice: named, rate }
    }

    /// The arguments with which `say` speaks `text`.
    pub open spec fn arguments(self, text: Seq<char>) -> Seq<Seq<char>> {
        (match self.voice {
            Some(v) => seq!["-v"@, v@],
            None => Seq::<Seq<char>>::empty(),
        }) + (match self.rate {
            Some(n) => seq!["-r"@, text::decimal(n as nat)],
            None => Seq::<Seq<char>>::empty(),
        }) + seq!["--"@, text]
    }

    /// What to do to speak `text`. `can_speak` says whether there is a system
    /// voice on this platform.
    pub fn speak(&self, text: &str, can_speak: bool) -> (r: NativeStep)
        ensures
            text::is_blank(text@) ==> (r matches NativeStep::Done(d) && d is Ok),
            !text::is_blank(text@) && can_speak ==> (r matches NativeStep::Run(a) && text::views(a@)
                == self.arguments(text@)),
            !text::is_blank(text@) && !can_speak ==> (r matches NativeStep::Done(
                Err(TtsError::Unsupported(m)),
            ) && m@ == NATIVE_UNSUPPORTED@),
    {
        if blank(text) {
            return NativeStep::Done(Ok(()));
        }
        if !can_speak {
            return NativeStep::Done(Err(TtsError::Unsupported(NATIVE_UNSUPPORTED.to_owned())));
        }
        let mut args: Vec<String> = Vec::new();
        match &self.voice {
            Some(v) => {
                args.push("-v".to_owned());
                args.push(v.clone());
            },
            None => {},
        }
        match self.rate {
            Some(n) => {
                args.push("-r".to_owned());
                args.push(to_decimal(n as u64));
            },
            None => {},
        }
        args.push("--".to_owned());
        args.push(text.to_owned());
        assert(text::views(args@) =~= self.arguments(text@));
        NativeStep::Run(args)
    }

    /// The voice's short name.
    pub fn name(&self) -> (r: &'static str)
        ensures
            r@ == "native"@,
    {
        "native"
    }
}

// ---- Choosing a voice ------------------------------------------------------

/// The backend that is used, once it is known which keys there are.
#[derive(Debug, Clone, Copy, PartialEq, Eq, Structural)]
pub enum ResolvedBackend {
    Native,
    OpenAi,
    Deepgram,
}

/// The configured backend, if its key is there; else the system voice.
pub open spec fn resolved(
    backend: TtsBackend,
    openai_key: bool,
    deepgram_key: bool,
) -> ResolvedBackend {
    match backend {
        TtsBackend::OpenAi => if openai_key {
            ResolvedBackend::OpenAi
        } else {
            ResolvedBackend::Native
        },
        TtsBackend::Deepgram => if deepgram_key {
            ResolvedBackend::Deepgram
        } else {
            ResolvedBackend::Native
        },
        TtsBackend::Native => ResolvedBackend::Native,
    }
}

/// The backend to use for `cfg`. A cloud backend without its key degrades to the
/// system voice.
pub fn resolve_backend(cfg: &Config, openai_key: bool, deepgram_key: bool) -> (r: ResolvedBackend)
    ensures
        r == resolved(backend_named(cfg.tts_backend@), openai_key, deepgram_key),
{
    match TtsBackend::from_config(cfg.tts_backend.as_str()) {
        TtsBackend::OpenAi => if openai_key {
            ResolvedBackend::OpenAi
        } else {
            ResolvedBackend::Native
        },
        TtsBackend::Deepgram => if deepgram_key {
            ResolvedBackend::Deepgram
        } else {
            ResolvedBackend::Native
        },
        TtsBackend::Native => ResolvedBackend::Native,
    }
}

/// The stored keys of the cloud voices; see [`load_key`].
#[derive(Debug, PartialEq, Eq)]
pub struct VoiceKeys {
    pub openai: Option<String>,
    pub deepgram: Option<String>,
}

/// A voice that is ready to speak.
#[derive(Debug, PartialEq, Eq)]
pub enum Voice {
    Native(NativeTts),
    OpenAi(OpenAiTts),
    Deepgram(DeepgramTts),
}

/// Whether `v` is the system voice with the configured name and rate.
pub open spec fn is_native_for(v: Voice, cfg: Config) -> bool {
    v matches Voice::Native(n) && crate::secrets::opt(n.voice) == crate::config::override_of(
        cfg.tts_voice@,
    ) && n.rate == (if cfg.tts_rate == 0 {
        None::<u32>
    } else {
        Some(cfg.tts_rate)
    })
}

/// What a configured voice name stands for, given a default.
pub open spec fn voice_or(cfg: Config, fallback: Seq<char>) -> Seq<char> {
    match crate::config::override_of(cfg.tts_voice@) {
        Some(v) => v,
        None => fallback,
    }
}

/// Whether `v` is the voice for `cfg`. The backend is chosen by the keys that were
/// found first; a key that is gone when the voice is built leaves the system voice.
pub open spec fn is_voice_for(v: Voice, cfg: Config, first: VoiceKeys, again: VoiceKeys) -> bool {
    match resolved(
        backend_named(cfg.tts_backend@),
        first.openai is Some,
        first.deepgram is Some,
    ) {
        ResolvedBackend::OpenAi => match again.openai {
            Some(k) => v matches Voice::OpenAi(p) && p.api_key == k && p.model@
                == OpenAiTts::DEFAULT_MODEL@ && p.voice@ == voice_or(
                cfg,
                OpenAiTts::DEFAULT_VOICE@,
            ) && !p.stop_requested,
            None => is_native_for(v, cfg),
        },
        ResolvedBackend::Deepgram => match again.deepgram {
            Some(k) => v matches Voice::Deepgram(p) && p.api_key == k && p.model@ == voice_or(
                cfg,
                DeepgramTts::DEFAULT_MODEL@,
            ) && !p.stop_requested,
            None => is_native_for(v, cfg),
        },
        ResolvedBackend::Native => is_native_for(v, cfg),
    }
}

/// The configured voice name, as an owned string.
fn voice_override(cfg: &Config) -> (r: Option<String>)
    ensures
        crate::secrets::opt(r) == crate::config::override_of(cfg.tts_voice@),
{
    match cfg.tts_voice_override() {
        Some(v) => Some(v.to_owned()),
        None => None,
    }
}

proof fn lemma_override_idempotent(s: Seq<char>)
    ensures
        crate::config::override_of(s) matches Some(t) ==> crate::config::override_of(t) == Some(t),
{
    text::trimmed_is_stable(s);
}

/// The voice for `cfg`: always one that can be used. `first` are the keys by
/// which the backend is chosen, `again` those with which it is built.
pub fn build_tts(cfg: &Config, first: &VoiceKeys, again: VoiceKeys) -> (r: Voice)
    ensures
        is_voice_for(r, *cfg, *first, again),
        r matches Voice::OpenAi(p) ==> p.voice@ == (if text::is_blank(cfg.tts_voice@) {
            "alloy"@
        } else {
            text::trimmed(cfg.tts_voice@)
        }),
        r matches Voice::Deepgram(p) ==> p.model@ == (if text::is_blank(cfg.tts_voice@) {
            "aura-2-thalia-en"@
        } else {
            text::trimmed(cfg.tts_voice@)
        }),
        r matches Voice::Native(n) ==> (match n.voice {
            Some(v) => v@ == text::trimmed(cfg.tts_voice@) && !text::is_blank(cfg.tts_voice@),
            None => text::is_blank(cfg.tts_voice@),
        }),
{
    let voice = voice_override(cfg);
    let rate = cfg.tts_rate_override();
    proof {
        lemma_override_idempotent(cfg.tts_voice@);
        text::trimmed_is_empty_iff_blank(cfg.tts_voice@);
    }
    match resolve_backend(cfg, first.openai.is_some(), first.deepgram.is_some()) {
        ResolvedBackend::OpenAi => match OpenAiTts::from_stored_key(
            OpenAiTts::DEFAULT_MODEL.to_owned(),
            voice.clone(),
            again.openai,
        ) {
            Ok(p) => Voice::OpenAi(p),
            Err(_) => Voice::Native(NativeTts::new(voice, rate)),
        },
        ResolvedBackend::Deepgram => match DeepgramTts::from_stored_key(
            voice.clone(),
            again.deepgram,
        ) {
            Ok(p) => Voice::Deepgram(p),
            Err(_) => Voice::Native(NativeTts::new(voice, rate)),
        },
        ResolvedBackend::Native => Voice::Native(NativeTts::new(voice, rate)),
    }
}

impl Voice {
    /// The voice's short name.
    pub fn name(&self) -> (r: &'static str)
        ensures
            r@ == (match self {
                Voice::Native(_) => "native"@,
                Voice::OpenAi(_) => "openai"@,
                Voice::Deepgram(_) => "deepgram"@,
            }),
    {
        match self {
            Voice::Native(v) => v.name(),
            Voice::OpenAi(v) => v.name(),
            Voice::Deepgram(v) => v.name(),
        }
    }
}

// ---- Laws ------------------------------------------------------------------

/// Whatever is configured, a voice without its key is the system voice, and a
/// cloud voice is chosen only if it was asked for and has its key.
pub proof fn cloud_voice_needs_its_key(
    backend: TtsBackend,
    openai_key: bool,
    deepgram_key: bool,
)
    ensures
        resolved(backend, openai_key, deepgram_key) == ResolvedBackend::OpenAi <==> backend
            == TtsBackend::OpenAi && openai_key,
        resolved(backend, openai_key, deepgram_key) == ResolvedBackend::Deepgram <==> backend
            == TtsBackend::Deepgram && deepgram_key,
        resolved(backend, false, false) == ResolvedBackend::Native,
{
}

/// A stop while audio is being requested keeps it from being played.
pub proof fn stop_suppresses_playback(audio: Result<Vec<u8>, TtsError>)
    ensures
        after_synthesis(true, audio) is Done,
{
}

/// A cloud voice speaks with exactly the voice that the settings name, whatever it
/// is; with the default one only where they name none. The key is the one that was
/// found, and a cloud voice comes only where its backend was asked for.
pub proof fn the_configured_voice_is_used(
    v: Voice,
    cfg: Config,
    first: VoiceKeys,
    again: VoiceKeys,
)
    requires
        is_voice_for(v, cfg, first, again),
    ensures
        v matches Voice::OpenAi(p) ==> {
            &&& !text::is_blank(cfg.tts_voice@) ==> p.voice@ == text::trimmed(cfg.tts_voice@)
            &&& text::is_blank(cfg.tts_voice@) ==> p.voice@ == "alloy"@
            &&& again.openai == Some(p.api_key)
            &&& p.model@ == "gpt-4o-mini-tts"@
            &&& crate::inject::is_spelled(cfg.tts_backend@, "openai"@)
                || crate::inject::is_spelled(cfg.tts_backend@, "cloud"@)
        },
        v matches Voice::Deepgram(p) ==> {
            &&& !text::is_blank(cfg.tts_voice@) ==> p.model@ == text::trimmed(cfg.tts_voice@)
            &&& text::is_blank(cfg.tts_voice@) ==> p.model@ == "aura-2-thalia-en"@
            &&& again.deepgram == Some(p.api_key)
            &&& crate::inject::is_spelled(cfg.tts_backend@, "deepgram"@)
        },
        v matches Voice::Native(n) ==> {
            &&& text::is_blank(cfg.tts_voice@) ==> n.voice is None
            &&& !text::is_blank(cfg.tts_voice@) ==> (n.voice matches Some(s) && s@ == text::trimmed(
                cfg.tts_voice@,
            ))
            &&& cfg.tts_rate == 0 ==> n.rate is None
            &&& cfg.tts_rate != 0 ==> n.rate == Some(cfg.tts_rate)
        },
{
    text::trimmed_is_empty_iff_blank(cfg.tts_voice@);
    the_settings_name_the_backend(cfg.tts_backend@);
}

/// With its key there, the backend that the settings name is the one that speaks.
pub proof fn the_configured_backend_is_used(
    v: Voice,
    cfg: Config,
    first: VoiceKeys,
    again: VoiceKeys,
)
    requires
        is_voice_for(v, cfg, first, again),
    ensures
        crate::inject::is_spelled(cfg.tts_backend@, "openai"@) && first.openai is Some
            && again.openai is Some ==> v is OpenAi,
        crate::inject::is_spelled(cfg.tts_backend@, "cloud"@) && first.openai is Some
            && again.openai is Some ==> v is OpenAi,
        crate::inject::is_spelled(cfg.tts_backend@, "deepgram"@) && first.deepgram is Some
            && again.deepgram is Some ==> v is Deepgram,
        crate::inject::is_spelled(cfg.tts_backend@, "native"@) ==> v is Native,
        first.openai is None && first.deepgram is None ==> v is Native,
{
    the_settings_name_the_backend(cfg.tts_backend@);
}

/// However it is spelled, a settings value names the backend that it says, and the
/// system voice otherwise.
pub proof fn the_settings_name_the_backend(s: Seq<char>)
    ensures
        backend_named(s) == TtsBackend::OpenAi <==> crate::inject::is_spelled(s, "openai"@)
            || crate::inject::is_spelled(s, "cloud"@),
        backend_named(s) == TtsBackend::Deepgram <==> crate::inject::is_spelled(s, "deepgram"@),
        crate::inject::is_spelled(s, "native"@) ==> backend_named(s) == TtsBackend::Native,
{
    reveal_strlit("openai");
    reveal_strlit("cloud");
    reveal_strlit("deepgram");
    reveal_strlit("native");
    crate::inject::lemma_spelling(text::trimmed(s), "openai"@);
    crate::inject::lemma_spelling(text::trimmed(s), "cloud"@);
    crate::inject::lemma_spelling(text::trimmed(s), "deepgram"@);
    crate::inject::lemma_spelling(text::trimmed(s), "native"@);
    assert("openai"@[0] != "native"@[0]);
    assert("cloud"@.len() != "native"@.len() && "deepgram"@.len() != "native"@.len());
    assert("deepgram"@.len() != "openai"@.len() && "deepgram"@.len() != "cloud"@.len());
}

/// Audio that came is played as it came, unless a stop was asked for meanwhile; a
/// request that failed ends with its own error, stop or not.
pub proof fn audio_that_came_is_played(stop: bool, audio: Result<Vec<u8>, TtsError>)
    ensures
        audio matches Ok(bytes) ==> !stop ==> after_synthesis(stop, audio) == SpeakStep::Play(
            bytes,
        ),
        audio is Ok && stop ==> after_synthesis(stop, audio) == SpeakStep::Done(Ok(())),
        audio matches Err(e) ==> after_synthesis(stop, audio) == SpeakStep::Done(Err(e)),
{
}

/// A name that is given and not blank is used without the white space around it;
/// otherwise the default is.
pub proof fn a_given_name_is_used(s: Option<String>, fallback: Seq<char>)
    ensures
        s matches Some(t) ==> !text::is_blank(t@) ==> nonblank_or(s, fallback) == text::trimmed(t@),
        s matches Some(t) ==> text::is_blank(t@) ==> nonblank_or(s, fallback) == fallback,
        s is None ==> nonblank_or(s, fallback) == fallback,
{
    match s {
        Some(t) => {
            text::trimmed_is_empty_iff_blank(t@);
        },
        None => {},
    }
}

/// A request carries the text as it is, with the voice's own model and name, and asks
/// for WAV.
pub proof fn a_request_carries_the_text(p: OpenAiTts, text: Seq<char>)
    ensures
        p.request_members(text).len() == 4,
        p.request_members(text).contains(("input"@, text)),
        p.request_members(text).contains(("model"@, p.model@)),
        p.request_members(text).contains(("voice"@, p.voice@)),
        p.request_members(text).contains(("response_format"@, "wav"@)),
{
    let m = p.request_members(text);
    assert(m[0] == ("model"@, p.model@));
    assert(m[1] == ("voice"@, p.voice@));
    assert(m[2] == ("input"@, text));
    assert(m[3] == ("response_format"@, "wav"@));
}

/// The system voice is given the text last, behind the mark that ends the options, so
/// that a text is never taken for an option; the voice and the rate come before, each
/// behind its option, and only where they are set.
pub proof fn the_text_is_the_last_argument(n: NativeTts, text: Seq<char>)
    ensures
        ({
            let a = n.arguments(text);
            let k = a.len() - 2;
            &&& k == (if n.voice is Some {
                2int
            } else {
                0
            }) + (if n.rate is Some {
                2int
            } else {
                0
            })
            &&& a[k] == "--"@ && a[k + 1] == text
            &&& n.voice matches Some(v) ==> a[0] == "-v"@ && a[1] == v@
            &&& n.rate matches Some(r) ==> a[k - 2] == "-r"@ && a[k - 1] == text::decimal(r as nat)
        }),
{
}

/// Of what a refusal says, an error message is shown first, then a reason, then a
/// message; nothing only where there is none of them.
pub proof fn a_refusal_says_what_it_can(s: DeepgramSaid)
    ensures
        s.err_msg is Some ==> first_said(s) == s.err_msg,
        s.err_msg is None && s.reason is Some ==> first_said(s) == s.reason,
        s.err_msg is None && s.reason is None ==> first_said(s) == s.message,
{
}

/// Audio is ready to be played as it came exactly where audio can be played and was
/// synthesized.
pub proof fn prepared_audio_is_what_came(
    r: Result<PreparedAudio, TtsError>,
    audio: Result<Vec<u8>, TtsError>,
    can_play: bool,
)
    requires
        is_prepared(r, audio, can_play),
    ensures
        r is Ok <==> can_play && audio is Ok,
        r matches Ok(p) ==> audio matches Ok(b) && p@ == b@,
        can_play && audio is Err ==> r is Err && r->Err_0 == audio->Err_0,
        !can_play ==> r is Err && r->Err_0 is Unsupported,
{
}

/// Each error is told by what failed and why.
pub proof fn errors_are_told_by_what_failed(m: String)
    ensures
        tts_error_text(TtsError::MissingKey(m)) == "no API key configured for "@ + m@,
        tts_error_text(TtsError::Engine(m)) == "speech engine error: "@ + m@,
        tts_error_text(TtsError::Http(m)) == "request failed: "@ + m@,
        tts_error_text(TtsError::Api(m)) == "tts API error: "@ + m@,
        tts_error_text(TtsError::Playback(m)) == "playback failed: "@ + m@,
        tts_error_text(TtsError::Unsupported(m)) == "tts not supported here: "@ + m@,
{
}

/// A body is there, and is the JSON object of its members.
pub proof fn a_body_is_the_object_of_its_members(
    r: Result<Vec<u8>, TtsError>,
    members: Seq<(Seq<char>, Seq<char>)>,
)
    requires
        is_body(r, members),
    ensures
        r is Ok && r->Ok_0@ == json_object(members),
{
}

/// Members are listed in order, each with its name and value.
pub proof fn members_are_listed_in_order(list: Seq<(String, String)>, i: int)
    requires
        0 <= i < list.len(),
    ensures
        members_view(list).len() == list.len(),
        members_view(list)[i].0 == list[i].0@ && members_view(list)[i].1 == list[i].1@,
{
}

/// What cannot be done here ends with an error that says so, and nothing is played.
pub proof fn endings_are_told_apart(step: SpeakStep, message: Seq<char>)
    ensures
        ends_unsupported(step, message) ==> !ends_well(step) && !(step is Play),
        ends_well(step) <==> (step matches SpeakStep::Done(r) && r is Ok),
        ends_unsupported(step, message) ==> (step matches SpeakStep::Done(Err(e)) && tts_error_text(
            e,
        ) == "tts not supported here: "@ + message),
{
}

/// Each voice is asked at its own address, with its own key.
pub proof fn voices_are_asked_at_their_address()
    ensures
        OpenAiTts::ENDPOINT@ == "https://api.openai.com/v1/audio/speech"@,
        OpenAiTts::KEY_ACCOUNT@ == "openai"@,
        DeepgramTts::ENDPOINT@ == "https://api.deepgram.com/v1/speak"@,
        DeepgramTts::KEY_ACCOUNT@ == "deepgram"@,
        DeepgramTts::ENCODING@ == "linear16"@ && DeepgramTts::CONTAINER@ == "wav"@,
        DeepgramTts::SAMPLE_RATE == 24_000,
{
}

} // verus!
