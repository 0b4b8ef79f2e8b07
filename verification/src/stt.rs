//! Speech to text: the WAV file that is uploaded, the requests to the cloud
//! providers, and what their replies come to.

use std::io::Cursor;

use vstd::prelude::*;

use crate::config::prefixed;
use crate::config::ConfigError;
use crate::secrets::{load_secret, remove_secret, store_secret, SecretTable};
use crate::text::{self, same, trim};

verus! {

/// Why a clip could not be transcribed.
#[derive(Debug, PartialEq, Eq)]
pub enum SttError {
    /// No API key is configured for this provider.
    MissingKey(String),
    /// The clip could not be encoded.
    Encode(String),
    /// The request itself failed.
    Http(String),
    /// The API answered with an error.
    Api(String),
    /// The answer could not be understood.
    Parse(String),
}

/// What an [`SttError`] says to the user.
pub open spec fn stt_error_text(e: SttError) -> Seq<char> {
    match e {
        SttError::MissingKey(m) => "no API key configured for "@ + m@,
        SttError::Encode(m) => "audio encode failed: "@ + m@,
        SttError::Http(m) => "request failed: "@ + m@,
        SttError::Api(m) => "transcription API error: "@ + m@,
        SttError::Parse(m) => "could not parse response: "@ + m@,
    }
}

impl SttError {
    /// What this error says to the user.
    pub fn message(&self) -> (r: String)
        ensures
            r@ == stt_error_text(*self),
    {
        match self {
            SttError::MissingKey(m) => prefixed("no API key configured for ", m.as_str()),
            SttError::Encode(m) => prefixed("audio encode failed: ", m.as_str()),
            SttError::Http(m) => prefixed("request failed: ", m.as_str()),
            SttError::Api(m) => prefixed("transcription API error: ", m.as_str()),
            SttError::Parse(m) => prefixed("could not parse response: ", m.as_str()),
        }
    }
}

// ---- Keys ------------------------------------------------------------------

/// The text of the key file once `secret` is stored for `account`; see
/// [`store_secret`].
pub fn store_key(
    account: &str,
    secret: &str,
    stored: Result<SecretTable, ConfigError>,
) -> (r: Result<String, ConfigError>)
    ensures
        r matches Ok(s) && crate::secrets::is_file_for(
            s@,
            crate::secrets::table_with(crate::secrets::table_if_read(stored), account@, secret@),
        ),
{
    store_secret(account, secret, stored)
}

/// The key for `account`; see [`load_secret`].
pub fn load_key(
    account: &str,
    env: Option<String>,
    stored: &Result<SecretTable, ConfigError>,
) -> (r: Option<String>)
    ensures
        crate::secrets::opt(r) == crate::secrets::resolved_key(
            crate::secrets::opt(env),
            crate::secrets::table_key(crate::secrets::table_if_read(*stored), account@),
        ),
{
    load_secret(account, env, stored)
}

/// What has to be written so that no key is stored for `account`; see
/// [`remove_secret`].
pub fn delete_key(account: &str, stored: Result<SecretTable, ConfigError>) -> (r: Result<
    Option<String>,
    ConfigError,
>)
    ensures
        match stored {
            Err(e) => r == Err::<Option<String>, ConfigError>(e),
            Ok(t) => if t@.dom().contains(account@) {
                r matches Ok(Some(s)) && crate::secrets::is_file_for(s@, t@.remove(account@))
            } else {
                r == Ok::<Option<String>, ConfigError>(None)
            },
        },
{
    remove_secret(account, stored)
}

// ---- WAV -------------------------------------------------------------------

/// The two bytes of `n`, the lower one first.
pub open spec fn le16(n: int) -> Seq<u8> {
    seq![(n % 256) as u8, (n / 256 % 256) as u8]
}

/// The four bytes of `n`, the lowest one first.
pub open spec fn le32(n: int) -> Seq<u8> {
    le16(n % 65536) + le16(n / 65536)
}

/// The two bytes of a sample, in two's complement.
pub open spec fn sample_bytes(s: i16) -> Seq<u8> {
    le16(if s >= 0 {
        s as int
    } else {
        s + 65536
    })
}

/// The bytes of all samples.
pub open spec fn pcm(samples: Seq<i16>) -> Seq<u8>
    decreases samples.len(),
{
    if samples.len() == 0 {
        Seq::empty()
    } else {
        pcm(samples.drop_last()) + sample_bytes(samples.last())
    }
}

/// The header of a WAV file with `n` bytes of 16-bit mono samples: the RIFF
/// header, a PCM format chunk and the start of the data chunk.
pub open spec fn wav_header(n: int, rate: int) -> Seq<u8> {
    seq![82u8, 73, 70, 70] + le32(36 + n) + seq![87u8, 65, 86, 69] + seq![102u8, 109, 116, 32]
        + le32(16) + le16(1) + le16(1) + le32(rate) + le32(2 * rate) + le16(2) + le16(16)
        + seq![100u8, 97, 116, 97] + le32(n)
}

/// A WAV file of 16-bit mono samples.
pub open spec fn wav_file(samples: Seq<i16>, rate: int) -> Seq<u8> {
    wav_header(2 * (samples.len() as int), rate) + pcm(samples)
}

/// A `hound::WavWriter` that writes to a byte vector.
#[verifier::external_body]
pub struct WavSink<'a> {
    writer: hound::WavWriter<Cursor<&'a mut Vec<u8>>>,
}

/// The samples written so far.
pub uninterp spec fn written(w: WavSink<'_>) -> Seq<i16>;

/// The sample rate that the writer was made with.
pub uninterp spec fn rate_of(w: WavSink<'_>) -> int;

/// What the byte vector will hold once the writer is gone.
pub uninterp spec fn target(w: WavSink<'_>) -> Seq<u8>;

/// `hound::WavWriter::new` for 16-bit integer mono on a cursor at the start of an
/// empty vector. It writes the header; on a vector that does not fail. A rate of
/// 0, or one whose bytes per second overflow, would panic there.
#[verifier::external_body]
fn wav_open<'a>(out: &'a mut Vec<u8>, rate: u32) -> (r: Result<WavSink<'a>, String>)
    requires
        old(out)@.len() == 0,
        0 < rate,
        2 * rate <= u32::MAX,
    ensures
        r is Ok,
        r matches Ok(w) ==> written(w).len() == 0 && rate_of(w) == rate,
        r matches Ok(w) ==> target(w) == final(out)@,
{
    let spec = hound::WavSpec {
        channels: 1,
        sample_rate: rate,
        bits_per_sample: 16,
        sample_format: hound::SampleFormat::Int,
    };
    let writer = hound::WavWriter::new(Cursor::new(out), spec).map_err(|e| e.to_string())?;
    Ok(WavSink { writer })
}

/// `hound::WavWriter::write_sample` with a 16-bit sample: appends it. The writer
/// counts bytes in 32 bits.
#[verifier::external_body]
fn wav_write(w: &mut WavSink<'_>, sample: i16) -> (r: Result<(), String>)
    requires
        38 + 2 * written(*old(w)).len() <= u32::MAX,
    ensures
        r is Ok,
        written(*final(w)) == written(*old(w)).push(sample),
        rate_of(*final(w)) == rate_of(*old(w)),
        target(*final(w)) == target(*old(w)),
{
    w.writer.write_sample(sample).map_err(|e| e.to_string())
}

/// `hound::WavWriter::finalize`: fills in the two lengths of the header, which
/// makes the vector a complete file.
#[verifier::external_body]
fn wav_close(w: WavSink<'_>) -> (r: Result<(), String>)
    requires
        36 + 2 * written(w).len() <= u32::MAX,
    ensures
        r is Ok,
        r is Ok ==> target(w) == wav_file(written(w), rate_of(w)),
{
    w.writer.finalize().map_err(|e| e.to_string())
}

/// 16-bit mono samples as a WAV file, which the providers accept as it is.
pub fn encode_wav(samples: &Vec<i16>, sample_rate: u32) -> (r: Result<Vec<u8>, SttError>)
    requires
        0 < sample_rate,
        2 * sample_rate <= u32::MAX,
        36 + 2 * samples@.len() <= u32::MAX,
    ensures
        r matches Ok(bytes) && bytes@ == wav_file(samples@, sample_rate as int),
{
    let mut out: Vec<u8> = Vec::new();
    let ended: Result<(), String> = match wav_open(&mut out, sample_rate) {
        Err(m) => Err(m),
        Ok(mut w) => {
            let mut failed: Option<String> = None;
            let mut i: usize = 0;
            assert(written(w) =~= samples@.take(0));
            while i < samples.len()
                invariant
                    36 + 2 * samples@.len() <= u32::MAX,
                    i <= samples@.len(),
                    failed is None,
                    written(w) == samples@.take(i as int),
                    rate_of(w) == sample_rate,
                    target(w) == after_borrow(out)@,
                decreases samples@.len() - i,
            {
                match wav_write(&mut w, samples[i]) {
                    Ok(_) => {},
                    Err(m) => {
                        failed = Some(m);
                    },
                }
                assert(samples@.take(i as int).push(samples@[i as int]) =~= samples@.take(i + 1));
                i = i + 1;
            }
            assert(samples@.take(i as int) =~= samples@);
            match failed {
                Some(m) => Err(m),
                None => wav_close(w),
            }
        },
    };
    match ended {
        Ok(_) => Ok(out),
        Err(m) => Err(SttError::Encode(m)),
    }
}

proof fn lemma_pcm_len(samples: Seq<i16>)
    ensures
        pcm(samples).len() == 2 * samples.len(),
    decreases samples.len(),
{
    if samples.len() > 0 {
        lemma_pcm_len(samples.drop_last());
    }
}

proof fn lemma_header_len(n: int, rate: int)
    ensures
        wav_header(n, rate).len() == 44,
{
}

proof fn lemma_skip(head: Seq<u8>, tail: Seq<u8>)
    ensures
        (head + tail).skip(head.len() as int) == tail,
{
    assert((head + tail).skip(head.len() as int) =~= tail);
}

/// A WAV file is its 44 bytes of header and two bytes per sample.
pub proof fn wav_file_size(samples: Seq<i16>, rate: int)
    ensures
        wav_file(samples, rate).len() == 44 + 2 * samples.len(),
{
    lemma_pcm_len(samples);
}

proof fn lemma_sample_bytes(a: i16, b: i16)
    requires
        sample_bytes(a) == sample_bytes(b),
    ensures
        a == b,
{
    let x = if a >= 0 {
        a as int
    } else {
        a + 65536
    };
    let y = if b >= 0 {
        b as int
    } else {
        b + 65536
    };
    assert(le16(x)[0] == le16(y)[0]);
    assert(le16(x)[1] == le16(y)[1]);
    assert((x % 256) as u8 == (y % 256) as u8);
    assert((x / 256 % 256) as u8 == (y / 256 % 256) as u8);
}

proof fn lemma_pcm_injective(a: Seq<i16>, b: Seq<i16>)
    requires
        pcm(a) == pcm(b),
    ensures
        a == b,
    decreases a.len(),
{
    lemma_pcm_len(a);
    lemma_pcm_len(b);
    if a.len() > 0 {
        let n = pcm(a).len() as int;
        lemma_pcm_len(a.drop_last());
        lemma_pcm_len(b.drop_last());
        assert(pcm(a).skip(n - 2) =~= sample_bytes(a.last()));
        assert(pcm(b).skip(n - 2) =~= sample_bytes(b.last()));
        assert(pcm(a).take(n - 2) =~= pcm(a.drop_last()));
        assert(pcm(b).take(n - 2) =~= pcm(b.drop_last()));
        lemma_sample_bytes(a.last(), b.last());
        lemma_pcm_injective(a.drop_last(), b.drop_last());
        assert(a =~= a.drop_last().push(a.last()));
        assert(b =~= b.drop_last().push(b.last()));
    } else {
        assert(a =~= b);
    }
}

/// A WAV file determines its samples: no two clips of one rate have the same file.
pub proof fn wav_file_determines_samples(a: Seq<i16>, b: Seq<i16>, rate: int)
    requires
        wav_file(a, rate) == wav_file(b, rate),
    ensures
        a == b,
{
    lemma_pcm_len(a);
    lemma_pcm_len(b);
    lemma_header_len(2 * (a.len() as int), rate);
    lemma_header_len(2 * (b.len() as int), rate);
    lemma_skip(wav_header(2 * (a.len() as int), rate), pcm(a));
    lemma_skip(wav_header(2 * (b.len() as int), rate), pcm(b));
    lemma_pcm_injective(a, b);
}

// ---- Replies ---------------------------------------------------------------

/// The status line of an HTTP reply.
#[derive(Debug, PartialEq, Eq)]
pub struct HttpStatus {
    pub code: u16,
    /// Code and reason, such as "401 Unauthorized".
    pub line: String,
}

/// Whether a status code reports success.
pub open spec fn is_success_code(code: u16) -> bool {
    200 <= code < 300
}

impl HttpStatus {
    /// Whether the request succeeded.
    pub fn is_success(&self) -> (r: bool)
        ensures
            r == is_success_code(self.code),
    {
        200 <= self.code && self.code < 300
    }
}

/// "HTTP", the status line and what the server says.
pub open spec fn api_failure(line: Seq<char>, message: Seq<char>) -> Seq<char> {
    "HTTP "@ + line + ": "@ + message
}

/// "HTTP", the status line and what the server says.
pub fn api_failure_text(line: &str, message: &str) -> (r: String)
    ensures
        r@ == api_failure(line@, message@),
{
    let mut r = prefixed("HTTP ", line);
    r.append(": ");
    r.append(message);
    r
}

// ---- Deepgram --------------------------------------------------------------

/// Deepgram transcription.
#[derive(Debug, PartialEq, Eq)]
pub struct DeepgramStt {
    pub api_key: String,
    pub model: String,
}

/// What Deepgram says of a failed request, as far as it can be read.
#[derive(Debug, PartialEq, Eq)]
pub struct DeepgramFailure {
    pub err_msg: Option<String>,
    pub request_id: Option<String>,
}

/// The server's message, with its request id where there is one; the raw body
/// where it has no message or could not be read.
pub open spec fn deepgram_failure_message(
    body: Seq<char>,
    failure: Option<DeepgramFailure>,
) -> Seq<char> {
    match failure {
        Some(f) => match f.err_msg {
            Some(m) => match f.request_id {
                Some(id) => m@ + " (request_id: "@ + id@ + ")"@,
                None => m@,
            },
            None => body,
        },
        None => body,
    }
}

impl DeepgramStt {
    pub const ENDPOINT: &'static str = "https://api.deepgram.com/v1/listen";

    /// The model used unless the settings name one.
    pub const DEFAULT_MODEL: &'static str = "nova-3";

    /// The account that the key is stored under.
    pub const KEY_ACCOUNT: &'static str = "deepgram";

    /// A provider with a key and a model.
    pub fn new(api_key: String, model: String) -> (r: DeepgramStt)
        ensures
            r.api_key == api_key && r.model == model,
    {
        DeepgramStt { api_key, model }
    }

    /// A provider with the stored key, if there is one; see [`load_key`].
    pub fn from_stored_key(model: String, stored: Option<String>) -> (r: Result<
        DeepgramStt,
        SttError,
    >)
        ensures
            match stored {
                Some(k) => r matches Ok(p) && p.api_key == k && p.model == model,
                None => r matches Err(SttError::MissingKey(a)) && a@ == DeepgramStt::KEY_ACCOUNT@,
            },
    {
        match stored {
            Some(k) => Ok(DeepgramStt::new(k, model)),
            None => Err(SttError::MissingKey(DeepgramStt::KEY_ACCOUNT.to_owned())),
        }
    }

    /// Where a clip is posted to.
    pub fn request_url(&self) -> (r: String)
        ensures
            r@ == DeepgramStt::ENDPOINT@ + "?model="@ + self.model@
                + "&smart_format=true&dictation=true&punctuate=true&language=multi"@,
    {
        let mut r = prefixed(DeepgramStt::ENDPOINT, "?model=");
        r.append(self.model.as_str());
        r.append("&smart_format=true&dictation=true&punctuate=true&language=multi");
        r
    }

    /// The value of the authorization header.
    pub fn authorization(&self) -> (r: String)
        ensures
            r@ == "Token "@ + self.api_key@,
    {
        prefixed("Token ", self.api_key.as_str())
    }

    /// The error that a reply without success comes to.
    pub fn refused(
        status: &HttpStatus,
        body: String,
        failure: Option<DeepgramFailure>,
    ) -> (r: SttError)
        ensures
            r matches SttError::Api(m) && m@ == api_failure(
                status.line@,
                deepgram_failure_message(body@, failure),
            ),
    {
        let message: String = match failure {
            Some(f) => match f.err_msg {
                Some(m) => match f.request_id {
                    Some(id) => {
                        let mut t = prefixed(m.as_str(), " (request_id: ");
                        t.append(id.as_str());
                        t.append(")");
                        t
                    },
                    None => m,
                },
                None => body,
            },
            None => body,
        };
        SttError::Api(api_failure_text(status.line.as_str(), message.as_str()))
    }

    /// The transcript in a reply with success. `channels` are the alternatives of
    /// each channel, or why the reply could not be read.
    pub fn transcript(channels: Result<Vec<Vec<String>>, String>) -> (r: Result<String, SttError>)
        ensures
            match channels {
                Err(m) => r matches Err(SttError::Parse(e)) && e == m,
                Ok(c) => if c@.len() > 0 && c@[0]@.len() > 0 {
                    r matches Ok(t) && t@ == text::trimmed(c@[0]@[0]@)
                } else {
                    r matches Err(SttError::Parse(e)) && e@ == "response contained no transcript"@
                },
            },
    {
        match channels {
            Err(m) => Err(SttError::Parse(m)),
            Ok(c) => {
                if c.len() > 0 && c[0].len() > 0 {
                    Ok(trim(c[0][0].as_str()).to_owned())
                } else {
                    Err(SttError::Parse("response contained no transcript".to_owned()))
                }
            },
        }
    }

    /// What a reply comes to: the transcript where it reports success, else the
    /// error. `failure` and `channels` are what its body was read as either way.
    pub fn answer(
        status: &HttpStatus,
        body: String,
        failure: Option<DeepgramFailure>,
        channels: Result<Vec<Vec<String>>, String>,
    ) -> (r: Result<String, SttError>)
        ensures
            if !is_success_code(status.code) {
                r matches Err(SttError::Api(m)) && m@ == api_failure(
                    status.line@,
                    deepgram_failure_message(body@, failure),
                )
            } else {
                match channels {
                    Err(m) => r matches Err(SttError::Parse(e)) && e == m,
                    Ok(c) => if c@.len() > 0 && c@[0]@.len() > 0 {
                        r matches Ok(t) && t@ == text::trimmed(c@[0]@[0]@)
                    } else {
                        r matches Err(SttError::Parse(e)) && e@
                            == "response contained no transcript"@
                    },
                }
            },
    {
        if status.is_success() {
            DeepgramStt::transcript(channels)
        } else {
            Err(DeepgramStt::refused(status, body, failure))
        }
    }

    /// The provider's short name.
    pub fn name(&self) -> (r: &'static str)
        ensures
            r@ == "deepgram"@,
    {
        "deepgram"
    }
}

// ---- OpenAI ----------------------------------------------------------------

/// OpenAI transcription.
#[derive(Debug, PartialEq, Eq)]
pub struct OpenAiStt {
    pub api_key: String,
    pub model: String,
}

/// The text fields of the upload form, beside the file "audio.wav" of type
/// "audio/wav" in the field "file".
pub open spec fn openai_form(model: Seq<char>) -> Seq<(Seq<char>, Seq<char>)> {
    seq![("model"@, model), ("response_format"@, "json"@)]
}

/// What a list of pairs of strings holds.
pub open spec fn pairs_view(list: Seq<(String, String)>) -> Seq<(Seq<char>, Seq<char>)> {
    list.map_values(|p: (String, String)| (p.0@, p.1@))
}

impl OpenAiStt {
    pub const ENDPOINT: &'static str = "https://api.openai.com/v1/audio/transcriptions";

    /// The model used unless the settings name one.
    pub const DEFAULT_MODEL: &'static str = "gpt-4o-mini-transcribe";

    /// The account that the key is stored under.
    pub const KEY_ACCOUNT: &'static str = "openai";

    /// A provider with a key and a model.
    pub fn new(api_key: String, model: String) -> (r: OpenAiStt)
        ensures
            r.api_key == api_key && r.model == model,
    {
        OpenAiStt { api_key, model }
    }

    /// A provider with the stored key, if there is one; see [`load_key`].
    pub fn from_stored_key(model: String, stored: Option<String>) -> (r: Result<
        OpenAiStt,
        SttError,
    >)
        ensures
            match stored {
                Some(k) => r matches Ok(p) && p.api_key == k && p.model == model,
                None => r matches Err(SttError::MissingKey(a)) && a@ == OpenAiStt::KEY_ACCOUNT@,
            },
    {
        match stored {
            Some(k) => Ok(OpenAiStt::new(k, model)),
            None => Err(SttError::MissingKey(OpenAiStt::KEY_ACCOUNT.to_owned())),
        }
    }

    /// The text fields of the upload form.
    pub fn form_fields(&self) -> (r: Vec<(String, String)>)
        ensures
            pairs_view(r@) == openai_form(self.model@),
    {
        let mut r: Vec<(String, String)> = Vec::new();
        r.push(("model".to_owned(), self.model.clone()));
        r.push(("response_format".to_owned(), "json".to_owned()));
        assert(pairs_view(r@) =~= openai_form(self.model@));
        r
    }

    /// The error that a reply without success comes to. `message` is the server's,
    /// where the body has one.
    pub fn refused(status: &HttpStatus, body: String, message: Option<String>) -> (r: SttError)
        ensures
            r matches SttError::Api(m) && m@ == api_failure(
                status.line@,
                crate::config::text_or(message, body@),
            ),
    {
        let said: String = match message {
            Some(m) => m,
            None => body,
        };
        SttError::Api(api_failure_text(status.line.as_str(), said.as_str()))
    }

    /// The transcript in a reply with success: its text, or why it could not be
    /// read.
    pub fn transcript(reply: Result<String, String>) -> (r: Result<String, SttError>)
        ensures
            match reply {
                Err(m) => r matches Err(SttError::Parse(e)) && e == m,
                Ok(t) => r matches Ok(s) && s@ == text::trimmed(t@),
            },
    {
        match reply {
            Err(m) => Err(SttError::Parse(m)),
            Ok(t) => Ok(trim(t.as_str()).to_owned()),
        }
    }

    /// What a reply comes to: the transcript where it reports success, else the
    /// error. `message` and `reply` are what its body was read as either way.
    pub fn answer(
        status: &HttpStatus,
        body: String,
        message: Option<String>,
        reply: Result<String, String>,
    ) -> (r: Result<String, SttError>)
        ensures
            if !is_success_code(status.code) {
                r matches Err(SttError::Api(m)) && m@ == api_failure(
                    status.line@,
                    crate::config::text_or(message, body@),
                )
            } else {
                match reply {
                    Err(m) => r matches Err(SttError::Parse(e)) && e == m,
                    Ok(t) => r matches Ok(s) && s@ == text::trimmed(t@),
                }
            },
    {
        if status.is_success() {
            OpenAiStt::transcript(reply)
        } else {
            Err(OpenAiStt::refused(status, body, message))
        }
    }

    /// The provider's short name.
    pub fn name(&self) -> (r: &'static str)
        ensures
            r@ == "openai"@,
    {
        "openai"
    }
}

// ---- Choosing a provider ---------------------------------------------------

/// A provider that is ready to transcribe.
#[derive(Debug, PartialEq, Eq)]
pub enum SttEngine {
    Deepgram(DeepgramStt),
    OpenAi(OpenAiStt),
}

impl SttEngine {
    /// The provider's short name.
    pub fn name(&self) -> (r: &'static str)
        ensures
            r@ == (match self {
                SttEngine::Deepgram(_) => "deepgram"@,
                SttEngine::OpenAi(_) => "openai"@,
            }),
    {
        match self {
            SttEngine::Deepgram(p) => p.name(),
            SttEngine::OpenAi(p) => p.name(),
        }
    }
}

/// The configured provider with its stored key and the given model or its default
/// one. `None` for an unknown provider, or without a key.
pub fn build_provider(provider: &str, model: Option<String>, key: Option<String>) -> (r: Option<
    SttEngine,
>)
    ensures
        if provider@ == "deepgram"@ && key is Some {
            r matches Some(SttEngine::Deepgram(p)) && Some(p.api_key) == key && p.model@
                == crate::config::text_or(model, DeepgramStt::DEFAULT_MODEL@)
        } else if provider@ == "openai"@ && key is Some {
            r matches Some(SttEngine::OpenAi(p)) && Some(p.api_key) == key && p.model@
                == crate::config::text_or(model, OpenAiStt::DEFAULT_MODEL@)
        } else {
            r is None
        },
{
    proof {
        reveal_strlit("deepgram");
        reveal_strlit("openai");
    }
    if same(provider, "deepgram") {
        let m: String = match model {
            Some(m) => m,
            None => DeepgramStt::DEFAULT_MODEL.to_owned(),
        };
        match DeepgramStt::from_stored_key(m, key) {
            Ok(p) => Some(SttEngine::Deepgram(p)),
            Err(_) => None,
        }
    } else if same(provider, "openai") {
        let m: String = match model {
            Some(m) => m,
            None => OpenAiStt::DEFAULT_MODEL.to_owned(),
        };
        match OpenAiStt::from_stored_key(m, key) {
            Ok(p) => Some(SttEngine::OpenAi(p)),
            Err(_) => None,
        }
    } else {
        None
    }
}

/// What is said when the configured provider cannot be used.
pub open spec fn no_key_text(provider: Seq<char>) -> Seq<char> {
    "no API key for '"@ + provider + "' \u{2014} run: holler set-key "@ + provider + " <KEY>"@
}

/// A transcript and the provider that made it.
#[derive(Debug, PartialEq, Eq)]
pub struct Transcription {
    pub text: String,
    pub provider: String,
}

/// What a transcription came to: `outcome` is the name of the provider that was
/// used and its answer, or `None` if there was none to use.
pub fn transcription(
    provider: &str,
    outcome: Option<(&'static str, Result<String, SttError>)>,
) -> (r: Result<Transcription, String>)
    ensures
        match outcome {
            None => r matches Err(m) && m@ == no_key_text(provider@),
            Some((name, Ok(t))) => r matches Ok(x) && x.text == t && x.provider@ == name@,
            Some((_, Err(e))) => r matches Err(m) && m@ == stt_error_text(e),
        },
{
    match outcome {
        None => {
            let mut m = prefixed("no API key for '", provider);
            m.append("' \u{2014} run: holler set-key ");
            m.append(provider);
            m.append(" <KEY>");
            Err(m)
        },
        Some((name, answer)) => match answer {
            Ok(t) => Ok(Transcription { text: t, provider: name.to_owned() }),
            Err(e) => Err(e.message()),
        },
    }
}

/// A provider of transcripts.
pub trait SttProvider: Send + Sync {
    /// Transcribes 16-bit mono samples. Blocks until the answer is there.
    fn transcribe(&self, samples: &Vec<i16>, sample_rate: u32) -> (r: Result<String, SttError>);

    /// A short name.
    fn name(&self) -> (r: &'static str);
}

/// Transcribes a clip with the provider that was built for the configured name, if
/// one could be.
pub fn transcribe_clip<P: SttProvider>(
    provider: &str,
    engine: &Option<P>,
    samples: &Vec<i16>,
    sample_rate: u32,
) -> (r: Result<Transcription, String>)
    ensures
        match engine {
            None => r matches Err(m) && m@ == no_key_text(provider@),
            Some(p) => match r {
                Ok(x) => exists|name: &'static str, t: String|
                    call_ensures(P::name, (p,), name) && call_ensures(
                        P::transcribe,
                        (p, samples, sample_rate),
                        Ok::<String, SttError>(t),
                    ) && x.text == t && x.provider@ == name@,
                Err(m) => exists|e: SttError|
                    call_ensures(
                        P::transcribe,
                        (p, samples, sample_rate),
                        Err::<String, SttError>(e),
                    ) && m@ == stt_error_text(e),
            },
        },
{
    match engine {
        None => transcription(provider, None),
        Some(p) => {
            let name: &'static str = p.name();
            let answer = p.transcribe(samples, sample_rate);
            transcription(provider, Some((name, answer)))
        },
    }
}

// ---- The command line ------------------------------------------------------

/// What `holler set-key` was asked to do.
#[derive(Debug, PartialEq, Eq)]
pub enum SetKey {
    /// Store this key for this provider.
    Store { provider: String, key: String },
    /// The arguments are incomplete.
    Usage,
    /// There is no such provider.
    Unknown(String),
}

/// What `holler set-key` is asked to do by its arguments, the program's name and
/// "set-key" included.
pub fn run_set_key(args: &Vec<String>) -> (r: SetKey)
    ensures
        if args@.len() < 4 {
            r == SetKey::Usage
        } else if args@[2]@ == OpenAiStt::KEY_ACCOUNT@ || args@[2]@ == DeepgramStt::KEY_ACCOUNT@ {
            r == (SetKey::Store { provider: args@[2], key: args@[3] })
        } else {
            r == SetKey::Unknown(args@[2])
        },
{
    if args.len() < 4 {
        return SetKey::Usage;
    }
    if same(args[2].as_str(), OpenAiStt::KEY_ACCOUNT) || same(
        args[2].as_str(),
        DeepgramStt::KEY_ACCOUNT,
    ) {
        SetKey::Store { provider: args[2].clone(), key: args[3].clone() }
    } else {
        SetKey::Unknown(args[2].clone())
    }
}

// ---- What a reader of the file sees ------------------------------------------

/// The number in the two bytes at `i`, the lower byte first.
pub open spec fn u16_at(b: Seq<u8>, i: int) -> int {
    b[i] as int + 256 * (b[i + 1] as int)
}

/// The number in the four bytes at `i`, the lowest byte first.
pub open spec fn u32_at(b: Seq<u8>, i: int) -> int {
    u16_at(b, i) + 65536 * u16_at(b, i + 2)
}

/// The signed number in the two bytes at `i`.
pub open spec fn i16_at(b: Seq<u8>, i: int) -> int {
    if u16_at(b, i) >= 32768 {
        u16_at(b, i) - 65536
    } else {
        u16_at(b, i)
    }
}

proof fn lemma_le(n: int)
    requires
        0 <= n < 0x1_0000_0000,
    ensures
        le32(n).len() == 4,
        u32_at(le32(n), 0) == n,
        n < 65536 ==> le16(n).len() == 2 && u16_at(le16(n), 0) == n,
{
    let low = n % 65536;
    let high = n / 65536;
    assert(le32(n) =~= seq![
        (low % 256) as u8,
        (low / 256 % 256) as u8,
        (high % 256) as u8,
        (high / 256 % 256) as u8,
    ]);
    assert(low == low % 256 + 256 * (low / 256));
    assert(high == high % 256 + 256 * (high / 256));
    assert(0 <= low / 256 < 256 && 0 <= high / 256 < 256);
}

/// A reader finds in the file what a WAV header has to say: the sizes, one channel of
/// 16-bit samples, and the rate.
pub proof fn the_header_describes_the_samples(samples: Seq<i16>, rate: int)
    requires
        36 + 2 * samples.len() < 0x1_0000_0000,
        0 <= 2 * rate < 0x1_0000_0000,
    ensures
        ({
            let f = wav_file(samples, rate);
            &&& f.len() == 44 + 2 * samples.len()
            &&& f.subrange(0, 4) == seq![82u8, 73, 70, 70]
            &&& u32_at(f, 4) == f.len() - 8
            &&& f.subrange(8, 16) == seq![87u8, 65, 86, 69, 102, 109, 116, 32]
            &&& u32_at(f, 16) == 16
            &&& u16_at(f, 20) == 1
            &&& u16_at(f, 22) == 1
            &&& u32_at(f, 24) == rate
            &&& u32_at(f, 28) == 2 * rate
            &&& u16_at(f, 32) == 2
            &&& u16_at(f, 34) == 16
            &&& f.subrange(36, 40) == seq![100u8, 97, 116, 97]
            &&& u32_at(f, 40) == 2 * samples.len()
        }),
{
    let n = 2 * (samples.len() as int);
    let f = wav_file(samples, rate);
    lemma_le(36 + n);
    lemma_le(16);
    lemma_le(1);
    lemma_le(rate);
    lemma_le(2 * rate);
    lemma_le(2);
    lemma_le(n);
    wav_file_size(samples, rate);
    lemma_cut(
        f,
        pcm(samples),
        le32(36 + n),
        le32(16),
        le16(1),
        le32(rate),
        le32(2 * rate),
        le16(2),
        le16(16),
        le32(n),
    );
    lemma_part(f, 4, le32(36 + n));
    lemma_part(f, 16, le32(16));
    lemma_pair(f, 20, le16(1));
    lemma_pair(f, 22, le16(1));
    lemma_part(f, 24, le32(rate));
    lemma_part(f, 28, le32(2 * rate));
    lemma_pair(f, 32, le16(2));
    lemma_pair(f, 34, le16(16));
    lemma_part(f, 40, le32(n));
}

proof fn lemma_cut(
    f: Seq<u8>,
    data: Seq<u8>,
    size: Seq<u8>,
    format: Seq<u8>,
    one: Seq<u8>,
    rate: Seq<u8>,
    bytes: Seq<u8>,
    align: Seq<u8>,
    bits: Seq<u8>,
    len: Seq<u8>,
)
    requires
        size.len() == 4 && format.len() == 4 && one.len() == 2 && rate.len() == 4 && bytes.len()
            == 4 && align.len() == 2 && bits.len() == 2 && len.len() == 4,
        f == seq![82u8, 73, 70, 70] + size + seq![87u8, 65, 86, 69] + seq![102u8, 109, 116, 32]
            + format + one + one + rate + bytes + align + bits + seq![100u8, 97, 116, 97] + len
            + data,
    ensures
        f.len() == 44 + data.len(),
        f.subrange(0, 4) == seq![82u8, 73, 70, 70],
        f.subrange(4, 8) == size,
        f.subrange(8, 16) == seq![87u8, 65, 86, 69, 102, 109, 116, 32],
        f.subrange(16, 20) == format,
        f.subrange(20, 22) == one,
        f.subrange(22, 24) == one,
        f.subrange(24, 28) == rate,
        f.subrange(28, 32) == bytes,
        f.subrange(32, 34) == align,
        f.subrange(34, 36) == bits,
        f.subrange(36, 40) == seq![100u8, 97, 116, 97],
        f.subrange(40, 44) == len,
        f.skip(44) == data,
{
    assert(f.subrange(0, 4) =~= seq![82u8, 73, 70, 70]);
    assert(f.subrange(4, 8) =~= size);
    assert(f.subrange(8, 16) =~= seq![87u8, 65, 86, 69, 102, 109, 116, 32]);
    assert(f.subrange(16, 20) =~= format);
    assert(f.subrange(20, 22) =~= one);
    assert(f.subrange(22, 24) =~= one);
    assert(f.subrange(24, 28) =~= rate);
    assert(f.subrange(28, 32) =~= bytes);
    assert(f.subrange(32, 34) =~= align);
    assert(f.subrange(34, 36) =~= bits);
    assert(f.subrange(36, 40) =~= seq![100u8, 97, 116, 97]);
    assert(f.subrange(40, 44) =~= len);
    assert(f.skip(44) =~= data);
}

proof fn lemma_pair(f: Seq<u8>, at: int, part: Seq<u8>)
    requires
        part.len() == 2,
        0 <= at <= f.len() - 2,
        f.subrange(at, at + 2) == part,
    ensures
        u16_at(f, at) == u16_at(part, 0),
{
    assert(f[at] == f.subrange(at, at + 2)[0]);
    assert(f[at + 1] == f.subrange(at, at + 2)[1]);
}

proof fn lemma_part(f: Seq<u8>, at: int, part: Seq<u8>)
    requires
        part.len() == 4,
        0 <= at <= f.len() - 4,
        f.subrange(at, at + 4) =~= part,
    ensures
        u32_at(f, at) == u32_at(part, 0),
{
    assert(f[at] == f.subrange(at, at + 4)[0]);
    assert(f[at + 1] == f.subrange(at, at + 4)[1]);
    assert(f[at + 2] == f.subrange(at, at + 4)[2]);
    assert(f[at + 3] == f.subrange(at, at + 4)[3]);
}

/// A reader finds each sample in its place, with its value.
pub proof fn each_sample_is_in_its_place(samples: Seq<i16>, rate: int, i: int)
    requires
        36 + 2 * samples.len() < 0x1_0000_0000,
        0 <= 2 * rate < 0x1_0000_0000,
        0 <= i < samples.len(),
    ensures
        i16_at(wav_file(samples, rate), 44 + 2 * i) == samples[i],
{
    the_header_describes_the_samples(samples, rate);
    lemma_sample_at(samples, i);
    let f = wav_file(samples, rate);
    let h = wav_header(2 * (samples.len() as int), rate);
    lemma_header_len(2 * (samples.len() as int), rate);
    assert(f == h + pcm(samples));
    assert(f[44 + 2 * i] == pcm(samples)[2 * i]);
    assert(f[44 + 2 * i + 1] == pcm(samples)[2 * i + 1]);
}

proof fn lemma_sample_at(samples: Seq<i16>, i: int)
    requires
        0 <= i < samples.len(),
    ensures
        pcm(samples).len() == 2 * samples.len(),
        i16_at(pcm(samples), 2 * i) == samples[i],
    decreases samples.len(),
{
    let front = samples.drop_last();
    let s = samples.last();
    let last = samples.len() - 1;
    lemma_pcm_len(samples);
    lemma_pcm_len(front);
    let n = if s >= 0 {
        s as int
    } else {
        s + 65536
    };
    lemma_le(n);
    if i < last {
        lemma_sample_at(front, i);
        assert(pcm(samples)[2 * i] == pcm(front)[2 * i]);
        assert(pcm(samples)[2 * i + 1] == pcm(front)[2 * i + 1]);
        assert(front[i] == samples[i]);
    } else {
        assert(pcm(samples)[2 * i] == le16(n)[0]);
        assert(pcm(samples)[2 * i + 1] == le16(n)[1]);
    }
}

/// A reply is good exactly if its code has a 2 in front.
pub proof fn two_hundreds_are_success(code: u16)
    ensures
        is_success_code(code) <==> code / 100 == 2,
{
}

/// What a failed request is reported as names the status and the message; a missing
/// key names the provider, twice, so that it can be copied.
pub proof fn failures_are_told_in_full(line: Seq<char>, message: Seq<char>, provider: Seq<char>)
    ensures
        ("HTTP "@ + line).is_prefix_of(api_failure(line, message)),
        message.is_suffix_of(api_failure(line, message)),
        api_failure(line, message).len() == "HTTP "@.len() + line.len() + ": "@.len()
            + message.len(),
        ("no API key for '"@ + provider + "'"@).is_prefix_of(no_key_text(provider)),
        ("holler set-key "@ + provider + " <KEY>"@).is_suffix_of(no_key_text(provider)),
{
    let t = api_failure(line, message);
    let head = "HTTP "@ + line;
    assert(head =~= t.subrange(0, head.len() as int));
    assert(message =~= t.subrange(t.len() - message.len(), t.len() as int));
    let k = no_key_text(provider);
    reveal_strlit("'");
    reveal_strlit("' \u{2014} run: holler set-key ");
    reveal_strlit("holler set-key ");
    let a = "no API key for '"@ + provider + "'"@;
    let b = "holler set-key "@ + provider + " <KEY>"@;
    assert(a =~= k.subrange(0, a.len() as int));
    assert(b =~= k.subrange(k.len() - b.len(), k.len() as int));
}

/// Deepgram's own message is told where it gave one, with the number of the request
/// where it gave that; otherwise the reply is told as it came.
pub proof fn deepgram_is_quoted(body: Seq<char>, failure: Option<DeepgramFailure>)
    ensures
        failure is None ==> deepgram_failure_message(body, failure) == body,
        failure matches Some(f) ==> f.err_msg is None ==> deepgram_failure_message(body, failure)
            == body,
        failure matches Some(f) ==> (f.err_msg matches Some(m) ==> f.request_id is None
            ==> deepgram_failure_message(body, failure) == m@),
        failure matches Some(f) ==> (f.err_msg matches Some(m) ==> (f.request_id matches Some(id)
            ==> deepgram_failure_message(body, failure) == m@ + " (request_id: "@ + id@ + ")"@)),
{
}

/// OpenAI is asked for the model in question, and to answer in JSON.
pub proof fn openai_is_asked_for_the_model(model: Seq<char>)
    ensures
        openai_form(model).len() == 2,
        openai_form(model).contains(("model"@, model)),
        openai_form(model).contains(("response_format"@, "json"@)),
{
    assert(openai_form(model)[0] == ("model"@, model));
    assert(openai_form(model)[1] == ("response_format"@, "json"@));
}

/// Each error is told by what failed and why.
pub proof fn errors_are_told_by_what_failed(m: String)
    ensures
        stt_error_text(SttError::MissingKey(m)) == "no API key configured for "@ + m@,
        stt_error_text(SttError::Encode(m)) == "audio encode failed: "@ + m@,
        stt_error_text(SttError::Http(m)) == "request failed: "@ + m@,
        stt_error_text(SttError::Api(m)) == "transcription API error: "@ + m@,
        stt_error_text(SttError::Parse(m)) == "could not parse response: "@ + m@,
{
}

/// Each provider is asked at its own address, with its own key, for its own default
/// model where none is configured.
pub proof fn providers_are_asked_at_their_address()
    ensures
        DeepgramStt::ENDPOINT@ == "https://api.deepgram.com/v1/listen"@,
        DeepgramStt::DEFAULT_MODEL@ == "nova-3"@,
        DeepgramStt::KEY_ACCOUNT@ == "deepgram"@,
        OpenAiStt::ENDPOINT@ == "https://api.openai.com/v1/audio/transcriptions"@,
        OpenAiStt::DEFAULT_MODEL@ == "gpt-4o-mini-transcribe"@,
        OpenAiStt::KEY_ACCOUNT@ == "openai"@,
{
}

} // verus!
