use holler::secrets::SecretTable;
use holler::stt::{
    build_provider, delete_key, encode_wav, load_key, run_set_key, store_key, transcribe_clip,
    transcription, DeepgramFailure, DeepgramStt, HttpStatus, OpenAiStt, SetKey, SttEngine,
    SttError, SttProvider,
};

/// Full-scale samples as 16-bit PCM.
fn pcm(samples: &[f32]) -> Vec<i16> {
    samples.iter().map(|s| (s.clamp(-1.0, 1.0) * i16::MAX as f32) as i16).collect()
}

#[test]
fn wav_has_riff_header_and_expected_size() {
    // 100 mono samples -> 44-byte WAV header + 100 * 2 bytes of PCM.
    let samples = vec![0.0f32; 100];
    let wav = encode_wav(&pcm(&samples), 16_000).unwrap();
    assert_eq!(&wav[0..4], b"RIFF");
    assert_eq!(&wav[8..12], b"WAVE");
    assert_eq!(wav.len(), 44 + 100 * 2);
}

#[test]
fn wav_clamps_out_of_range_samples() {
    // Encoding must not panic on samples outside [-1.0, 1.0].
    let samples = vec![2.0f32, -2.0, 0.5];
    let wav = encode_wav(&pcm(&samples), 16_000).unwrap();
    assert_eq!(wav.len(), 44 + 3 * 2);
}

#[test]
fn wav_is_read_back_by_a_reader() {
    let samples: Vec<i16> = vec![0, 1, -1, i16::MAX, i16::MIN, 256, -257];
    let wav = encode_wav(&samples, 16_000).unwrap();
    let mut reader = hound::WavReader::new(std::io::Cursor::new(wav)).unwrap();
    assert_eq!(reader.spec().sample_rate, 16_000);
    assert_eq!(reader.spec().channels, 1);
    let back: Vec<i16> = reader.samples::<i16>().map(|s| s.unwrap()).collect();
    assert_eq!(back, samples);
}

#[test]
fn wav_bytes_are_exact() {
    let wav = encode_wav(&vec![0x0102, -2], 16_000).unwrap();
    let expected: Vec<u8> = vec![
        b'R', b'I', b'F', b'F', 40, 0, 0, 0, b'W', b'A', b'V', b'E', b'f', b'm', b't', b' ', 16, 0,
        0, 0, 1, 0, 1, 0, 0x80, 0x3e, 0, 0, 0, 0x7d, 0, 0, 2, 0, 16, 0, b'd', b'a', b't', b'a', 4,
        0, 0, 0, 2, 1, 0xfe, 0xff,
    ];
    assert_eq!(wav, expected);
}

fn status(code: u16, line: &str) -> HttpStatus {
    HttpStatus { code, line: line.to_string() }
}

#[test]
fn success_is_any_code_from_200_to_299() {
    assert!(status(200, "200 OK").is_success());
    assert!(status(299, "299").is_success());
    assert!(!status(199, "199").is_success());
    assert!(!status(300, "300").is_success());
}

#[test]
fn deepgram_requests_and_replies() {
    let p = DeepgramStt::new("key".to_string(), "nova-3".to_string());
    assert_eq!(
        p.request_url(),
        "https://api.deepgram.com/v1/listen?model=nova-3&smart_format=true&dictation=true&punctuate=true&language=multi"
    );
    assert_eq!(p.authorization(), "Token key");
    assert_eq!(p.name(), "deepgram");
    let alternatives = vec![vec![" hello ".to_string(), "yellow".to_string()], vec![]];
    assert_eq!(DeepgramStt::transcript(Ok(alternatives)), Ok("hello".to_string()));
    let nothing = SttError::Parse("response contained no transcript".to_string());
    assert_eq!(DeepgramStt::transcript(Ok(vec![vec![]])), Err(nothing));
    assert_eq!(
        DeepgramStt::transcript(Err("eof".to_string())),
        Err(SttError::Parse("eof".to_string()))
    );
}

#[test]
fn deepgram_failures_name_the_request() {
    let refused = |failure| {
        DeepgramStt::refused(&status(401, "401 Unauthorized"), "raw".to_string(), failure)
    };
    let some = |s: &str| Some(s.to_string());
    assert_eq!(
        refused(Some(DeepgramFailure { err_msg: some("bad key"), request_id: some("r1") })).message(),
        "transcription API error: HTTP 401 Unauthorized: bad key (request_id: r1)"
    );
    assert_eq!(
        refused(Some(DeepgramFailure { err_msg: some("bad key"), request_id: None })).message(),
        "transcription API error: HTTP 401 Unauthorized: bad key"
    );
    assert_eq!(refused(None).message(), "transcription API error: HTTP 401 Unauthorized: raw");
}

#[test]
fn openai_requests_and_replies() {
    let p = OpenAiStt::new("key".to_string(), "m".to_string());
    let field = |a: &str, b: &str| (a.to_string(), b.to_string());
    assert_eq!(p.form_fields(), vec![field("model", "m"), field("response_format", "json")]);
    assert_eq!(OpenAiStt::transcript(Ok(" hi\n".to_string())), Ok("hi".to_string()));
    assert_eq!(
        OpenAiStt::transcript(Err("eof".to_string())),
        Err(SttError::Parse("eof".to_string()))
    );
    let s = status(500, "500 Internal Server Error");
    assert_eq!(
        OpenAiStt::refused(&s, "raw".to_string(), Some("busy".to_string())),
        SttError::Api("HTTP 500 Internal Server Error: busy".to_string())
    );
    assert_eq!(
        OpenAiStt::refused(&s, "raw".to_string(), None),
        SttError::Api("HTTP 500 Internal Server Error: raw".to_string())
    );
}

#[test]
fn providers_need_a_known_name_and_a_key() {
    let key = || Some("k".to_string());
    match build_provider("deepgram", None, key()) {
        Some(SttEngine::Deepgram(p)) => assert_eq!(p.model, DeepgramStt::DEFAULT_MODEL),
        other => panic!("unexpected provider {other:?}"),
    }
    match build_provider("openai", Some("whisper-1".to_string()), key()) {
        Some(SttEngine::OpenAi(p)) => assert_eq!(p.model, "whisper-1"),
        other => panic!("unexpected provider {other:?}"),
    }
    assert_eq!(build_provider("deepgram", None, None), None);
    assert_eq!(build_provider("local", None, key()), None);
    assert_eq!(
        DeepgramStt::from_stored_key("m".to_string(), None).unwrap_err().message(),
        "no API key configured for deepgram"
    );
    assert_eq!(
        OpenAiStt::from_stored_key("m".to_string(), None).unwrap_err().message(),
        "no API key configured for openai"
    );
}

#[test]
fn a_transcription_names_its_provider() {
    let t = transcription("openai", Some(("openai", Ok("hi".to_string())))).unwrap();
    assert_eq!((t.text.as_str(), t.provider.as_str()), ("hi", "openai"));
    assert_eq!(
        transcription("openai", None).unwrap_err(),
        "no API key for 'openai' \u{2014} run: holler set-key openai <KEY>"
    );
    let failed = Err(SttError::Http("timeout".to_string()));
    assert_eq!(
        transcription("openai", Some(("openai", failed))).unwrap_err(),
        "request failed: timeout"
    );
}

/// A provider that says how long the clip is, or fails.
struct Counter {
    fails: bool,
}

impl SttProvider for Counter {
    fn transcribe(&self, samples: &Vec<i16>, sample_rate: u32) -> Result<String, SttError> {
        if self.fails {
            Err(SttError::Http("timeout".to_string()))
        } else {
            Ok(format!("{} at {}", samples.len(), sample_rate))
        }
    }

    fn name(&self) -> &'static str {
        "counter"
    }
}

#[test]
fn a_clip_goes_to_the_provider_that_was_built() {
    let clip = vec![0i16; 7];
    let t = transcribe_clip("x", &Some(Counter { fails: false }), &clip, 16_000).unwrap();
    assert_eq!((t.text.as_str(), t.provider.as_str()), ("7 at 16000", "counter"));
    let failed = transcribe_clip("x", &Some(Counter { fails: true }), &clip, 16_000);
    assert_eq!(failed.unwrap_err(), "request failed: timeout");
    assert_eq!(
        transcribe_clip("x", &None::<Counter>, &clip, 16_000).unwrap_err(),
        "no API key for 'x' \u{2014} run: holler set-key x <KEY>"
    );
}

#[test]
fn the_status_decides_between_transcript_and_error() {
    let heard = || Ok(vec![vec![" hello ".to_string()]]);
    let ok = DeepgramStt::answer(&status(200, "200 OK"), "body".into(), None, heard());
    assert_eq!(ok, Ok("hello".to_string()));
    let no = DeepgramStt::answer(&status(401, "401 Unauthorized"), "body".into(), None, heard());
    assert_eq!(no, Err(SttError::Api("HTTP 401 Unauthorized: body".to_string())));
    let said = || Ok(" hello ".to_string());
    let ok = OpenAiStt::answer(&status(200, "200 OK"), "body".into(), None, said());
    assert_eq!(ok, Ok("hello".to_string()));
    let no = OpenAiStt::answer(&status(500, "500 Oops"), "body".into(), None, said());
    assert_eq!(no, Err(SttError::Api("HTTP 500 Oops: body".to_string())));
}

#[test]
fn errors_have_their_own_words() {
    let m = || "x".to_string();
    assert_eq!(SttError::Encode(m()).message(), "audio encode failed: x");
    assert_eq!(SttError::Http(m()).message(), "request failed: x");
    assert_eq!(SttError::Api(m()).message(), "transcription API error: x");
    assert_eq!(SttError::Parse(m()).message(), "could not parse response: x");
}

#[test]
fn keys_are_stored_loaded_and_deleted() {
    let text = store_key("openai", "sk-1", Ok(SecretTable::new())).unwrap();
    let back = holler::secrets::read_all(Some(Ok(text)));
    assert_eq!(load_key("openai", None, &back), Some("sk-1".to_string()));
    let text = delete_key("openai", back).unwrap().unwrap();
    let back = holler::secrets::read_all(Some(Ok(text)));
    assert_eq!(load_key("openai", None, &back), None);
}

#[test]
fn set_key_reads_its_arguments() {
    let args = |list: &[&str]| list.iter().map(|s| s.to_string()).collect::<Vec<String>>();
    assert_eq!(run_set_key(&args(&["holler", "set-key", "openai"])), SetKey::Usage);
    assert_eq!(
        run_set_key(&args(&["holler", "set-key", "azure", "k"])),
        SetKey::Unknown("azure".to_string())
    );
    assert_eq!(
        run_set_key(&args(&["holler", "set-key", "deepgram", "k"])),
        SetKey::Store { provider: "deepgram".to_string(), key: "k".to_string() }
    );
}
