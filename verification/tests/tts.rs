use holler::config::Config;
use holler::stt::HttpStatus;
use holler::tts::{
    audio_in, build_tts, load_key, parse_api_error, resolve_backend, store_key, AudioReply,
    DeepgramSaid, DeepgramTts, NativeStep, NativeTts, OpenAiTts, PreparedAudio, ResolvedBackend,
    SpeakStep, TtsBackend, TtsError, Voice, VoiceKeys, NATIVE_UNSUPPORTED, PLAYBACK_UNSUPPORTED,
};

// ---- Backends ----

#[test]
fn backend_parses_case_insensitively() {
    // "cloud" stays an OpenAI alias for backward compatibility.
    assert_eq!(TtsBackend::from_config("Cloud"), TtsBackend::OpenAi);
    assert_eq!(TtsBackend::from_config("OPENAI"), TtsBackend::OpenAi);
    assert_eq!(TtsBackend::from_config("Deepgram"), TtsBackend::Deepgram);
    assert_eq!(TtsBackend::from_config("native"), TtsBackend::Native);
    // Unknown -> default.
    assert_eq!(TtsBackend::from_config("wat"), TtsBackend::Native);
    assert_eq!(TtsBackend::default(), TtsBackend::Native);
}

fn cfg_with_backend(backend: &str) -> Config {
    Config { tts_backend: backend.to_string(), ..Config::default() }
}

#[test]
fn native_config_resolves_native_regardless_of_key() {
    let cfg = cfg_with_backend("native");
    assert_eq!(resolve_backend(&cfg, false, false), ResolvedBackend::Native);
    assert_eq!(resolve_backend(&cfg, true, true), ResolvedBackend::Native);
}

#[test]
fn default_config_resolves_native() {
    let cfg = Config::default();
    assert_eq!(resolve_backend(&cfg, true, true), ResolvedBackend::Native);
}

#[test]
fn openai_config_uses_openai_only_with_key() {
    let cfg = cfg_with_backend("cloud");
    assert_eq!(resolve_backend(&cfg, true, false), ResolvedBackend::OpenAi);
    // The "openai" value behaves identically to the "cloud" alias.
    let cfg = cfg_with_backend("openai");
    assert_eq!(resolve_backend(&cfg, true, false), ResolvedBackend::OpenAi);
}

#[test]
fn deepgram_config_uses_deepgram_only_with_key() {
    let cfg = cfg_with_backend("deepgram");
    assert_eq!(resolve_backend(&cfg, false, true), ResolvedBackend::Deepgram);
}

#[test]
fn cloud_config_falls_back_to_native_without_its_key() {
    // OpenAI selected, only a Deepgram key present -> native.
    let cfg = cfg_with_backend("cloud");
    assert_eq!(resolve_backend(&cfg, false, true), ResolvedBackend::Native);
    // Deepgram selected, only an OpenAI key present -> native.
    let cfg = cfg_with_backend("deepgram");
    assert_eq!(resolve_backend(&cfg, true, false), ResolvedBackend::Native);
}

#[test]
fn unknown_backend_resolves_native() {
    let cfg = cfg_with_backend("wat");
    assert_eq!(resolve_backend(&cfg, true, true), ResolvedBackend::Native);
}

fn keys(openai: Option<&str>, deepgram: Option<&str>) -> VoiceKeys {
    VoiceKeys {
        openai: openai.map(|s| s.to_string()),
        deepgram: deepgram.map(|s| s.to_string()),
    }
}

#[test]
fn build_tts_always_returns_a_provider() {
    // Without a stored key the factory must still yield a working provider.
    let provider = build_tts(&Config::default(), &keys(None, None), keys(None, None));
    assert_eq!(provider.name(), "native");
}

#[test]
fn cloud_voices_carry_their_key() {
    let cfg = cfg_with_backend("openai");
    match build_tts(&cfg, &keys(Some("k"), None), keys(Some("k"), None)) {
        Voice::OpenAi(v) => assert_eq!((v.api_key.as_str(), v.voice.as_str()), ("k", "alloy")),
        other => panic!("unexpected voice {other:?}"),
    }
    let cfg = cfg_with_backend("deepgram");
    match build_tts(&cfg, &keys(None, Some("d")), keys(None, Some("d"))) {
        Voice::Deepgram(v) => assert_eq!(v.api_key, "d"),
        other => panic!("unexpected voice {other:?}"),
    }
    // A key that is gone at the second look leaves the system voice.
    assert_eq!(build_tts(&cfg, &keys(None, Some("d")), keys(None, None)).name(), "native");
}

// ---- Deepgram ----

fn deepgram() -> DeepgramTts {
    DeepgramTts::new("dg-test".into(), None)
}

#[test]
fn url_carries_model_and_wav_params() {
    let url = deepgram().request_url();
    assert!(url.starts_with(DeepgramTts::ENDPOINT));
    assert!(url.contains(&format!("model={}", DeepgramTts::DEFAULT_MODEL)));
    assert!(url.contains("encoding=linear16"));
    assert!(url.contains("container=wav"));
    assert!(url.contains("sample_rate=24000"));
}

#[test]
fn explicit_model_overrides_default_but_blank_falls_back() {
    let p = DeepgramTts::new("k".into(), Some("  aura-2-orion-en ".into()));
    assert!(p.request_url().contains("model=aura-2-orion-en"));
    let p = DeepgramTts::new("k".into(), Some("   ".into()));
    assert!(p.request_url().contains(&format!("model={}", DeepgramTts::DEFAULT_MODEL)));
}

fn member(body: &str, path: &[&str]) -> Option<String> {
    let mut v: serde_json::Value = serde_json::from_str(body).ok()?;
    for name in path {
        v = v.get(name)?.clone();
    }
    v.as_str().map(|s| s.to_string())
}

fn deepgram_error(body: &str) -> String {
    let said = DeepgramSaid {
        err_msg: member(body, &["err_msg"]),
        reason: member(body, &["reason"]),
        message: member(body, &["message"]),
    };
    parse_api_error(body.to_string(), said.first())
}

#[test]
fn parse_api_error_reads_deepgram_envelope() {
    let body = r#"{"err_code":"INVALID_AUTH","err_msg":"Invalid credentials","request_id":"x"}"#;
    assert_eq!(deepgram_error(body), "Invalid credentials");
    // `reason` is used by some endpoints when `err_msg` is absent.
    let body = r#"{"reason":"model not found"}"#;
    assert_eq!(deepgram_error(body), "model not found");
}

#[test]
fn deepgram_parse_api_error_falls_back_to_raw_body() {
    assert_eq!(deepgram_error("502 Bad Gateway"), "502 Bad Gateway");
}

#[test]
fn name_is_deepgram() {
    assert_eq!(deepgram().name(), "deepgram");
}

#[test]
fn deepgram_empty_text_is_a_silent_noop_without_a_network_call() {
    assert_eq!(deepgram().speak("   ", true), SpeakStep::Done(Ok(())));
}

#[test]
fn deepgram_stop_sets_the_flag_and_is_idempotent() {
    let mut p = deepgram();
    assert!(p.stop().is_ok());
    assert!(p.stop_requested);
    assert!(p.stop().is_ok());
}

#[test]
fn deepgram_speak_resets_a_prior_stop_flag() {
    let mut p = deepgram();
    assert!(p.stop().is_ok());
    assert_eq!(p.speak("", true), SpeakStep::Done(Ok(())));
    assert!(!p.stop_requested);
}

#[test]
fn deepgram_requests_carry_the_text() {
    let p = deepgram();
    assert_eq!(p.authorization(), "Token dg-test");
    let body = String::from_utf8(p.request("say \"hi\"").unwrap()).unwrap();
    assert_eq!(member(&body, &["text"]), Some("say \"hi\"".to_string()));
}

#[test]
fn deepgram_plays_what_was_prepared() {
    let mut p = deepgram();
    assert_eq!(p.speak("hi", true), SpeakStep::Synthesize);
    assert_eq!(p.synthesized(Ok(vec![1, 2])), SpeakStep::Play(vec![1, 2]));
    let audio = p.prepare(Ok(vec![3, 4]), true).unwrap();
    assert!(p.stop().is_ok());
    assert_eq!(p.synthesized(Ok(vec![1, 2])), SpeakStep::Done(Ok(())));
    assert_eq!(p.play_prepared(&audio, true), SpeakStep::Play(vec![3, 4]));
    assert!(!p.stop_requested);
    assert!(p.can_prefetch(true) && !p.can_prefetch(false));
    let refused = SpeakStep::Done(Err(TtsError::Unsupported(PLAYBACK_UNSUPPORTED.to_string())));
    assert_eq!(p.speak("hi", false), refused);
}

// ---- OpenAI ----

fn openai() -> OpenAiTts {
    OpenAiTts::new("sk-test".into(), OpenAiTts::DEFAULT_MODEL.into(), None)
}

fn body_of(p: &OpenAiTts, text: &str, name: &str) -> String {
    let bytes = p.request(text).unwrap();
    member(&String::from_utf8(bytes).unwrap(), &[name]).unwrap()
}

#[test]
fn request_body_carries_model_voice_input_and_wav_format() {
    let p = openai();
    assert_eq!(body_of(&p, "hello world", "model"), OpenAiTts::DEFAULT_MODEL);
    assert_eq!(body_of(&p, "hello world", "voice"), OpenAiTts::DEFAULT_VOICE);
    assert_eq!(body_of(&p, "hello world", "input"), "hello world");
    assert_eq!(body_of(&p, "hello world", "response_format"), "wav");
}

#[test]
fn explicit_voice_overrides_default_but_blank_falls_back() {
    let p = OpenAiTts::new("k".into(), "m".into(), Some("  nova ".into()));
    assert_eq!(body_of(&p, "x", "voice"), "nova");
    let p = OpenAiTts::new("k".into(), "m".into(), Some("   ".into()));
    assert_eq!(body_of(&p, "x", "voice"), OpenAiTts::DEFAULT_VOICE);
}

fn openai_error(body: &str) -> String {
    parse_api_error(body.to_string(), member(body, &["error", "message"]))
}

#[test]
fn parse_api_error_reads_openai_envelope() {
    let body = r#"{"error":{"message":"Invalid API key","type":"auth"}}"#;
    assert_eq!(openai_error(body), "Invalid API key");
}

#[test]
fn openai_parse_api_error_falls_back_to_raw_body() {
    // Non-JSON proxy/gateway error must not be swallowed.
    assert_eq!(openai_error("502 Bad Gateway"), "502 Bad Gateway");
}

#[test]
fn name_is_openai() {
    assert_eq!(openai().name(), "openai");
}

#[test]
fn openai_empty_text_is_a_silent_noop_without_a_network_call() {
    let mut p = openai();
    assert_eq!(p.speak("   ", true), SpeakStep::Done(Ok(())));
    assert_eq!(p.speak("   ", false), SpeakStep::Done(Ok(())));
}

#[test]
fn openai_stop_sets_the_flag_and_is_idempotent() {
    let mut p = openai();
    assert!(p.stop().is_ok());
    assert!(p.stop_requested);
    assert!(p.stop().is_ok());
}

#[test]
fn openai_speak_resets_a_prior_stop_flag() {
    let mut p = openai();
    assert!(p.stop().is_ok());
    assert_eq!(p.speak("", true), SpeakStep::Done(Ok(())));
    assert!(!p.stop_requested);
}

#[test]
fn openai_probes_where_it_cannot_play() {
    let mut p = openai();
    assert_eq!(p.speak("hi", true), SpeakStep::Synthesize);
    assert_eq!(p.speak("hi", false), SpeakStep::Probe);
    let refused = SpeakStep::Done(Err(TtsError::Unsupported(PLAYBACK_UNSUPPORTED.to_string())));
    assert_eq!(p.synthesized(Ok(vec![1]), false), refused);
    let failed = || TtsError::Http("timeout".to_string());
    assert_eq!(p.synthesized(Err(failed()), false), SpeakStep::Done(Err(failed())));
    assert_eq!(p.synthesized(Ok(vec![1]), true), SpeakStep::Play(vec![1]));
    assert_eq!(
        OpenAiTts::from_stored_key("m".into(), None, None).unwrap_err().message(),
        "no API key configured for openai"
    );
}

// ---- The system voice ----

#[test]
fn new_blanks_voice_to_none() {
    let t = NativeTts::new(Some("   ".to_string()), None);
    assert_eq!(t.voice, None);
    let t = NativeTts::new(Some("Samantha".to_string()), Some(200));
    assert_eq!(t.voice.as_deref(), Some("Samantha"));
    assert_eq!(t.rate, Some(200));
}

#[test]
fn name_is_native() {
    assert_eq!(NativeTts::default().name(), "native");
}

#[test]
fn empty_text_is_a_silent_noop() {
    // Must not ask for a process (and must not error) on whitespace-only input.
    let t = NativeTts::default();
    assert_eq!(t.speak("   ", true), NativeStep::Done(Ok(())));
    assert_eq!(t.speak("   ", false), NativeStep::Done(Ok(())));
}

#[test]
fn the_system_voice_takes_arguments() {
    let t = NativeTts::new(Some("Samantha".to_string()), Some(200));
    match t.speak("hi", true) {
        NativeStep::Run(args) => assert_eq!(args, vec!["-v", "Samantha", "-r", "200", "--", "hi"]),
        other => panic!("unexpected step {other:?}"),
    }
    let refused = NativeStep::Done(Err(TtsError::Unsupported(NATIVE_UNSUPPORTED.to_string())));
    assert_eq!(t.speak("hi", false), refused);
}

// ---- Replies ----

#[test]
fn replies_become_audio_or_errors() {
    assert_eq!(audio_in(AudioReply::Audio(vec![7])), Ok(vec![7]));
    assert_eq!(
        audio_in(AudioReply::Audio(vec![])),
        Err(TtsError::Playback("empty audio response".to_string()))
    );
    assert_eq!(
        audio_in(AudioReply::Failed("dns".to_string())),
        Err(TtsError::Http("dns".to_string()))
    );
    let refused = AudioReply::Refused {
        status: HttpStatus { code: 402, line: "402 Payment Required".to_string() },
        body: "raw".to_string(),
        message: None,
    };
    assert_eq!(
        audio_in(refused).unwrap_err().message(),
        "tts API error: HTTP 402 Payment Required: raw"
    );
}

#[test]
fn tts_errors_have_their_own_words() {
    let m = || "x".to_string();
    assert_eq!(TtsError::Engine(m()).message(), "speech engine error: x");
    assert_eq!(TtsError::Http(m()).message(), "request failed: x");
    assert_eq!(TtsError::Playback(m()).message(), "playback failed: x");
    assert_eq!(TtsError::Unsupported(m()).message(), "tts not supported here: x");
}

#[test]
fn openai_plays_what_was_prepared() {
    let mut p = openai();
    assert!(p.can_prefetch(true) && !p.can_prefetch(false));
    let audio = p.prepare(Ok(vec![3, 4]), true).unwrap();
    assert_eq!(
        p.prepare(Err(TtsError::Http("dns".to_string())), true),
        Err(TtsError::Http("dns".to_string()))
    );
    assert!(p.stop().is_ok());
    assert_eq!(p.play_prepared(&audio, true), SpeakStep::Play(vec![3, 4]));
    assert_eq!(p, openai());
}

#[test]
fn nothing_is_prepared_where_it_cannot_be_played() {
    let audio = PreparedAudio::new(vec![1]);
    let unprepared = Err(TtsError::Unsupported("this backend cannot pre-synthesize audio".into()));
    let unplayed = SpeakStep::Done(Err(TtsError::Unsupported(
        "this backend cannot play pre-synthesized audio".into(),
    )));
    let mut d = deepgram();
    assert!(d.stop().is_ok());
    assert_eq!(d.prepare(Ok(vec![1]), false), unprepared);
    assert_eq!(d.play_prepared(&audio, false), unplayed);
    assert!(d.stop_requested);
    let mut o = openai();
    assert!(o.stop().is_ok());
    assert_eq!(o.prepare(Ok(vec![1]), false), unprepared);
    assert_eq!(o.play_prepared(&audio, false), unplayed);
    assert!(o.stop_requested);
}

#[test]
fn prepared_audio_holds_its_bytes() {
    assert_eq!(PreparedAudio::new(vec![1, 2, 3]).as_bytes(), &[1, 2, 3]);
}

#[test]
fn voice_keys_are_stored_with_the_others() {
    let text = store_key("deepgram", "dg", Ok(holler::secrets::SecretTable::new())).unwrap();
    let back = holler::secrets::read_all(Some(Ok(text)));
    assert_eq!(load_key("deepgram", None, &back), Some("dg".to_string()));
}
