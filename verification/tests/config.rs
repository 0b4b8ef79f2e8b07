use holler::config::{
    config_path, load_or_create, log_path, save, save_next, Config, ConfigError, FoundConfig,
    PartialConfig, SaveStep,
};

fn text_field(t: &toml::Table, name: &str) -> Option<String> {
    t.get(name).map(|v| v.as_str().unwrap().to_string())
}

fn bool_field(t: &toml::Table, name: &str) -> Option<bool> {
    t.get(name).map(|v| v.as_bool().unwrap())
}

fn parse(text: &str) -> Config {
    let t: toml::Table = text.parse().unwrap();
    Config::from_partial(PartialConfig {
        ptt_key: text_field(&t, "ptt_key"),
        stt_provider: text_field(&t, "stt_provider"),
        stt_model: text_field(&t, "stt_model"),
        injection_mode: text_field(&t, "injection_mode"),
        vad: bool_field(&t, "vad"),
        clipboard_toast: bool_field(&t, "clipboard_toast"),
        tts_backend: text_field(&t, "tts_backend"),
        tts_voice: text_field(&t, "tts_voice"),
        tts_rate: t.get("tts_rate").map(|v| v.as_integer().unwrap() as u32),
        tts_read_hotkey: text_field(&t, "tts_read_hotkey"),
        tts_read_clipboard_hotkey: text_field(&t, "tts_read_clipboard_hotkey"),
        tts_stop_hotkey: text_field(&t, "tts_stop_hotkey"),
    })
}

fn render(c: &Config) -> String {
    let p = c.to_partial();
    let mut t = toml::Table::new();
    let mut put = |name: &str, v: Option<toml::Value>| {
        if let Some(v) = v {
            t.insert(name.to_string(), v);
        }
    };
    put("ptt_key", p.ptt_key.map(toml::Value::String));
    put("stt_provider", p.stt_provider.map(toml::Value::String));
    put("stt_model", p.stt_model.map(toml::Value::String));
    put("injection_mode", p.injection_mode.map(toml::Value::String));
    put("vad", p.vad.map(toml::Value::Boolean));
    put("clipboard_toast", p.clipboard_toast.map(toml::Value::Boolean));
    put("tts_backend", p.tts_backend.map(toml::Value::String));
    put("tts_voice", p.tts_voice.map(toml::Value::String));
    put("tts_rate", p.tts_rate.map(|r| toml::Value::Integer(r as i64)));
    put("tts_read_hotkey", p.tts_read_hotkey.map(toml::Value::String));
    put("tts_read_clipboard_hotkey", p.tts_read_clipboard_hotkey.map(toml::Value::String));
    put("tts_stop_hotkey", p.tts_stop_hotkey.map(toml::Value::String));
    toml::to_string_pretty(&t).unwrap()
}

#[test]
fn defaults_are_sane() {
    let c = Config::default();
    assert_eq!(c.stt_provider, "deepgram");
    assert_eq!(c.injection_mode, "paste");
    assert_eq!(c.model_override(), None);
    assert!(c.vad);
    assert!(c.clipboard_toast);
}

#[test]
fn clipboard_toast_defaults_on_when_absent() {
    // An older config file with no clipboard_toast key must opt in by default.
    let back = parse("stt_provider = \"openai\"\n");
    assert!(back.clipboard_toast);
}

#[test]
fn toml_roundtrips() {
    let c = Config::default();
    let text = render(&c);
    let back = parse(&text);
    assert_eq!(c, back);
}

#[test]
fn partial_toml_fills_defaults() {
    // Only one field set; the rest must come from Default.
    let back = parse("stt_provider = \"openai\"\n");
    assert_eq!(back.stt_provider, "openai");
    assert_eq!(back.injection_mode, "paste");
}

#[test]
fn tts_defaults_are_sane() {
    let c = Config::default();
    assert_eq!(c.tts_backend, "native");
    assert_eq!(c.tts_voice_override(), None);
    assert_eq!(c.tts_rate_override(), None);
    assert_eq!(c.tts_read_hotkey, "ctrl+alt+r");
    assert_eq!(c.tts_read_clipboard_hotkey, "ctrl+alt+c");
    assert_eq!(c.tts_stop_hotkey, "ctrl+alt+period");
}

#[test]
fn tts_fields_default_when_absent() {
    // An older config file with no tts_* keys must fall back to defaults.
    let back = parse("stt_provider = \"openai\"\n");
    assert_eq!(back.tts_backend, "native");
    assert_eq!(back.tts_voice, "");
    assert_eq!(back.tts_rate, 0);
    assert_eq!(back.tts_read_hotkey, "ctrl+alt+r");
    assert_eq!(back.tts_stop_hotkey, "ctrl+alt+period");
}

#[test]
fn tts_voice_and_rate_overrides() {
    let c = Config { tts_voice: "  Samantha  ".to_string(), tts_rate: 180, ..Default::default() };
    assert_eq!(c.tts_voice_override(), Some("Samantha"));
    assert_eq!(c.tts_rate_override(), Some(180));
}

#[test]
fn model_override_trims_and_empties() {
    let mut c = Config { stt_model: "  nova-3  ".to_string(), ..Default::default() };
    assert_eq!(c.model_override(), Some("nova-3"));
    c.stt_model = "   ".to_string();
    assert_eq!(c.model_override(), None);
}

#[test]
fn a_full_file_needs_no_defaults() {
    let c = Config {
        ptt_key: "f8".to_string(),
        stt_provider: "openai".to_string(),
        vad: false,
        clipboard_toast: false,
        tts_rate: 5,
        ..Default::default()
    };
    assert_eq!(parse(&render(&c)), c);
}

#[test]
fn files_are_found_in_their_directories() {
    let f = config_path(Some("/conf")).unwrap();
    assert_eq!((f.dir, f.file.as_str()), ("/conf", "config.toml"));
    let f = log_path(Some("/data")).unwrap();
    assert_eq!((f.dir, f.file.as_str()), ("/data", "holler.log"));
    let e = config_path::<&str>(None).unwrap_err();
    assert_eq!(e.message(), "config path error: could not determine a config directory");
}

#[test]
fn loading_without_a_file_creates_one() {
    let l = load_or_create(FoundConfig::Absent).unwrap();
    assert!(l.create);
    assert_eq!(l.config, Config::default());
    let e = load_or_create(FoundConfig::Unreadable("denied".to_string())).unwrap_err();
    assert_eq!(e.message(), "config i/o error: denied");
    let e = load_or_create(FoundConfig::Malformed("line 1".to_string())).unwrap_err();
    assert_eq!(e.message(), "config parse error: line 1");
}

#[test]
fn saving_goes_step_by_step() {
    let first = save(config_path(Some("/conf")));
    assert_eq!(first, SaveStep::CreateDir);
    let second = save_next(first, Ok(String::new()));
    assert_eq!(second, SaveStep::Render);
    let third = save_next(second, Ok("vad = true\n".to_string()));
    assert_eq!(third, SaveStep::Write("vad = true\n".to_string()));
    assert_eq!(save_next(third, Ok(String::new())), SaveStep::Ended(Ok(())));
}

#[test]
fn saving_stops_at_the_first_failure() {
    assert_eq!(
        save_next(SaveStep::CreateDir, Err("no".to_string())),
        SaveStep::Ended(Err(ConfigError::Io("no".to_string())))
    );
    assert_eq!(
        save_next(SaveStep::Render, Err("no".to_string())),
        SaveStep::Ended(Err(ConfigError::Serialize("no".to_string())))
    );
    assert_eq!(
        save_next(SaveStep::Write("x".to_string()), Err("full".to_string())),
        SaveStep::Ended(Err(ConfigError::Io("full".to_string())))
    );
    assert_eq!(ConfigError::Serialize("no".to_string()).message(), "config serialize error: no");
    match save(config_path::<&str>(None)) {
        SaveStep::Ended(Err(ConfigError::Path(_))) => {}
        other => panic!("unexpected step {other:?}"),
    }
}
