use holler::config::ConfigError;
use holler::secrets::{
    env_var_name, load_secret, read_all, remove_secret, secret_status, secrets_path, store_secret,
    SecretStatus, SecretTable, FILE_HEADER,
};

fn table(pairs: &[(&str, &str)]) -> SecretTable {
    let mut t = SecretTable::new();
    for (account, secret) in pairs {
        t = t.insert(account, secret);
    }
    t
}

#[test]
fn missing_account_reports_missing() {
    assert_eq!(
        secret_status("holler-test-nonexistent-provider", None, &Ok(SecretTable::new())),
        SecretStatus::Missing
    );
}

#[test]
fn env_var_reports_from_env() {
    assert_eq!(env_var_name("holler_test_env_prov"), "HOLLER_HOLLER_TEST_ENV_PROV_KEY");
    assert_eq!(
        secret_status("holler_test_env_prov", Some("k".to_string()), &Ok(SecretTable::new())),
        SecretStatus::FromEnv
    );
}

#[test]
fn remove_of_absent_account_is_ok() {
    let r = remove_secret("holler-test-nonexistent-provider", Ok(SecretTable::new()));
    assert!(matches!(r, Ok(None)));
}

#[test]
fn what_is_stored_is_read_back() {
    let text = store_secret("deepgram", "dg \"quoted\" \\ key", Ok(table(&[("openai", "sk-1")]))).unwrap();
    assert!(text.starts_with(FILE_HEADER));
    let back = read_all(Some(Ok(text))).unwrap();
    assert_eq!(back.get("deepgram"), Some("dg \"quoted\" \\ key".to_string()));
    assert_eq!(back.get("openai"), Some("sk-1".to_string()));
    assert_eq!(back.get("other"), None);
}

#[test]
fn odd_characters_survive_the_file() {
    for secret in [
        "it's",
        "'\"'",
        "''' \"\"\"",
        "\n",
        "\r\n",
        "\r",
        "\ttab\u{0}nul\u{7f}",
        "back\\slash'",
        "\u{feff}é😀",
        "a = \"b\" # c",
        "\"\"\"'''\\\n",
    ] {
        let text = store_secret(secret, secret, Ok(table(&[("openai", "sk-1")]))).unwrap();
        let back = read_all(Some(Ok(text))).unwrap();
        assert_eq!(back.get(secret), Some(secret.to_string()));
        assert_eq!(back.get("openai"), Some("sk-1".to_string()));
    }
}

#[test]
fn storing_replaces_an_older_key() {
    let text = store_secret("openai", "new", Ok(table(&[("openai", "old")]))).unwrap();
    let back = read_all(Some(Ok(text))).unwrap();
    assert_eq!(load_secret("openai", None, &Ok(back)), Some("new".to_string()));
}

#[test]
fn a_removed_key_is_gone_and_the_others_stay() {
    let t = table(&[("openai", "sk-1"), ("deepgram", "dg-1")]);
    let text = remove_secret("openai", Ok(t)).unwrap().unwrap();
    let back = read_all(Some(Ok(text))).unwrap();
    assert_eq!(back.get("openai"), None);
    assert_eq!(back.get("deepgram"), Some("dg-1".to_string()));
}

#[test]
fn the_environment_comes_first() {
    let t = Ok(table(&[("openai", "filed")]));
    assert_eq!(load_secret("openai", Some("env".to_string()), &t), Some("env".to_string()));
    assert_eq!(secret_status("openai", Some("env".to_string()), &t), SecretStatus::FromEnv);
    // An empty variable counts as none.
    assert_eq!(load_secret("openai", Some(String::new()), &t), Some("filed".to_string()));
    assert_eq!(secret_status("openai", Some(String::new()), &t), SecretStatus::FromFile);
}

#[test]
fn no_file_is_an_empty_table() {
    let t = read_all(None).unwrap();
    assert_eq!(t.get("openai"), None);
}

#[test]
fn errors_are_told_apart() {
    assert!(matches!(read_all(Some(Err("denied".to_string()))), Err(ConfigError::Io(_))));
    assert!(matches!(read_all(Some(Ok("not toml =".to_string()))), Err(ConfigError::Parse(_))));
    let broken = read_all(Some(Ok("not toml =".to_string())));
    assert_eq!(secret_status("openai", None, &broken), SecretStatus::Missing);
    assert!(remove_secret("openai", broken).is_err());
    assert_eq!(
        secrets_path::<&str>(None).unwrap_err().message(),
        "config path error: could not determine a config directory"
    );
    assert_eq!(secrets_path(Some("/conf")).unwrap().file, "secrets.toml");
}
