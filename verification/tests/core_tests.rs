use speake_rs::lang::{language_base, DEFAULT_LANGUAGE, DEFAULT_PRESET_VOICE};
use speake_rs::model::{ModelVariant, BASE_MODEL_ID, CUSTOM_VOICE_MODEL_ID};
use speake_rs::paths::{
    app_config_dir, app_data_dir, app_runtime_dir, config_home, config_path, data_home, join_path,
    pid_path, profiles_dir, runtime_home, socket_path, EnvDirs,
};
use speake_rs::protocol::{ensure_ok, DaemonResponse, ResponseData, SynthesisData};
use speake_rs::text::{join_strings, push_decimal, to_ascii_upper, trim};

#[test]
fn trim_removes_unicode_whitespace() {
    assert_eq!(trim("\u{3000} \t hi there \n\u{a0}"), "hi there");
    assert_eq!(trim("   "), "");
    assert_eq!(trim("x"), "x");
}

#[test]
fn ascii_upper_leaves_other_characters() {
    assert_eq!(to_ascii_upper("male1-é_z"), "MALE1-é_Z");
}

#[test]
fn decimal_and_join() {
    let decimal = |n: u128| {
        let mut s = String::new();
        push_decimal(&mut s, n);
        s
    };
    assert_eq!(decimal(0), "0");
    assert_eq!(decimal(90000), "90000");
    assert_eq!(decimal(u128::MAX), u128::MAX.to_string());
    let parts = vec!["a".to_string(), "b".to_string(), "c".to_string()];
    assert_eq!(join_strings(&parts, "; "), "a; b; c");
    assert_eq!(join_strings(&Vec::new(), "; "), "");
}

#[test]
fn model_variant_names() {
    assert_eq!(ModelVariant::Base.as_str(), "base");
    assert_eq!(ModelVariant::CustomVoice.as_str(), "custom-voice");
    assert_eq!(ModelVariant::Base.model_id(), BASE_MODEL_ID);
    assert_eq!(
        ModelVariant::CustomVoice.model_id(),
        "Qwen/Qwen3-TTS-12Hz-1.7B-CustomVoice"
    );
    assert_eq!(CUSTOM_VOICE_MODEL_ID, "Qwen/Qwen3-TTS-12Hz-1.7B-CustomVoice");
    assert_eq!(ModelVariant::default(), ModelVariant::CustomVoice);
}

#[test]
fn model_variant_parsing() {
    assert_eq!(ModelVariant::parse(" BASE ").unwrap(), ModelVariant::Base);
    assert_eq!(ModelVariant::parse("Custom_Voice").unwrap(), ModelVariant::CustomVoice);
    assert_eq!(ModelVariant::parse("customvoice").unwrap(), ModelVariant::CustomVoice);
    assert_eq!("custom-voice".parse::<ModelVariant>().unwrap(), ModelVariant::CustomVoice);
    let err = ModelVariant::parse("large").unwrap_err();
    assert_eq!(
        err.message(),
        "unsupported model variant 'large', expected one of: base, custom-voice"
    );
}

#[test]
fn model_variant_name_roundtrip() {
    for m in [ModelVariant::Base, ModelVariant::CustomVoice] {
        assert_eq!(ModelVariant::parse(m.as_str()).unwrap(), m);
    }
}

#[test]
fn language_defaults_and_base() {
    assert_eq!(DEFAULT_LANGUAGE, "en");
    assert_eq!(DEFAULT_PRESET_VOICE, "ryan");
    assert_eq!(language_base("en-us"), "en");
    assert_eq!(language_base("zh-cn-x"), "zh");
    assert_eq!(language_base("ja"), "ja");
    assert_eq!(language_base("-x"), "");
}

fn env(home: Option<&str>, cfg: Option<&str>, data: Option<&str>, run: Option<&str>) -> EnvDirs {
    EnvDirs {
        home: home.map(String::from),
        xdg_config_home: cfg.map(String::from),
        xdg_data_home: data.map(String::from),
        xdg_runtime_dir: run.map(String::from),
    }
}

#[test]
fn xdg_directories_and_fallbacks() {
    let e = env(Some("/home/u"), None, None, None);
    assert_eq!(config_home(&e), "/home/u/.config");
    assert_eq!(data_home(&e), "/home/u/.local/share");
    assert_eq!(runtime_home(&e), "/tmp");
    assert_eq!(app_config_dir(&e), "/home/u/.config/speake-rs");
    assert_eq!(app_data_dir(&e), "/home/u/.local/share/speake-rs");
    assert_eq!(app_runtime_dir(&e), "/tmp/speake-rs");
    assert_eq!(config_path(&e), "/home/u/.config/speake-rs/config.toml");
    assert_eq!(socket_path(&e), "/tmp/speake-rs/daemon.sock");
    assert_eq!(pid_path(&e), "/tmp/speake-rs/daemon.pid");
    assert_eq!(profiles_dir(&e), "/home/u/.local/share/speake-rs/voices");

    let x = env(None, Some("/cfg/"), Some("/data"), Some("/run/user/7"));
    assert_eq!(config_path(&x), "/cfg/speake-rs/config.toml");
    assert_eq!(profiles_dir(&x), "/data/speake-rs/voices");
    assert_eq!(socket_path(&x), "/run/user/7/speake-rs/daemon.sock");

    let none = env(None, None, None, None);
    assert_eq!(config_home(&none), "./.config");
}

#[test]
fn path_join_rules() {
    assert_eq!(join_path("/a", "b"), "/a/b");
    assert_eq!(join_path("/a/", "b"), "/a/b");
    assert_eq!(join_path("", "b"), "b");
    assert_eq!(join_path("/a", "/etc"), "/etc");
}

#[test]
fn failed_response_becomes_error_text() {
    let plain = DaemonResponse::error("bad_request".to_string(), "text is empty".to_string());
    assert_eq!(ensure_ok(plain).unwrap_err(), "bad_request: text is empty");

    let detailed = DaemonResponse::error_with_details(
        "synthesis_failed".to_string(),
        "preset synthesis failed".to_string(),
        vec!["out of memory".to_string(), "cuda".to_string()],
    );
    assert_eq!(
        ensure_ok(detailed).unwrap_err(),
        "synthesis_failed: preset synthesis failed; cause: out of memory; cause: cuda"
    );

    let bare = DaemonResponse {
        ok: false,
        error_code: None,
        error_message: None,
        error_details: None,
        data: None,
    };
    assert_eq!(ensure_ok(bare).unwrap_err(), "unknown: daemon returned an unspecified error");
}

#[test]
fn successful_response_gives_its_payload() {
    let data = ResponseData::Synthesis(SynthesisData { output: "/tmp/o.wav".to_string() });
    match ensure_ok(DaemonResponse::ok(Some(data))).unwrap() {
        Some(ResponseData::Synthesis(d)) => assert_eq!(d.output, "/tmp/o.wav"),
        other => panic!("unexpected {other:?}"),
    }
    assert!(ensure_ok(DaemonResponse::ok(None)).unwrap().is_none());
}

#[test]
fn error_without_details_leaves_them_out() {
    let a = DaemonResponse::error_with_details("c".to_string(), "m".to_string(), Vec::new());
    assert!(!a.ok);
    assert!(a.error_details.is_none());
    assert_eq!(a.error_code.as_deref(), Some("c"));
    assert_eq!(a.error_message.as_deref(), Some("m"));
    assert!(a.data.is_none());
}
