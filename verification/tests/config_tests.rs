use speake_rs::config::{parse_voice_binding, Config, SpeechDispatcherConfig, VoiceMap};
use speake_rs::model::ModelVariant;
use speake_rs::paths::EnvDirs;
use speake_rs::protocol::{describe_voice, VoiceSelection};

#[test]
fn map_profile_binding() {
    let resolved = parse_voice_binding("profile:my_voice").expect("parse");
    match resolved {
        VoiceSelection::Profile { name } => assert_eq!(name, "my_voice"),
        _ => panic!("unexpected voice kind"),
    }
}

#[test]
fn map_preset_binding() {
    let resolved = parse_voice_binding("preset:ryan").expect("parse");
    match resolved {
        VoiceSelection::Preset { name } => assert_eq!(name, "ryan"),
        _ => panic!("unexpected voice kind"),
    }
}

#[test]
fn fallback_profile_maps_to_profile_voice() {
    let cfg = SpeechDispatcherConfig {
        fallback_profile: Some("backup_xvec".to_string()),
        ..SpeechDispatcherConfig::default()
    };

    let selection = cfg.fallback_voice_selection().expect("fallback voice");
    match selection {
        VoiceSelection::Profile { name } => assert_eq!(name, "backup_xvec"),
        _ => panic!("unexpected fallback voice kind"),
    }
}

#[test]
fn empty_fallback_profile_is_ignored() {
    let cfg = SpeechDispatcherConfig {
        fallback_profile: Some("   ".to_string()),
        ..SpeechDispatcherConfig::default()
    };

    assert!(cfg.fallback_voice_selection().is_none());
}

#[test]
fn fallback_profile_is_trimmed() {
    let cfg = SpeechDispatcherConfig {
        fallback_profile: Some("  spare \t".to_string()),
        ..SpeechDispatcherConfig::default()
    };
    assert_eq!(cfg.fallback_voice_selection(), Some(VoiceSelection::profile("spare".to_string())));
}

#[test]
fn bare_binding_is_a_preset_and_names_are_trimmed() {
    assert_eq!(
        parse_voice_binding("  vivian ").unwrap(),
        VoiceSelection::preset("vivian".to_string())
    );
    assert_eq!(
        parse_voice_binding(" profile:  mine  ").unwrap(),
        VoiceSelection::profile("mine".to_string())
    );
    assert_eq!(
        parse_voice_binding("preset:").unwrap(),
        VoiceSelection::preset(String::new())
    );
}

#[test]
fn binding_label_roundtrip() {
    for voice in [
        VoiceSelection::preset("ryan".to_string()),
        VoiceSelection::profile("sample_voice".to_string()),
        VoiceSelection::preset("profile:odd".to_string()),
    ] {
        let label = describe_voice(&voice);
        assert_eq!(parse_voice_binding(&label).unwrap(), voice);
    }
}

#[test]
fn default_voice_map_binds_symbolic_voices() {
    let cfg = SpeechDispatcherConfig::default();
    let expected = [
        ("MALE1", "preset:ryan"),
        ("MALE2", "preset:aiden"),
        ("MALE3", "preset:dylan"),
        ("FEMALE1", "preset:vivian"),
        ("FEMALE2", "preset:serena"),
        ("FEMALE3", "preset:sohee"),
        ("CHILD_MALE", "preset:eric"),
        ("CHILD_FEMALE", "preset:ono_anna"),
    ];
    for (key, binding) in expected {
        assert_eq!(cfg.voice_map.get(key).map(|s| s.as_str()), Some(binding));
    }
    assert_eq!(cfg.voice_map.entries().len(), 8);
    assert_eq!(cfg.default_language, "en");
    assert_eq!(cfg.default_symbolic_voice, "MALE1");
    assert!(!cfg.allow_icl);
    assert!(cfg.playback_command.is_none());
}

#[test]
fn symbolic_voice_resolution_ignores_case_and_space() {
    let cfg = SpeechDispatcherConfig::default();
    let want = VoiceSelection::preset("aiden".to_string());
    assert_eq!(cfg.resolve_voice_selection(Some("male2")).unwrap(), want);
    assert_eq!(cfg.resolve_voice_selection(Some("  Male2 ")).unwrap(), want);
    assert_eq!(cfg.resolve_voice_selection(Some("MALE2")).unwrap(), want);
}

#[test]
fn missing_or_blank_symbolic_voice_uses_default() {
    let cfg = SpeechDispatcherConfig::default();
    let ryan = VoiceSelection::preset("ryan".to_string());
    assert_eq!(cfg.resolve_voice_selection(None).unwrap(), ryan);
    assert_eq!(cfg.resolve_voice_selection(Some("   ")).unwrap(), ryan);
}

#[test]
fn unknown_symbolic_voice_falls_back_to_default_preset() {
    let mut cfg = SpeechDispatcherConfig::default();
    cfg.voice_map = VoiceMap::new();
    assert_eq!(
        cfg.resolve_voice_selection(Some("FEMALE1")).unwrap(),
        VoiceSelection::preset("ryan".to_string())
    );
}

#[test]
fn profile_binding_in_voice_map() {
    let mut cfg = SpeechDispatcherConfig::default();
    cfg.voice_map.insert("MALE1".to_string(), "profile:sample_voice".to_string());
    assert_eq!(
        cfg.resolve_voice_selection(None).unwrap(),
        VoiceSelection::profile("sample_voice".to_string())
    );
}

#[test]
fn voice_map_insert_replaces_and_reads_back() {
    let mut map = VoiceMap::new();
    assert!(map.get("A").is_none());
    map.insert("A".to_string(), "preset:x".to_string());
    map.insert("B".to_string(), "preset:y".to_string());
    map.insert("A".to_string(), "preset:z".to_string());
    assert_eq!(map.get("A").map(|s| s.as_str()), Some("preset:z"));
    assert_eq!(map.get("B").map(|s| s.as_str()), Some("preset:y"));
    assert_eq!(map.entries().len(), 2);
    let copy = map.clone();
    assert_eq!(copy.get("A").map(|s| s.as_str()), Some("preset:z"));
}

#[test]
fn daemon_config_defaults_and_socket() {
    let cfg = Config::default();
    assert_eq!(cfg.daemon.model, ModelVariant::CustomVoice);
    assert_eq!(cfg.daemon.request_timeout_ms, 60_000);
    assert_eq!(cfg.daemon.synthesis_timeout_ms, 90_000);
    let env = EnvDirs {
        home: Some("/home/u".to_string()),
        xdg_config_home: None,
        xdg_data_home: None,
        xdg_runtime_dir: Some("/run/user/1000".to_string()),
    };
    assert_eq!(
        cfg.daemon.resolved_socket_path(&env),
        "/run/user/1000/speake-rs/daemon.sock"
    );
    let mut custom = cfg.daemon.clone();
    custom.socket_path = Some("/tmp/x.sock".to_string());
    assert_eq!(custom.resolved_socket_path(&env), "/tmp/x.sock");
}

#[test]
fn voice_map_keeps_names_in_order() {
    let mut map = VoiceMap::new();
    for name in ["MALE2", "CHILD_MALE", "FEMALE1", "MALE1", "CHILD_MALE"] {
        map.insert(name.to_string(), format!("preset:{name}"));
    }
    let names: Vec<&str> = map.entries().iter().map(|(k, _)| k.as_str()).collect();
    assert_eq!(names, vec!["CHILD_MALE", "FEMALE1", "MALE1", "MALE2"]);
    let defaults = SpeechDispatcherConfig::default();
    let default_names: Vec<&str> =
        defaults.voice_map.entries().iter().map(|(k, _)| k.as_str()).collect();
    let mut sorted = default_names.clone();
    sorted.sort();
    assert_eq!(default_names, sorted);
}
