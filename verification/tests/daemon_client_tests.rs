use speake_rs::client::{clone_device_warning, speak_text};
use speake_rs::daemon::device_warning;
use speake_rs::client::{
    default_module_enabled, doctor_binding_warning, doctor_fallback_warning, fallback_profile_label,
    parse_model_arg, speak_voice, spd_attempts, spd_primary_voice, spd_voice_verdict, SpdAction,
    SpdEvent, SpdRun,
};
use speake_rs::config::{Config, SpeechDispatcherConfig};
use speake_rs::daemon::{
    daemon_target, default_profile_to_check, default_profile_verdict, health_response,
    internal_error_response, plan_request, profile_bindings, synthesis_response,
    voice_map_warning, DaemonOptions, RequestPlan,
};
use speake_rs::http::{
    check_tts_text, default_format, default_language, default_voice, parse_voice_id,
    preset_speakers, voice_ids, AudioFormat, HttpError,
};
use speake_rs::model::ModelVariant;
use speake_rs::paths::EnvDirs;
use speake_rs::profile::ProfileMode;
use speake_rs::protocol::{DaemonRequest, HealthData, ResponseData, SynthesisData, VoiceSelection};
use speake_rs::synth::SynthesisFailure;

fn env() -> EnvDirs {
    EnvDirs { home: None, xdg_config_home: None, xdg_data_home: None, xdg_runtime_dir: Some("/run".to_string()) }
}

#[test]
fn daemon_target_prefers_command_line() {
    let cfg = Config::default();
    let none = DaemonOptions { model: None, socket_path: None };
    assert_eq!(
        daemon_target(&none, &cfg, &env()),
        (ModelVariant::CustomVoice, "/run/speake-rs/daemon.sock".to_string())
    );
    let given = DaemonOptions { model: Some(ModelVariant::Base), socket_path: Some("/s".to_string()) };
    assert_eq!(daemon_target(&given, &cfg, &env()), (ModelVariant::Base, "/s".to_string()));
}

#[test]
fn request_lines_are_planned() {
    match plan_request("  \n", Err("ignored".to_string())) {
        RequestPlan::Reply(r) => {
            assert!(!r.ok);
            assert_eq!(r.error_code.as_deref(), Some("bad_request"));
            assert_eq!(r.error_message.as_deref(), Some("empty request"));
        }
        other => panic!("{other:?}"),
    }
    match plan_request("{", Err("EOF while parsing".to_string())) {
        RequestPlan::Reply(r) => {
            assert_eq!(r.error_message.as_deref(), Some("invalid JSON request: EOF while parsing"))
        }
        other => panic!("{other:?}"),
    }
    match plan_request("{\"type\":\"shutdown\"}", Ok(DaemonRequest::Shutdown)) {
        RequestPlan::ReplyAndStop(r) => assert!(r.ok && matches!(r.data, Some(ResponseData::Ack))),
        other => panic!("{other:?}"),
    }
    assert!(matches!(plan_request("x", Ok(DaemonRequest::Health)), RequestPlan::Health));
    let req = DaemonRequest::Synthesize {
        text: "hi".to_string(),
        language: "en".to_string(),
        output: "/tmp/o.wav".to_string(),
        voice: VoiceSelection::preset("ryan".to_string()),
        rate: Some(3),
        pitch: None,
    };
    match plan_request("x", Ok(req)) {
        RequestPlan::Synthesize { text, output, .. } => {
            assert_eq!(text, "hi");
            assert_eq!(output, "/tmp/o.wav");
        }
        other => panic!("{other:?}"),
    }
}

#[test]
fn responses() {
    let h = health_response(HealthData {
        pid: 1,
        model: ModelVariant::Base,
        device: "Cpu".to_string(),
        socket: "/s".to_string(),
        uptime_secs: 5,
    });
    assert!(h.ok && matches!(h.data, Some(ResponseData::Health(_))));
    let ok = synthesis_response(Ok(SynthesisData { output: "/o".to_string() }));
    assert!(ok.ok);
    let f = SynthesisFailure::with_details("synthesis_failed", "x".to_string(), vec!["y".to_string()]);
    let bad = synthesis_response(Err(f));
    assert!(!bad.ok);
    assert_eq!(bad.error_code.as_deref(), Some("synthesis_failed"));
    assert_eq!(bad.error_details, Some(vec!["y".to_string()]));
    let internal = internal_error_response(vec!["failed to read request".to_string(), "reset".to_string()]);
    assert_eq!(internal.error_code.as_deref(), Some("internal"));
    assert_eq!(internal.error_message.as_deref(), Some("failed to read request"));
    assert_eq!(internal.error_details, Some(vec!["reset".to_string()]));
}

#[test]
fn voice_policy_at_start_up() {
    let cfg = Config::default();
    assert_eq!(default_profile_to_check(&cfg), None);
    let mut cfg2 = Config::default();
    cfg2.speech_dispatcher.voice_map.insert("MALE1".to_string(), "profile:mine".to_string());
    assert_eq!(default_profile_to_check(&cfg2), Some("mine".to_string()));
    cfg2.speech_dispatcher.allow_icl = true;
    assert_eq!(default_profile_to_check(&cfg2), None);

    assert!(default_profile_verdict("mine", Ok(ProfileMode::Xvector)).is_ok());
    assert_eq!(
        default_profile_verdict("mine", Ok(ProfileMode::Icl)).unwrap_err(),
        vec!["default speech-dispatcher voice maps to ICL profile 'mine', but speech_dispatcher.allow_icl=false".to_string()]
    );
    assert_eq!(
        default_profile_verdict("mine", Err(vec!["io".to_string()])).unwrap_err(),
        vec!["default profile 'mine' is invalid".to_string(), "io".to_string()]
    );
}

#[test]
fn profile_bindings_of_voice_map() {
    let mut cfg = SpeechDispatcherConfig::default();
    assert!(profile_bindings(&cfg.voice_map).is_empty());
    cfg.voice_map.insert("FEMALE2".to_string(), " profile:a ".to_string());
    cfg.voice_map.insert("EXTRA".to_string(), "profile:b".to_string());
    let got = profile_bindings(&cfg.voice_map);
    assert_eq!(
        got,
        vec![("EXTRA".to_string(), "b".to_string()), ("FEMALE2".to_string(), "a".to_string())]
    );
    assert_eq!(voice_map_warning("MALE1", "a", Ok(ProfileMode::Xvector)), None);
    assert_eq!(
        voice_map_warning("MALE1", "a", Ok(ProfileMode::Icl)).unwrap(),
        "voice_map MALE1 references ICL profile 'a' while allow_icl=false; it will be rejected at request time"
    );
    assert_eq!(
        voice_map_warning("MALE1", "a", Err("gone".to_string())).unwrap(),
        "voice_map MALE1 references invalid profile 'a': gone"
    );
}

#[test]
fn client_voice_choices() {
    assert_eq!(parse_model_arg(None).unwrap(), None);
    assert_eq!(parse_model_arg(Some("base")).unwrap(), Some(ModelVariant::Base));
    assert!(parse_model_arg(Some("huge")).is_err());
    assert_eq!(speak_voice(None, None).unwrap(), VoiceSelection::preset("ryan".to_string()));
    assert_eq!(speak_voice(Some("eric".to_string()), None).unwrap(), VoiceSelection::preset("eric".to_string()));
    assert_eq!(speak_voice(None, Some("p".to_string())).unwrap(), VoiceSelection::profile("p".to_string()));
    assert_eq!(
        speak_voice(Some("a".to_string()), Some("b".to_string())).unwrap_err(),
        "--voice and --profile are mutually exclusive"
    );
    let cfg = SpeechDispatcherConfig::default();
    assert_eq!(
        spd_primary_voice(&cfg, Some("female1"), None, None).unwrap(),
        VoiceSelection::preset("vivian".to_string())
    );
    assert_eq!(
        spd_primary_voice(&cfg, Some("female1"), Some("p".to_string()), Some("q".to_string())).unwrap(),
        VoiceSelection::profile("p".to_string())
    );
    assert_eq!(
        spd_primary_voice(&cfg, None, None, Some("q".to_string())).unwrap(),
        VoiceSelection::preset("q".to_string())
    );
}

#[test]
fn attempts_skip_a_duplicate_fallback() {
    let p = VoiceSelection::profile("x".to_string());
    let a = spd_attempts(p.clone(), Some(VoiceSelection::profile("x".to_string())));
    assert_eq!(a.len(), 1);
    assert_eq!(a[0].1, "requested voice");
    let b = spd_attempts(VoiceSelection::preset("ryan".to_string()), Some(p.clone()));
    assert_eq!(b.len(), 2);
    assert_eq!(b[1], (p, "fallback profile".to_string()));
}

#[test]
fn spd_verdicts() {
    assert!(spd_voice_verdict(false, "x", Ok(ProfileMode::Xvector)).is_ok());
    assert!(spd_voice_verdict(true, "x", Ok(ProfileMode::Icl)).is_ok());
    assert_eq!(
        spd_voice_verdict(false, "x", Ok(ProfileMode::Icl)).unwrap_err(),
        "icl_not_allowed: profile 'x' is ICL and speech_dispatcher.allow_icl=false"
    );
    assert_eq!(
        spd_voice_verdict(true, "x", Err("io".to_string())).unwrap_err(),
        "failed to read profile metadata for 'x'"
    );
}

#[test]
fn spd_run_falls_back_then_succeeds() {
    let attempts = spd_attempts(
        VoiceSelection::profile("icl1".to_string()),
        Some(VoiceSelection::profile("backup".to_string())),
    );
    let mut run = SpdRun::new(false, attempts);
    match run.step(SpdEvent::Begin) {
        SpdAction::ReadProfile { name } => assert_eq!(name, "icl1"),
        other => panic!("{other:?}"),
    }
    match run.step(SpdEvent::ProfileRead { mode: Ok(ProfileMode::Icl) }) {
        SpdAction::ReadProfile { name } => assert_eq!(name, "backup"),
        other => panic!("{other:?}"),
    }
    match run.step(SpdEvent::ProfileRead { mode: Ok(ProfileMode::Xvector) }) {
        SpdAction::Send { voice } => assert_eq!(voice, VoiceSelection::profile("backup".to_string())),
        other => panic!("{other:?}"),
    }
    match run.step(SpdEvent::Sent { outcome: Ok(()) }) {
        SpdAction::Succeeded { voice } => assert_eq!(voice, VoiceSelection::profile("backup".to_string())),
        other => panic!("{other:?}"),
    }
    assert_eq!(run.notes.len(), 1);
}

#[test]
fn spd_run_reports_every_failure() {
    let attempts = spd_attempts(VoiceSelection::preset("ryan".to_string()), None);
    let mut run = SpdRun::new(false, attempts);
    assert!(matches!(run.step(SpdEvent::Begin), SpdAction::Send { .. }));
    assert!(run.accepts(&SpdEvent::Sent { outcome: Ok(()) }));
    match run.step(SpdEvent::Sent { outcome: Err("failed to send synth request to daemon".to_string()) }) {
        SpdAction::Failed { message } => assert_eq!(
            message,
            "all synthesis attempts failed: requested voice (preset:ryan) failed: failed to send synth request to daemon"
        ),
        other => panic!("{other:?}"),
    }
    let mut empty = SpdRun::new(false, Vec::new());
    match empty.step(SpdEvent::Begin) {
        SpdAction::Failed { message } => assert_eq!(
            message,
            "all synthesis attempts failed: no valid voice candidates were available"
        ),
        other => panic!("{other:?}"),
    }
}

#[test]
fn doctor_checks() {
    assert!(default_module_enabled("# x\n  defaultmodule SPEAKE-RS \r\nother"));
    assert!(default_module_enabled("DefaultModule speake-rs"));
    assert!(!default_module_enabled("DefaultModule espeak-ng\n"));
    assert!(!default_module_enabled(""));
    let mut cfg = SpeechDispatcherConfig::default();
    assert_eq!(fallback_profile_label(&cfg), "(unset)");
    cfg.fallback_profile = Some(" spare ".to_string());
    assert_eq!(fallback_profile_label(&cfg), " spare ");
    cfg.fallback_profile = Some("  ".to_string());
    assert_eq!(fallback_profile_label(&cfg), "(unset)");
    assert_eq!(
        doctor_binding_warning("MALE1", "p", false, Ok(ProfileMode::Icl)).unwrap(),
        "voice-map warning: MALE1 uses ICL profile 'p' but allow_icl=false"
    );
    assert_eq!(doctor_binding_warning("MALE1", "p", true, Ok(ProfileMode::Icl)), None);
    assert_eq!(
        doctor_binding_warning("MALE1", "p", true, Err("e".to_string())).unwrap(),
        "voice-map warning: MALE1 references unreadable profile 'p': e"
    );
    assert_eq!(
        doctor_fallback_warning("p", false, Ok(ProfileMode::Icl)).unwrap(),
        "fallback warning: fallback profile 'p' is ICL but allow_icl=false"
    );
    assert_eq!(
        doctor_fallback_warning("p", false, Err("e".to_string())).unwrap(),
        "fallback warning: fallback profile 'p' is not readable: e"
    );
}

#[test]
fn http_decisions() {
    assert_eq!(default_voice(), "ryan");
    assert_eq!(default_language(), "en");
    assert_eq!(default_format(), AudioFormat::Ogg);
    assert_eq!(AudioFormat::Ogg.content_type(), "audio/ogg");
    assert_eq!(AudioFormat::Mp3.content_type(), "audio/mpeg");
    assert_eq!(AudioFormat::Mp3.ffmpeg_format(), "mp3");
    assert_eq!(preset_speakers().len(), 9);
    let ids = voice_ids(ModelVariant::Base, Some(vec!["a".to_string()]));
    assert_eq!(ids.len(), 10);
    assert_eq!(ids[9], "profile:a");
    assert_eq!(voice_ids(ModelVariant::CustomVoice, Some(vec!["a".to_string()])).len(), 9);
    assert_eq!(voice_ids(ModelVariant::Base, None).len(), 9);

    assert_eq!(parse_voice_id("profile:me", None).unwrap(), VoiceSelection::profile("me".to_string()));
    let e = parse_voice_id("profile:", None).unwrap_err();
    assert_eq!((e.status, e.message.as_str()), (400, "profile name is empty"));
    assert_eq!(parse_voice_id("ryan", None).unwrap(), VoiceSelection::preset("ryan".to_string()));
    let e = parse_voice_id("nobody", Some("no such speaker".to_string())).unwrap_err();
    assert_eq!(e.message, "unknown voice: unknown preset voice 'nobody': no such speaker");

    assert!(check_tts_text(" hi ").is_ok());
    let e = check_tts_text("  ").unwrap_err();
    assert_eq!((e.status, e.code.as_str(), e.message.as_str()), (400, "bad_request", "text is empty"));
    let i = HttpError::internal("boom".to_string());
    assert_eq!((i.status, i.code.as_str()), (500, "internal"));
    let f = HttpError::from_synthesis_failure(SynthesisFailure::new("icl_timeout", "slow".to_string()));
    assert_eq!((f.status, f.code.as_str(), f.message.as_str()), (422, "icl_timeout", "slow"));
}

#[test]
fn device_and_text_decisions() {
    assert_eq!(device_warning(Ok(false)), None);
    assert_eq!(
        device_warning(Ok(true)).unwrap(),
        "CUDA was not selected; running on CPU (slower synthesis)."
    );
    assert_eq!(
        device_warning(Err("no cuda".to_string())).unwrap(),
        "failed to initialize accelerated device (no cuda); falling back to CPU"
    );
    assert_eq!(clone_device_warning(Ok(false)), None);
    assert_eq!(
        clone_device_warning(Ok(true)).unwrap(),
        "warning: CUDA not selected for clone task; using CPU"
    );
    assert_eq!(
        clone_device_warning(Err("x".to_string())).unwrap(),
        "warning: failed to initialize accelerated device (x); using CPU"
    );
    assert_eq!(speak_text(" \n".to_string()), None);
    assert_eq!(speak_text(" hi ".to_string()), Some(" hi ".to_string()));
}
