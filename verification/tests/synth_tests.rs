use speake_rs::model::ModelVariant;
use speake_rs::profile::{new_profile_meta, ProfileMode};
use speake_rs::protocol::VoiceSelection;
use speake_rs::synth::{PromptShape, SynthAction, SynthEvent, SynthMachine, SynthesisFailure};

fn machine(model: ModelVariant, allow_icl: bool, text: &str, voice: VoiceSelection) -> SynthMachine {
    SynthMachine::new(model, allow_icl, 90_000, text.to_string(), "en-us".to_string(), voice)
}

fn step(m: &mut SynthMachine, e: SynthEvent) -> SynthAction {
    assert!(m.accepts(&e));
    m.step(e)
}

fn failure(a: SynthAction) -> SynthesisFailure {
    match a {
        SynthAction::Fail(f) => f,
        other => panic!("expected a failure, got {other:?}"),
    }
}

#[test]
fn preset_request_runs_through() {
    let mut m = machine(ModelVariant::CustomVoice, false, "  hello  ", VoiceSelection::preset("ryan".to_string()));
    match step(&mut m, SynthEvent::Begin) {
        SynthAction::CheckLanguage { code } => assert_eq!(code, "en-us"),
        other => panic!("{other:?}"),
    }
    match step(&mut m, SynthEvent::LanguageChecked { error: None }) {
        SynthAction::CheckSpeaker { name } => assert_eq!(name, "ryan"),
        other => panic!("{other:?}"),
    }
    match step(&mut m, SynthEvent::SpeakerChecked { error: None }) {
        SynthAction::RenderPreset { text } => assert_eq!(text, "hello"),
        other => panic!("{other:?}"),
    }
    match step(&mut m, SynthEvent::AudioProduced { outcome: Ok(()), elapsed_nanos: 1_000 }) {
        SynthAction::Finish { icl } => assert!(!icl),
        other => panic!("{other:?}"),
    }
    assert!(!m.accepts(&SynthEvent::Begin));
}

#[test]
fn blank_text_is_refused() {
    let mut m = machine(ModelVariant::CustomVoice, false, " \n ", VoiceSelection::preset("ryan".to_string()));
    let f = failure(step(&mut m, SynthEvent::Begin));
    assert_eq!(f.code, "bad_request");
    assert_eq!(f.message, "text is empty");
    assert!(f.details.is_empty());
}

#[test]
fn unknown_language_and_speaker() {
    let mut m = machine(ModelVariant::CustomVoice, false, "hi", VoiceSelection::preset("bob".to_string()));
    step(&mut m, SynthEvent::Begin);
    let f = failure(step(&mut m, SynthEvent::LanguageChecked { error: Some("no such language".to_string()) }));
    assert_eq!(f.code, "bad_request");
    assert_eq!(f.message, "unknown language 'en-us': no such language");

    let mut m = machine(ModelVariant::CustomVoice, false, "hi", VoiceSelection::preset("bob".to_string()));
    step(&mut m, SynthEvent::Begin);
    step(&mut m, SynthEvent::LanguageChecked { error: None });
    let f = failure(step(&mut m, SynthEvent::SpeakerChecked { error: Some("bad".to_string()) }));
    assert_eq!(f.message, "unknown preset voice 'bob': bad");
}

#[test]
fn voice_must_match_model() {
    let mut m = machine(ModelVariant::Base, false, "hi", VoiceSelection::preset("ryan".to_string()));
    step(&mut m, SynthEvent::Begin);
    let f = failure(step(&mut m, SynthEvent::LanguageChecked { error: None }));
    assert_eq!(f.code, "device_incompatible");
    assert_eq!(f.message, "preset voices require daemon model custom-voice");

    let mut m = machine(ModelVariant::CustomVoice, false, "hi", VoiceSelection::profile("p".to_string()));
    step(&mut m, SynthEvent::Begin);
    let f = failure(step(&mut m, SynthEvent::LanguageChecked { error: None }));
    assert_eq!(f.code, "device_incompatible");
    assert_eq!(f.message, "profile voices require daemon model base");
}

#[test]
fn preset_render_error_and_timeout() {
    let mut m = machine(ModelVariant::CustomVoice, false, "hi", VoiceSelection::preset("ryan".to_string()));
    step(&mut m, SynthEvent::Begin);
    step(&mut m, SynthEvent::LanguageChecked { error: None });
    step(&mut m, SynthEvent::SpeakerChecked { error: None });
    let f = failure(step(&mut m, SynthEvent::AudioProduced {
        outcome: Err(vec!["tensor error".to_string()]),
        elapsed_nanos: 0,
    }));
    assert_eq!(f.code, "synthesis_failed");
    assert_eq!(f.message, "preset synthesis failed");
    assert_eq!(f.details, vec!["tensor error".to_string()]);

    let mut m = SynthMachine::new(ModelVariant::CustomVoice, false, 0, "hi".to_string(), "en".to_string(), VoiceSelection::preset("ryan".to_string()));
    step(&mut m, SynthEvent::Begin);
    step(&mut m, SynthEvent::LanguageChecked { error: None });
    step(&mut m, SynthEvent::SpeakerChecked { error: None });
    let f = failure(step(&mut m, SynthEvent::AudioProduced { outcome: Ok(()), elapsed_nanos: 2_500_000 }));
    assert_eq!(f.code, "synthesis_timeout");
    assert_eq!(f.message, "synthesis exceeded timeout (2ms > 1ms)");
}

fn to_meta(m: &mut SynthMachine, allow_icl_meta: ProfileMode, ids: Option<Vec<u32>>) -> SynthAction {
    step(m, SynthEvent::Begin);
    match step(m, SynthEvent::LanguageChecked { error: None }) {
        SynthAction::ReadProfileMeta { name } => assert_eq!(name, "voice1"),
        other => panic!("{other:?}"),
    }
    let meta = new_profile_meta("voice1".to_string(), allow_icl_meta, 0, ids);
    step(m, SynthEvent::MetaLoaded { outcome: Ok(meta) })
}

#[test]
fn icl_profiles_need_permission() {
    let mut m = machine(ModelVariant::Base, false, "hi", VoiceSelection::profile("voice1".to_string()));
    let f = failure(to_meta(&mut m, ProfileMode::Icl, Some(vec![1])));
    assert_eq!(f.code, "icl_not_allowed");
    assert_eq!(
        f.message,
        "ICL profile 'voice1' is disabled by config (speech_dispatcher.allow_icl=false)"
    );
}

#[test]
fn icl_profile_limits() {
    let mut m = machine(ModelVariant::Base, true, "hi", VoiceSelection::profile("voice1".to_string()));
    let f = failure(to_meta(&mut m, ProfileMode::Icl, Some(vec![0; 241])));
    assert_eq!(f.code, "profile_invalid");
    assert_eq!(f.message, "ICL profile 'voice1' has 241 ref text tokens; limit is 240");

    let mut m = machine(ModelVariant::Base, true, "hi", VoiceSelection::profile("voice1".to_string()));
    assert!(matches!(to_meta(&mut m, ProfileMode::Icl, Some(vec![0; 240])), SynthAction::LoadProfile { .. }));
    let f = failure(step(&mut m, SynthEvent::PromptLoaded { outcome: Ok(PromptShape::RefCodes { dims: Ok((100, 8)) }) }));
    assert_eq!(f.message, "ICL profile has 8 codebooks; expected 16");

    let mut m = machine(ModelVariant::Base, true, "hi", VoiceSelection::profile("voice1".to_string()));
    to_meta(&mut m, ProfileMode::Icl, None);
    let f = failure(step(&mut m, SynthEvent::PromptLoaded { outcome: Ok(PromptShape::RefCodes { dims: Ok((451, 16)) }) }));
    assert_eq!(f.message, "ICL profile has 451 reference frames; limit is 450");

    let mut m = machine(ModelVariant::Base, true, "hi", VoiceSelection::profile("voice1".to_string()));
    to_meta(&mut m, ProfileMode::Icl, None);
    let f = failure(step(&mut m, SynthEvent::PromptLoaded { outcome: Ok(PromptShape::NoRefCodes) }));
    assert_eq!(f.message, "ICL profile is missing ref_codes");
}

#[test]
fn icl_profile_runs_and_times_out_with_its_own_code() {
    let mut m = machine(ModelVariant::Base, true, "hi", VoiceSelection::profile("voice1".to_string()));
    to_meta(&mut m, ProfileMode::Icl, Some(vec![1, 2]));
    match step(&mut m, SynthEvent::PromptLoaded { outcome: Ok(PromptShape::RefCodes { dims: Ok((450, 16)) }) }) {
        SynthAction::RenderProfile { text, icl } => {
            assert_eq!(text, "hi");
            assert!(icl);
        }
        other => panic!("{other:?}"),
    }
    let f = failure(step(&mut m, SynthEvent::AudioProduced { outcome: Ok(()), elapsed_nanos: 90_000_000_001 }));
    assert_eq!(f.code, "icl_timeout");
    assert_eq!(f.message, "synthesis exceeded timeout (90000ms > 90000ms)");
}

#[test]
fn xvector_profile_runs_through() {
    let mut m = machine(ModelVariant::Base, false, "hi", VoiceSelection::profile("voice1".to_string()));
    assert!(matches!(to_meta(&mut m, ProfileMode::Xvector, None), SynthAction::LoadProfile { .. }));
    match step(&mut m, SynthEvent::PromptLoaded { outcome: Ok(PromptShape::NoRefCodes) }) {
        SynthAction::RenderProfile { icl, .. } => assert!(!icl),
        other => panic!("{other:?}"),
    }
    assert!(matches!(
        step(&mut m, SynthEvent::AudioProduced { outcome: Ok(()), elapsed_nanos: 90_000_000_000 }),
        SynthAction::Finish { icl: false }
    ));
}

#[test]
fn profile_errors_keep_their_causes() {
    let mut m = machine(ModelVariant::Base, false, "hi", VoiceSelection::profile("voice1".to_string()));
    step(&mut m, SynthEvent::Begin);
    step(&mut m, SynthEvent::LanguageChecked { error: None });
    let f = failure(step(&mut m, SynthEvent::MetaLoaded {
        outcome: Err(vec!["failed to read profile meta: /x".to_string(), "No such file".to_string()]),
    }));
    assert_eq!(f.code, "profile_invalid");
    assert_eq!(f.message, "failed to read profile meta: /x");
    assert_eq!(f.details, vec!["No such file".to_string()]);
}
