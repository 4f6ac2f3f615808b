use speake_rs::spd::{
    normalize_spd_language, parse_spd_scalar, playback_argv, playback_words,
    resolve_playback_command, sanitize_spd_text, spd_text_to_speak, PlaybackError, SpdScalar,
};

#[test]
fn strips_ssml_tags_from_spd_input() {
    let input = "<speak>module activity test</speak>";
    assert_eq!(sanitize_spd_text(input), "module activity test");
}

#[test]
fn leaves_plain_text_unchanged() {
    assert_eq!(sanitize_spd_text("hello world"), "hello world");
}

#[test]
fn sanitize_trims_and_keeps_stray_brackets() {
    assert_eq!(sanitize_spd_text("  a > b  "), "a > b");
    assert_eq!(sanitize_spd_text("3 < 4"), "3 < 4");
    assert_eq!(sanitize_spd_text(" x > y <b>z</b> "), "x > y z");
    assert_eq!(sanitize_spd_text("<a>  <b> "), "");
}

#[test]
fn sanitize_is_idempotent() {
    for input in ["<speak> hi <break/> there </speak>", "a < b > c", "plain", " >x< "] {
        let once = sanitize_spd_text(input);
        assert_eq!(sanitize_spd_text(&once), once);
    }
}

#[test]
fn language_normalization() {
    assert_eq!(normalize_spd_language(Some(" de-DE "), "en"), "de-DE");
    assert_eq!(normalize_spd_language(Some("C"), "en"), "en");
    assert_eq!(normalize_spd_language(Some("posix"), "fr"), "fr");
    assert_eq!(normalize_spd_language(Some("   "), "en"), "en");
    assert_eq!(normalize_spd_language(None, "ja"), "ja");
}

fn value(s: SpdScalar) -> Option<i32> {
    match s {
        SpdScalar::Value(v) => Some(v),
        _ => None,
    }
}

#[test]
fn scalar_values_are_clamped() {
    assert_eq!(value(parse_spd_scalar(Some("50"))), Some(50));
    assert_eq!(value(parse_spd_scalar(Some(" +7 "))), Some(7));
    assert_eq!(value(parse_spd_scalar(Some("250"))), Some(100));
    assert_eq!(value(parse_spd_scalar(Some("-300"))), Some(-100));
    assert_eq!(value(parse_spd_scalar(Some("-2147483648"))), Some(-100));
    assert_eq!(value(parse_spd_scalar(Some("0"))), Some(0));
}

#[test]
fn scalar_absent_and_non_integer() {
    assert!(matches!(parse_spd_scalar(None), SpdScalar::Absent));
    assert!(matches!(parse_spd_scalar(Some("  ")), SpdScalar::Absent));
    match parse_spd_scalar(Some(" 1.5 ")) {
        SpdScalar::NotInteger(t) => assert_eq!(t, "1.5"),
        other => panic!("unexpected {other:?}"),
    }
    assert!(matches!(parse_spd_scalar(Some("2147483648")), SpdScalar::NotInteger(_)));
    assert!(matches!(parse_spd_scalar(Some("-")), SpdScalar::NotInteger(_)));
    assert!(matches!(parse_spd_scalar(Some("1 2")), SpdScalar::NotInteger(_)));
}

#[test]
fn playback_command_choice() {
    assert_eq!(
        resolve_playback_command(Some(" pw-play "), Some("aplay"), None).unwrap(),
        "pw-play"
    );
    assert_eq!(
        resolve_playback_command(Some("  "), Some(" paplay "), Some("aplay".to_string())).unwrap(),
        "paplay"
    );
    assert_eq!(
        resolve_playback_command(None, None, Some("aplay".to_string())).unwrap(),
        "aplay"
    );
    let err = resolve_playback_command(None, Some(""), None).unwrap_err();
    assert!(matches!(err, PlaybackError::NotFound));
    assert_eq!(
        err.message(),
        "no playback command found (set speech_dispatcher.playback_command or pass --playback-command)"
    );
}

#[test]
fn playback_command_is_split_like_a_shell() {
    assert_eq!(
        playback_argv("pw-play --volume 0.5").unwrap(),
        vec!["pw-play".to_string(), "--volume".to_string(), "0.5".to_string()]
    );
    assert_eq!(
        playback_argv("paplay '--device=my sink'").unwrap(),
        vec!["paplay".to_string(), "--device=my sink".to_string()]
    );
    let err = playback_argv("aplay 'open").unwrap_err();
    assert_eq!(err.message(), "failed to parse playback command: aplay 'open");
    assert!(matches!(playback_argv("   ").unwrap_err(), PlaybackError::Empty));
}

#[test]
fn playback_words_decide_the_argv() {
    let err = playback_words("aplay 'x", None).unwrap_err();
    assert_eq!(err.message(), "failed to parse playback command: aplay 'x");
    assert!(matches!(playback_words("", Some(Vec::new())).unwrap_err(), PlaybackError::Empty));
    assert_eq!(
        playback_words("aplay -q", Some(vec!["aplay".to_string(), "-q".to_string()])).unwrap(),
        vec!["aplay".to_string(), "-q".to_string()]
    );
}

#[test]
fn text_to_speak_skips_blank_text() {
    assert_eq!(spd_text_to_speak("<speak> </speak>"), None);
    assert_eq!(spd_text_to_speak("   "), None);
    assert_eq!(spd_text_to_speak(" <s>hi</s> "), Some("hi".to_string()));
}
