//! The decisions of the HTTP mode: request defaults, output formats, voice
//! identifiers, and how failures map to HTTP errors.

use vstd::prelude::*;

use crate::lang::{DEFAULT_LANGUAGE, DEFAULT_PRESET_VOICE};
use crate::model::ModelVariant;
use crate::protocol::{VoiceKind, VoiceSelection};
use crate::synth::SynthesisFailure;
use crate::text::{blank, has_prefix, is_blank, owned, push_str, strip_prefix};

verus! {

/// The preset speakers of the custom-voice model, as the voice list shows
/// them.
pub open spec fn preset_speaker_names() -> Seq<Seq<char>> {
    seq![
        "ryan"@,
        "vivian"@,
        "serena"@,
        "aiden"@,
        "uncle_fu"@,
        "ono_anna"@,
        "sohee"@,
        "eric"@,
        "dylan"@,
    ]
}

pub fn preset_speakers() -> (r: Vec<String>)
    ensures
        r@.map_values(|s: String| s@) == preset_speaker_names(),
{
    let mut r: Vec<String> = Vec::new();
    r.push(owned("ryan"));
    r.push(owned("vivian"));
    r.push(owned("serena"));
    r.push(owned("aiden"));
    r.push(owned("uncle_fu"));
    r.push(owned("ono_anna"));
    r.push(owned("sohee"));
    r.push(owned("eric"));
    r.push(owned("dylan"));
    assert(r@.map_values(|s: String| s@) =~= preset_speaker_names());
    r
}

/// The voices the HTTP server offers: the preset speakers, then, on the base
/// model and where the profiles could be listed, `profile:<name>` for each
/// profile.
pub fn voice_ids(model: ModelVariant, profiles: Option<Vec<String>>) -> (r: Vec<String>)
    ensures
        r@.map_values(|s: String| s@) == preset_speaker_names() + (match profiles {
            Some(p) => if model == ModelVariant::Base {
                p@.map_values(|s: String| "profile:"@ + s@)
            } else {
                Seq::empty()
            },
            None => Seq::empty(),
        }),
{
    let mut voices = preset_speakers();
    let ghost base = voices@.map_values(|s: String| s@);
    if model == ModelVariant::Base {
        if let Some(names) = profiles {
            let n = names.len();
            let mut i: usize = 0;
            while i < n
                invariant
                    n == names@.len(),
                    i <= n,
                    voices@.map_values(|s: String| s@) =~= base + names@.take(i as int).map_values(
                        |s: String| "profile:"@ + s@,
                    ),
                decreases n - i,
            {
                let mut id = owned("profile:");
                push_str(&mut id, names[i].as_str());
                let ghost before = voices@;
                voices.push(id);
                proof {
                    assert(voices@ =~= before.push(id));
                    assert(names@.take(i + 1) =~= names@.take(i as int).push(names@[i as int]));
                    assert(voices@.map_values(|s: String| s@) =~= before.map_values(|s: String| s@).push(
                        id@,
                    ));
                }
                i += 1;
            }
            assert(names@.take(n as int) =~= names@);
        } else {
            assert(voices@.map_values(|s: String| s@) =~= base + Seq::empty());
        }
    } else {
        assert(voices@.map_values(|s: String| s@) =~= base + Seq::empty());
    }
    voices
}

pub fn default_voice() -> (r: String)
    ensures
        r@ == DEFAULT_PRESET_VOICE@,
{
    owned(DEFAULT_PRESET_VOICE)
}

pub fn default_language() -> (r: String)
    ensures
        r@ == DEFAULT_LANGUAGE@,
{
    owned(DEFAULT_LANGUAGE)
}

/// The encodings the HTTP server returns.
#[derive(Debug, Clone, Copy, PartialEq, Eq, Structural)]
pub enum AudioFormat {
    Ogg,
    Mp3,
}

pub fn default_format() -> (r: AudioFormat)
    ensures
        r == AudioFormat::Ogg,
{
    AudioFormat::Ogg
}

impl AudioFormat {
    pub fn content_type(self) -> (s: &'static str)
        ensures
            s@ == (match self {
                AudioFormat::Ogg => "audio/ogg"@,
                AudioFormat::Mp3 => "audio/mpeg"@,
            }),
    {
        match self {
            AudioFormat::Ogg => "audio/ogg",
            AudioFormat::Mp3 => "audio/mpeg",
        }
    }

    /// The container name `ffmpeg -f` takes.
    pub fn ffmpeg_format(self) -> (s: &'static str)
        ensures
            s@ == (match self {
                AudioFormat::Ogg => "ogg"@,
                AudioFormat::Mp3 => "mp3"@,
            }),
    {
        match self {
            AudioFormat::Ogg => "ogg",
            AudioFormat::Mp3 => "mp3",
        }
    }
}

/// A failed HTTP request: its status code, error code and message.
#[derive(Debug, Clone)]
pub struct HttpError {
    pub status: u16,
    pub code: String,
    pub message: String,
}

impl HttpError {
    /// A `400 Bad Request`.
    pub fn bad_request(code: String, message: String) -> (e: Self)
        ensures
            e == (HttpError { status: 400, code, message }),
    {
        HttpError { status: 400, code, message }
    }

    /// A `500 Internal Server Error` with code `internal`.
    pub fn internal(message: String) -> (e: Self)
        ensures
            e.status == 500,
            e.code@ == "internal"@,
            e.message == message,
    {
        HttpError { status: 500, code: owned("internal"), message }
    }

    /// A synthesis that failed: `422 Unprocessable Entity` with the failure's
    /// code and message.
    pub fn from_synthesis_failure(failure: SynthesisFailure) -> (e: Self)
        ensures
            e == (HttpError { status: 422, code: failure.code, message: failure.message }),
    {
        HttpError { status: 422, code: failure.code, message: failure.message }
    }
}

/// Refuses a request whose text is blank.
pub fn check_tts_text(text: &str) -> (r: Result<(), HttpError>)
    ensures
        !is_blank(text@) ==> r is Ok,
        is_blank(text@) ==> (r matches Err(e) && e.status == 400 && e.code@ == "bad_request"@
            && e.message@ == "text is empty"@),
{
    if blank(text) {
        Err(HttpError::bad_request(owned("bad_request"), owned("text is empty")))
    } else {
        Ok(())
    }
}

/// The voice an HTTP request names: `profile:<name>` (the name not empty),
/// or a preset speaker's name, refused with the speaker parser's message
/// `speaker_error` where it is not one.
pub fn parse_voice_id(voice: &str, speaker_error: Option<String>) -> (r: Result<
    VoiceSelection,
    HttpError,
>)
    ensures
        has_prefix(voice@, "profile:"@) ==> {
            let name = voice@.skip("profile:"@.len() as int);
            if name.len() == 0 {
                r matches Err(e) && e.status == 400 && e.code@ == "bad_request"@ && e.message@
                    == "profile name is empty"@
            } else {
                r matches Ok(v) && v@ == (VoiceKind::Profile, name)
            }
        },
        !has_prefix(voice@, "profile:"@) ==> match speaker_error {
            Some(err) => r matches Err(e) && e.status == 400 && e.code@ == "bad_request"@
                && e.message@ == "unknown voice: unknown preset voice '"@ + voice@ + "': "@ + err@,
            None => r matches Ok(v) && v@ == (VoiceKind::Preset, voice@),
        },
{
    match strip_prefix(voice, "profile:") {
        Some(name) => {
            if name.as_str().is_empty() {
                Err(HttpError::bad_request(owned("bad_request"), owned("profile name is empty")))
            } else {
                Ok(VoiceSelection::profile(name))
            }
        },
        None => match speaker_error {
            Some(err) => {
                let mut m = owned("unknown voice: unknown preset voice '");
                push_str(&mut m, voice);
                push_str(&mut m, "': ");
                push_str(&mut m, err.as_str());
                Err(HttpError::bad_request(owned("bad_request"), m))
            },
            None => Ok(VoiceSelection::preset(owned(voice))),
        },
    }
}

} // verus!
