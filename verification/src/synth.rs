//! The checks the daemon makes around one synthesis request, as a state
//! machine: the caller performs each action it is given (parsing with the
//! model's tables, reading profile files, running the model) and hands the
//! result back as the next event, until the machine finishes or fails.

use vstd::prelude::*;

use crate::model::ModelVariant;
use crate::profile::{ProfileMeta, ProfileMode};
use crate::protocol::{VoiceKind, VoiceSelection};
use crate::text::{
    decimal, is_blank, lemma_trim_idempotent, owned, push_decimal, push_str, trim, trimmed,
};

verus! {

/// At most this many transcript tokens in an ICL profile.
pub const MAX_ICL_REF_TEXT_TOKENS: usize = 240;

/// At most this many reference code frames in an ICL profile.
pub const MAX_ICL_REF_CODE_FRAMES: usize = 450;

/// The generation limit, in frames, for ICL synthesis.
pub const ICL_MAX_GENERATION_FRAMES: usize = 240;

/// The number of codebooks an ICL profile's reference codes must have.
pub const ICL_CODEBOOKS: usize = 16;

/// Why a synthesis request failed: a short code, a message, and the
/// messages of the errors that caused it.
#[derive(Debug, Clone)]
pub struct SynthesisFailure {
    pub code: String,
    pub message: String,
    pub details: Vec<String>,
}

pub open spec fn texts(v: Seq<String>) -> Seq<Seq<char>> {
    v.map_values(|s: String| s@)
}

/// `f` has this code, message and details.
pub open spec fn failure_is(
    f: SynthesisFailure,
    code: Seq<char>,
    message: Seq<char>,
    details: Seq<Seq<char>>,
) -> bool {
    f.code@ == code && f.message@ == message && texts(f.details@) == details
}

/// `f` is made from an error chain (outermost error first): its message is
/// the first one, its details the rest.
pub open spec fn failure_from_chain(f: SynthesisFailure, code: Seq<char>, chain: Seq<Seq<char>>) -> bool {
    if chain.len() == 0 {
        failure_is(f, code, Seq::empty(), Seq::empty())
    } else {
        failure_is(f, code, chain[0], chain.skip(1))
    }
}

impl SynthesisFailure {
    pub fn new(code: &str, message: String) -> (f: Self)
        ensures
            failure_is(f, code@, message@, Seq::empty()),
    {
        let details: Vec<String> = Vec::new();
        assert(texts(details@) =~= Seq::empty());
        SynthesisFailure { code: owned(code), message, details }
    }

    pub fn with_details(code: &str, message: String, details: Vec<String>) -> (f: Self)
        ensures
            failure_is(f, code@, message@, texts(details@)),
    {
        SynthesisFailure { code: owned(code), message, details }
    }

    /// A failure made from an error and its causes, outermost first.
    pub fn from_error_chain(code: &str, chain: Vec<String>) -> (f: Self)
        ensures
            failure_from_chain(f, code@, texts(chain@)),
    {
        let mut chain = chain;
        if chain.len() == 0 {
            assert(texts(chain@) =~= Seq::empty());
            return SynthesisFailure { code: owned(code), message: String::new(), details: chain };
        }
        let ghost before = chain@;
        let message = chain.remove(0);
        assert(chain@ =~= before.skip(1));
        assert(texts(chain@) =~= texts(before).skip(1));
        SynthesisFailure { code: owned(code), message, details: chain }
    }
}

/// Where a request stands.
#[derive(Debug, Clone, Copy, PartialEq, Eq, Structural)]
pub enum SynthPhase {
    /// Not begun.
    Start,
    /// Waiting for the language to be checked.
    Language,
    /// Waiting for the preset speaker to be checked.
    Speaker,
    /// Waiting for the preset voice to be rendered.
    PresetAudio,
    /// Waiting for the profile's metadata.
    ProfileMeta,
    /// Waiting for the profile's clone prompt.
    ProfilePrompt,
    /// Waiting for the profile voice to be rendered.
    ProfileAudio,
    /// Finished, or failed.
    Done,
}

/// What a loaded clone prompt holds, as far as the checks need it.
#[derive(Debug)]
pub enum PromptShape {
    /// No reference codes.
    NoRefCodes,
    /// Reference codes, with their `(frames, codebooks)` dimensions or the
    /// error chain of reading them as a matrix.
    RefCodes { dims: Result<(usize, usize), Vec<String>> },
}

/// What the caller reports back.
#[derive(Debug)]
pub enum SynthEvent {
    Begin,
    /// The language was checked; `error` is the parser's message if it was
    /// refused.
    LanguageChecked { error: Option<String> },
    /// The preset speaker was checked; `error` is the parser's message if it
    /// was refused.
    SpeakerChecked { error: Option<String> },
    /// The model ran, and took this long; on failure, its error chain.
    AudioProduced { outcome: Result<(), Vec<String>>, elapsed_nanos: u128 },
    /// The profile metadata was read, or its error chain.
    MetaLoaded { outcome: Result<ProfileMeta, Vec<String>> },
    /// The clone prompt was loaded, or its error chain.
    PromptLoaded { outcome: Result<PromptShape, Vec<String>> },
}

/// What the caller is to do next.
#[derive(Debug, Clone)]
pub enum SynthAction {
    /// Check that the language `code` is known.
    CheckLanguage { code: String },
    /// Check that `name` is a preset speaker.
    CheckSpeaker { name: String },
    /// Render `text` with the preset speaker.
    RenderPreset { text: String },
    /// Read the metadata of the profile `name`.
    ReadProfileMeta { name: String },
    /// Load the clone prompt of the profile `name`.
    LoadProfile { name: String },
    /// Render `text` with the loaded profile (with the ICL settings where
    /// `icl`).
    RenderProfile { text: String, icl: bool },
    /// The rendered audio is the result; `icl` says it came from an ICL
    /// profile.
    Finish { icl: bool },
    /// The request failed.
    Fail(SynthesisFailure),
}

/// One synthesis request and how far it got.
#[derive(Debug, Clone)]
pub struct SynthMachine {
    pub model_variant: ModelVariant,
    pub allow_icl: bool,
    pub synthesis_timeout_ms: u64,
    pub text: String,
    pub language: String,
    pub voice: VoiceSelection,
    pub phase: SynthPhase,
    pub is_icl: bool,
}

/// The message of a timeout: the time taken and the limit, in whole
/// milliseconds.
pub open spec fn timeout_message(elapsed_nanos: nat, timeout_ms: nat) -> Seq<char> {
    "synthesis exceeded timeout ("@ + decimal(elapsed_nanos / 1_000_000) + "ms > "@ + decimal(
        timeout_ms,
    ) + "ms)"@
}

/// The synthesis time limit in milliseconds: the configured one, at least 1.
pub open spec fn effective_timeout_ms(configured: u64) -> nat {
    if configured == 0 {
        1
    } else {
        configured as nat
    }
}

pub open spec fn chain_of(outcome: Result<(), Vec<String>>) -> Seq<Seq<char>> {
    match outcome {
        Ok(_) => Seq::empty(),
        Err(c) => texts(c@),
    }
}

impl SynthMachine {
    /// Which event the machine waits for.
    pub open spec fn accepts_spec(&self, e: SynthEvent) -> bool {
        match (self.phase, e) {
            (SynthPhase::Start, SynthEvent::Begin) => true,
            (SynthPhase::Language, SynthEvent::LanguageChecked { .. }) => true,
            (SynthPhase::Speaker, SynthEvent::SpeakerChecked { .. }) => true,
            (SynthPhase::PresetAudio, SynthEvent::AudioProduced { .. }) => true,
            (SynthPhase::ProfileMeta, SynthEvent::MetaLoaded { .. }) => true,
            (SynthPhase::ProfilePrompt, SynthEvent::PromptLoaded { .. }) => true,
            (SynthPhase::ProfileAudio, SynthEvent::AudioProduced { .. }) => true,
            _ => false,
        }
    }

    /// What every reachable state satisfies: the voice path matches the
    /// model, and an ICL profile is only on its way when ICL is allowed.
    pub open spec fn wf(&self) -> bool {
        &&& (self.phase == SynthPhase::Speaker || self.phase == SynthPhase::PresetAudio) ==> (
        self.voice@.0 == VoiceKind::Preset && self.model_variant == ModelVariant::CustomVoice)
        &&& (self.phase == SynthPhase::ProfileMeta || self.phase == SynthPhase::ProfilePrompt
            || self.phase == SynthPhase::ProfileAudio) ==> (self.voice@.0 == VoiceKind::Profile
            && self.model_variant == ModelVariant::Base)
        &&& (self.phase == SynthPhase::ProfilePrompt || self.phase == SynthPhase::ProfileAudio)
            && self.is_icl ==> self.allow_icl
        &&& (self.phase != SynthPhase::Start && self.phase != SynthPhase::Done) ==> !is_blank(
            self.text@,
        )
    }

    /// The effect of one event: the next phase and the action, per phase.
    pub open spec fn step_spec(&self, e: SynthEvent, a: SynthAction, next: SynthMachine) -> bool {
        let name = self.voice@.1;
        let timeout = effective_timeout_ms(self.synthesis_timeout_ms);
        &&& next.model_variant == self.model_variant
        &&& next.allow_icl == self.allow_icl
        &&& next.synthesis_timeout_ms == self.synthesis_timeout_ms
        &&& next.language == self.language
        &&& next.voice == self.voice
        &&& (a is Fail || a is Finish) <==> next.phase == SynthPhase::Done
        &&& match e {
            SynthEvent::Begin => if is_blank(self.text@) {
                a matches SynthAction::Fail(f) && failure_is(
                    f,
                    "bad_request"@,
                    "text is empty"@,
                    Seq::empty(),
                )
            } else {
                &&& a matches SynthAction::CheckLanguage { code } && code@ == self.language@
                &&& next.phase == SynthPhase::Language
                &&& next.text@ == trimmed(self.text@)
            },
            SynthEvent::LanguageChecked { error } => {
                &&& next.text == self.text
                &&& match error {
                    Some(err) => a matches SynthAction::Fail(f) && failure_is(
                        f,
                        "bad_request"@,
                        "unknown language '"@ + self.language@ + "': "@ + err@,
                        Seq::empty(),
                    ),
                    None => if self.voice@.0 == VoiceKind::Preset {
                        if self.model_variant != ModelVariant::CustomVoice {
                            a matches SynthAction::Fail(f) && failure_is(
                                f,
                                "device_incompatible"@,
                                "preset voices require daemon model custom-voice"@,
                                Seq::empty(),
                            )
                        } else {
                            a matches SynthAction::CheckSpeaker { name: n } && n@ == name
                                && next.phase == SynthPhase::Speaker
                        }
                    } else {
                        if self.model_variant != ModelVariant::Base {
                            a matches SynthAction::Fail(f) && failure_is(
                                f,
                                "device_incompatible"@,
                                "profile voices require daemon model base"@,
                                Seq::empty(),
                            )
                        } else {
                            a matches SynthAction::ReadProfileMeta { name: n } && n@ == name
                                && next.phase == SynthPhase::ProfileMeta
                        }
                    },
                }
            },
            SynthEvent::SpeakerChecked { error } => {
                &&& next.text == self.text
                &&& match error {
                    Some(err) => a matches SynthAction::Fail(f) && failure_is(
                        f,
                        "bad_request"@,
                        "unknown preset voice '"@ + name + "': "@ + err@,
                        Seq::empty(),
                    ),
                    None => a matches SynthAction::RenderPreset { text } && text@ == self.text@
                        && next.phase == SynthPhase::PresetAudio,
                }
            },
            SynthEvent::AudioProduced { outcome, elapsed_nanos } => {
                let what = if self.phase == SynthPhase::PresetAudio {
                    "preset synthesis failed"@
                } else {
                    "profile synthesis failed"@
                };
                let icl = self.phase == SynthPhase::ProfileAudio && self.is_icl;
                &&& next.text == self.text
                &&& if outcome is Err {
                    a matches SynthAction::Fail(f) && failure_is(
                        f,
                        "synthesis_failed"@,
                        what,
                        chain_of(outcome),
                    )
                } else if elapsed_nanos > timeout * 1_000_000 {
                    a matches SynthAction::Fail(f) && failure_is(
                        f,
                        if icl {
                            "icl_timeout"@
                        } else {
                            "synthesis_timeout"@
                        },
                        timeout_message(elapsed_nanos as nat, timeout),
                        Seq::empty(),
                    )
                } else {
                    a == SynthAction::Finish { icl }
                }
            },
            SynthEvent::MetaLoaded { outcome } => {
                &&& next.text == self.text
                &&& match outcome {
                    Err(chain) => a matches SynthAction::Fail(f) && failure_from_chain(
                        f,
                        "profile_invalid"@,
                        texts(chain@),
                    ),
                    Ok(meta) => {
                        let icl = meta.mode == ProfileMode::Icl;
                        let tokens = match meta.ref_text_ids {
                            Some(ids) => ids@.len(),
                            None => 0,
                        };
                        if icl && !self.allow_icl {
                            a matches SynthAction::Fail(f) && failure_is(
                                f,
                                "icl_not_allowed"@,
                                "ICL profile '"@ + name
                                    + "' is disabled by config (speech_dispatcher.allow_icl=false)"@,
                                Seq::empty(),
                            )
                        } else if icl && tokens > MAX_ICL_REF_TEXT_TOKENS {
                            a matches SynthAction::Fail(f) && failure_is(
                                f,
                                "profile_invalid"@,
                                "ICL profile '"@ + name + "' has "@ + decimal(tokens)
                                    + " ref text tokens; limit is 240"@,
                                Seq::empty(),
                            )
                        } else {
                            a matches SynthAction::LoadProfile { name: n } && n@ == name
                                && next.phase == SynthPhase::ProfilePrompt && next.is_icl == icl
                        }
                    },
                }
            },
            SynthEvent::PromptLoaded { outcome } => {
                &&& next.text == self.text
                &&& match outcome {
                    Err(chain) => a matches SynthAction::Fail(f) && failure_from_chain(
                        f,
                        "profile_invalid"@,
                        texts(chain@),
                    ),
                    Ok(shape) => if !self.is_icl {
                        a matches SynthAction::RenderProfile { text, icl } && text@ == self.text@
                            && !icl && next.phase == SynthPhase::ProfileAudio && !next.is_icl
                    } else {
                        match shape {
                            PromptShape::NoRefCodes => a matches SynthAction::Fail(f) && failure_is(
                                f,
                                "profile_invalid"@,
                                "ICL profile is missing ref_codes"@,
                                Seq::empty(),
                            ),
                            PromptShape::RefCodes { dims: Err(chain) } => a matches SynthAction::Fail(
                                f,
                            ) && failure_from_chain(f, "profile_invalid"@, texts(chain@)),
                            PromptShape::RefCodes { dims: Ok((frames, codebooks)) } => if codebooks
                                != ICL_CODEBOOKS {
                                a matches SynthAction::Fail(f) && failure_is(
                                    f,
                                    "profile_invalid"@,
                                    "ICL profile has "@ + decimal(codebooks as nat)
                                        + " codebooks; expected 16"@,
                                    Seq::empty(),
                                )
                            } else if frames > MAX_ICL_REF_CODE_FRAMES {
                                a matches SynthAction::Fail(f) && failure_is(
                                    f,
                                    "profile_invalid"@,
                                    "ICL profile has "@ + decimal(frames as nat)
                                        + " reference frames; limit is 450"@,
                                    Seq::empty(),
                                )
                            } else {
                                a matches SynthAction::RenderProfile { text, icl } && text@
                                    == self.text@ && icl && next.phase == SynthPhase::ProfileAudio
                                    && next.is_icl
                            },
                        }
                    },
                }
            },
        }
    }

    /// A new request, not begun.
    pub fn new(
        model_variant: ModelVariant,
        allow_icl: bool,
        synthesis_timeout_ms: u64,
        text: String,
        language: String,
        voice: VoiceSelection,
    ) -> (m: Self)
        ensures
            m == (SynthMachine {
                model_variant,
                allow_icl,
                synthesis_timeout_ms,
                text,
                language,
                voice,
                phase: SynthPhase::Start,
                is_icl: false,
            }),
            m.wf(),
    {
        SynthMachine {
            model_variant,
            allow_icl,
            synthesis_timeout_ms,
            text,
            language,
            voice,
            phase: SynthPhase::Start,
            is_icl: false,
        }
    }

    /// Whether the machine waits for `event`.
    pub fn accepts(&self, event: &SynthEvent) -> (b: bool)
        ensures
            b == self.accepts_spec(*event),
    {
        match (self.phase, event) {
            (SynthPhase::Start, SynthEvent::Begin) => true,
            (SynthPhase::Language, SynthEvent::LanguageChecked { .. }) => true,
            (SynthPhase::Speaker, SynthEvent::SpeakerChecked { .. }) => true,
            (SynthPhase::PresetAudio, SynthEvent::AudioProduced { .. }) => true,
            (SynthPhase::ProfileMeta, SynthEvent::MetaLoaded { .. }) => true,
            (SynthPhase::ProfilePrompt, SynthEvent::PromptLoaded { .. }) => true,
            (SynthPhase::ProfileAudio, SynthEvent::AudioProduced { .. }) => true,
            _ => false,
        }
    }

    fn fail(&mut self, failure: SynthesisFailure) -> (a: SynthAction)
        ensures
            a == SynthAction::Fail(failure),
            final(self).phase == SynthPhase::Done,
            final(self).model_variant == old(self).model_variant,
            final(self).allow_icl == old(self).allow_icl,
            final(self).synthesis_timeout_ms == old(self).synthesis_timeout_ms,
            final(self).text == old(self).text,
            final(self).language == old(self).language,
            final(self).voice == old(self).voice,
            final(self).is_icl == old(self).is_icl,
    {
        self.phase = SynthPhase::Done;
        SynthAction::Fail(failure)
    }

    /// Takes in the result of the last action and says what to do next.
    /// A preset voice is only rendered on the custom-voice model, a profile
    /// only on the base model, and an ICL profile only where ICL is allowed.
    pub fn step(&mut self, event: SynthEvent) -> (a: SynthAction)
        requires
            old(self).wf(),
            old(self).accepts_spec(event),
        ensures
            old(self).step_spec(event, a, *final(self)),
            final(self).wf(),
            a is RenderPreset ==> old(self).model_variant == ModelVariant::CustomVoice
                && old(self).voice@.0 == VoiceKind::Preset,
            a matches SynthAction::RenderProfile { icl, .. } ==> old(self).model_variant
                == ModelVariant::Base && old(self).voice@.0 == VoiceKind::Profile && (icl
                ==> old(self).allow_icl),
            event matches SynthEvent::MetaLoaded { outcome: Ok(meta) } ==> (a is LoadProfile ==> (
            final(self).is_icl <==> meta.mode == ProfileMode::Icl)),
            old(self).phase == SynthPhase::ProfilePrompt && !old(self).is_icl && (
            event matches SynthEvent::PromptLoaded { outcome: Ok(_) }) ==> (
            a matches SynthAction::RenderProfile { icl, .. } && !icl),
    {
        match event {
            SynthEvent::Begin => {
                let t = trim(self.text.as_str());
                if t.as_str().is_empty() {
                    return self.fail(SynthesisFailure::new("bad_request", owned("text is empty")));
                }
                proof {
                    lemma_trim_idempotent(self.text@);
                }
                self.text = t;
                self.phase = SynthPhase::Language;
                SynthAction::CheckLanguage { code: self.language.clone() }
            },
            SynthEvent::LanguageChecked { error } => {
                match error {
                    Some(err) => {
                        let mut m = owned("unknown language '");
                        push_str(&mut m, self.language.as_str());
                        push_str(&mut m, "': ");
                        push_str(&mut m, err.as_str());
                        self.fail(SynthesisFailure::new("bad_request", m))
                    },
                    None => {
                        match &self.voice {
                            VoiceSelection::Preset { name } => {
                                if self.model_variant != ModelVariant::CustomVoice {
                                    return self.fail(
                                        SynthesisFailure::new(
                                            "device_incompatible",
                                            owned("preset voices require daemon model custom-voice"),
                                        ),
                                    );
                                }
                                let n = name.clone();
                                self.phase = SynthPhase::Speaker;
                                SynthAction::CheckSpeaker { name: n }
                            },
                            VoiceSelection::Profile { name } => {
                                if self.model_variant != ModelVariant::Base {
                                    return self.fail(
                                        SynthesisFailure::new(
                                            "device_incompatible",
                                            owned("profile voices require daemon model base"),
                                        ),
                                    );
                                }
                                let n = name.clone();
                                self.phase = SynthPhase::ProfileMeta;
                                SynthAction::ReadProfileMeta { name: n }
                            },
                        }
                    },
                }
            },
            SynthEvent::SpeakerChecked { error } => {
                match error {
                    Some(err) => {
                        let mut m = owned("unknown preset voice '");
                        push_str(&mut m, self.voice.name().as_str());
                        push_str(&mut m, "': ");
                        push_str(&mut m, err.as_str());
                        self.fail(SynthesisFailure::new("bad_request", m))
                    },
                    None => {
                        self.phase = SynthPhase::PresetAudio;
                        SynthAction::RenderPreset { text: self.text.clone() }
                    },
                }
            },
            SynthEvent::AudioProduced { outcome, elapsed_nanos } => {
                let preset = self.phase == SynthPhase::PresetAudio;
                let icl = !preset && self.is_icl;
                match outcome {
                    Err(chain) => {
                        let what = if preset {
                            "preset synthesis failed"
                        } else {
                            "profile synthesis failed"
                        };
                        return self.fail(
                            SynthesisFailure::with_details("synthesis_failed", owned(what), chain),
                        );
                    },
                    Ok(()) => {},
                }
                let timeout: u64 = if self.synthesis_timeout_ms == 0 {
                    1
                } else {
                    self.synthesis_timeout_ms
                };
                let limit: u128 = (timeout as u128) * 1_000_000;
                if elapsed_nanos > limit {
                    let mut m = owned("synthesis exceeded timeout (");
                    push_decimal(&mut m, elapsed_nanos / 1_000_000);
                    push_str(&mut m, "ms > ");
                    push_decimal(&mut m, timeout as u128);
                    push_str(&mut m, "ms)");
                    let code = if icl {
                        "icl_timeout"
                    } else {
                        "synthesis_timeout"
                    };
                    return self.fail(SynthesisFailure::new(code, m));
                }
                self.phase = SynthPhase::Done;
                SynthAction::Finish { icl }
            },
            SynthEvent::MetaLoaded { outcome } => {
                match outcome {
                    Err(chain) => self.fail(
                        SynthesisFailure::from_error_chain("profile_invalid", chain),
                    ),
                    Ok(meta) => {
                        let icl = meta.mode == ProfileMode::Icl;
                        if icl && !self.allow_icl {
                            let mut m = owned("ICL profile '");
                            push_str(&mut m, self.voice.name().as_str());
                            push_str(
                                &mut m,
                                "' is disabled by config (speech_dispatcher.allow_icl=false)",
                            );
                            return self.fail(SynthesisFailure::new("icl_not_allowed", m));
                        }
                        let tokens: usize = match &meta.ref_text_ids {
                            Some(ids) => ids.len(),
                            None => 0,
                        };
                        if icl && tokens > MAX_ICL_REF_TEXT_TOKENS {
                            let mut m = owned("ICL profile '");
                            push_str(&mut m, self.voice.name().as_str());
                            push_str(&mut m, "' has ");
                            push_decimal(&mut m, tokens as u128);
                            push_str(&mut m, " ref text tokens; limit is 240");
                            return self.fail(SynthesisFailure::new("profile_invalid", m));
                        }
                        let n = self.voice.name().clone();
                        self.is_icl = icl;
                        self.phase = SynthPhase::ProfilePrompt;
                        SynthAction::LoadProfile { name: n }
                    },
                }
            },
            SynthEvent::PromptLoaded { outcome } => {
                match outcome {
                    Err(chain) => self.fail(
                        SynthesisFailure::from_error_chain("profile_invalid", chain),
                    ),
                    Ok(shape) => {
                        if self.is_icl {
                            match shape {
                                PromptShape::NoRefCodes => {
                                    return self.fail(
                                        SynthesisFailure::new(
                                            "profile_invalid",
                                            owned("ICL profile is missing ref_codes"),
                                        ),
                                    );
                                },
                                PromptShape::RefCodes { dims: Err(chain) } => {
                                    return self.fail(
                                        SynthesisFailure::from_error_chain("profile_invalid", chain),
                                    );
                                },
                                PromptShape::RefCodes { dims: Ok((frames, codebooks)) } => {
                                    if codebooks != ICL_CODEBOOKS {
                                        let mut m = owned("ICL profile has ");
                                        push_decimal(&mut m, codebooks as u128);
                                        push_str(&mut m, " codebooks; expected 16");
                                        return self.fail(
                                            SynthesisFailure::new("profile_invalid", m),
                                        );
                                    }
                                    if frames > MAX_ICL_REF_CODE_FRAMES {
                                        let mut m = owned("ICL profile has ");
                                        push_decimal(&mut m, frames as u128);
                                        push_str(&mut m, " reference frames; limit is 450");
                                        return self.fail(
                                            SynthesisFailure::new("profile_invalid", m),
                                        );
                                    }
                                },
                            }
                        }
                        self.phase = SynthPhase::ProfileAudio;
                        SynthAction::RenderProfile { text: self.text.clone(), icl: self.is_icl }
                    },
                }
            },
        }
    }
}

/// Once a profile's metadata is read, the request is treated as ICL exactly
/// when the profile was cloned in ICL mode, whatever `allow_icl` says: an
/// x-vector profile always goes on to have its clone prompt loaded as an
/// x-vector profile, and ICL is only ever allowed or refused, never implied.
pub proof fn lemma_icl_follows_profile_mode(
    m: SynthMachine,
    meta: ProfileMeta,
    a: SynthAction,
    next: SynthMachine,
)
    requires
        m.wf(),
        m.phase == SynthPhase::ProfileMeta,
        m.step_spec(SynthEvent::MetaLoaded { outcome: Ok(meta) }, a, next),
    ensures
        a is LoadProfile ==> (next.is_icl <==> meta.mode == ProfileMode::Icl),
        meta.mode == ProfileMode::Xvector ==> (a matches SynthAction::LoadProfile { name } && name@
            == m.voice@.1 && next.phase == SynthPhase::ProfilePrompt && !next.is_icl),
{
}

/// An x-vector profile is rendered as an x-vector profile, whether or not
/// ICL is allowed and whatever its clone prompt holds (reference codes are
/// only looked at for ICL profiles): after its metadata and its prompt are
/// loaded, the text is rendered with `icl` false.
pub proof fn lemma_xvector_profile_renders_without_icl(
    m: SynthMachine,
    meta: ProfileMeta,
    a1: SynthAction,
    m1: SynthMachine,
    shape: PromptShape,
    a2: SynthAction,
    m2: SynthMachine,
)
    requires
        m.wf(),
        m.phase == SynthPhase::ProfileMeta,
        meta.mode == ProfileMode::Xvector,
        m.step_spec(SynthEvent::MetaLoaded { outcome: Ok(meta) }, a1, m1),
        m1.step_spec(SynthEvent::PromptLoaded { outcome: Ok(shape) }, a2, m2),
    ensures
        a1 is LoadProfile,
        a2 matches SynthAction::RenderProfile { text, icl } && text@ == m.text@ && !icl,
        m2.phase == SynthPhase::ProfileAudio,
        !m2.is_icl,
{
    lemma_icl_follows_profile_mode(m, meta, a1, m1);
}

/// The checks on an ICL profile's metadata: refused outright where ICL is
/// not allowed; where it is, accepted with at most 240 transcript tokens and
/// refused as invalid with more.
pub proof fn lemma_icl_metadata_checks(
    m: SynthMachine,
    meta: ProfileMeta,
    a: SynthAction,
    next: SynthMachine,
)
    requires
        m.wf(),
        m.phase == SynthPhase::ProfileMeta,
        meta.mode == ProfileMode::Icl,
        m.step_spec(SynthEvent::MetaLoaded { outcome: Ok(meta) }, a, next),
    ensures
        !m.allow_icl ==> (a matches SynthAction::Fail(f) && f.code@ == "icl_not_allowed"@),
        ({
            let tokens = match meta.ref_text_ids {
                Some(ids) => ids@.len(),
                None => 0,
            };
            &&& m.allow_icl && tokens <= 240 ==> (a is LoadProfile && next.is_icl)
            &&& m.allow_icl && tokens > 240 ==> (a matches SynthAction::Fail(f) && f.code@
                == "profile_invalid"@)
        }),
{
}

/// The checks on an ICL profile's clone prompt: it is rendered with the ICL
/// settings exactly when it has reference codes of 16 codebooks and at most
/// 450 frames; otherwise the profile is refused as invalid.
pub proof fn lemma_icl_prompt_checks(
    m: SynthMachine,
    shape: PromptShape,
    a: SynthAction,
    next: SynthMachine,
)
    requires
        m.wf(),
        m.phase == SynthPhase::ProfilePrompt,
        m.is_icl,
        m.step_spec(SynthEvent::PromptLoaded { outcome: Ok(shape) }, a, next),
    ensures
        (a matches SynthAction::RenderProfile { icl, .. } && icl) <==> (
        shape matches PromptShape::RefCodes { dims: Ok((frames, codebooks)) } && codebooks == 16
            && frames <= 450),
        !(a is RenderProfile) ==> (a matches SynthAction::Fail(f) && f.code@ == "profile_invalid"@),
{
}

/// Rendering that finished within the time limit (the configured number of
/// milliseconds, at least one) is the result, marked ICL exactly for an ICL
/// profile; rendering that took longer fails as a timeout, coded
/// `icl_timeout` for an ICL profile and `synthesis_timeout` otherwise.
pub proof fn lemma_synthesis_time_limit(
    m: SynthMachine,
    elapsed_nanos: u128,
    a: SynthAction,
    next: SynthMachine,
)
    requires
        m.wf(),
        m.phase == SynthPhase::PresetAudio || m.phase == SynthPhase::ProfileAudio,
        m.step_spec(
            SynthEvent::AudioProduced { outcome: Ok(()), elapsed_nanos },
            a,
            next,
        ),
    ensures
        ({
            let limit: int = if m.synthesis_timeout_ms == 0 {
                1_000_000
            } else {
                m.synthesis_timeout_ms * 1_000_000
            };
            let icl = m.phase == SynthPhase::ProfileAudio && m.is_icl;
            &&& elapsed_nanos <= limit ==> a == SynthAction::Finish { icl }
            &&& elapsed_nanos > limit ==> (a matches SynthAction::Fail(f) && f.code@ == (if icl {
                "icl_timeout"@
            } else {
                "synthesis_timeout"@
            }))
        }),
        next.phase == SynthPhase::Done,
{
}

} // verus!
