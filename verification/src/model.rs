//! The two model variants the daemon can load, their names and hub ids.

use vstd::prelude::*;

use crate::text::{ascii_lower, owned, push_str, same_text, to_ascii_lower, trim, trimmed};

verus! {

pub const CUSTOM_VOICE_MODEL_ID: &'static str = "Qwen/Qwen3-TTS-12Hz-1.7B-CustomVoice";

pub const BASE_MODEL_ID: &'static str = "Qwen/Qwen3-TTS-12Hz-1.7B-Base";

/// Which model the daemon runs: `Base` serves cloned profiles, `CustomVoice`
/// serves the preset speakers.
#[derive(Debug, Clone, Copy, PartialEq, Eq, Structural)]
pub enum ModelVariant {
    Base,
    CustomVoice,
}

impl Default for ModelVariant {
    fn default() -> (r: Self)
        ensures
            r == ModelVariant::CustomVoice,
    {
        ModelVariant::CustomVoice
    }
}

/// The text by which `model` is configured and shown.
pub open spec fn variant_name(model: ModelVariant) -> Seq<char> {
    match model {
        ModelVariant::Base => "base"@,
        ModelVariant::CustomVoice => "custom-voice"@,
    }
}

/// The hub repository that holds the weights of `model`.
pub open spec fn variant_model_id(model: ModelVariant) -> Seq<char> {
    match model {
        ModelVariant::Base => BASE_MODEL_ID@,
        ModelVariant::CustomVoice => CUSTOM_VOICE_MODEL_ID@,
    }
}

/// The variant that `input` names, ignoring surrounding whitespace and ASCII
/// case; `custom_voice` and `customvoice` are accepted spellings of
/// `custom-voice`.
pub open spec fn parse_variant(input: Seq<char>) -> Option<ModelVariant> {
    let key = ascii_lower(trimmed(input));
    if key == "base"@ {
        Some(ModelVariant::Base)
    } else if key == "custom-voice"@ || key == "custom_voice"@ || key == "customvoice"@ {
        Some(ModelVariant::CustomVoice)
    } else {
        None
    }
}

/// A model variant name that is not recognised.
#[derive(Debug, Clone)]
pub struct ModelVariantError {
    pub input: String,
}

impl ModelVariantError {
    pub open spec fn spec_message(&self) -> Seq<char> {
        "unsupported model variant '"@ + self.input@ + "', expected one of: base, custom-voice"@
    }

    /// The message shown to the user.
    pub fn message(&self) -> (m: String)
        ensures
            m@ == self.spec_message(),
    {
        let mut m = owned("unsupported model variant '");
        push_str(&mut m, self.input.as_str());
        push_str(&mut m, "', expected one of: base, custom-voice");
        m
    }
}

impl ModelVariant {
    pub fn as_str(self) -> (s: &'static str)
        ensures
            s@ == variant_name(self),
    {
        match self {
            ModelVariant::Base => "base",
            ModelVariant::CustomVoice => "custom-voice",
        }
    }

    pub fn model_id(self) -> (s: &'static str)
        ensures
            s@ == variant_model_id(self),
    {
        match self {
            ModelVariant::Base => BASE_MODEL_ID,
            ModelVariant::CustomVoice => CUSTOM_VOICE_MODEL_ID,
        }
    }

    /// Reads a variant name (what `FromStr` does).
    pub fn parse(input: &str) -> (r: Result<ModelVariant, ModelVariantError>)
        ensures
            parse_variant(input@) matches Some(v) ==> r == Ok::<ModelVariant, ModelVariantError>(v),
            parse_variant(input@) is None ==> (r matches Err(e) && e.input@ == input@),
    {
        let trimmed_input = trim(input);
        let key = to_ascii_lower(trimmed_input.as_str());
        if same_text(key.as_str(), "base") {
            Ok(ModelVariant::Base)
        } else if same_text(key.as_str(), "custom-voice") || same_text(key.as_str(), "custom_voice")
            || same_text(key.as_str(), "customvoice") {
            Ok(ModelVariant::CustomVoice)
        } else {
            Err(ModelVariantError { input: owned(input) })
        }
    }
}

impl core::str::FromStr for ModelVariant {
    type Err = ModelVariantError;

    fn from_str(input: &str) -> (r: Result<Self, Self::Err>)
        ensures
            parse_variant(input@) matches Some(v) ==> r == Ok::<ModelVariant, ModelVariantError>(v),
            parse_variant(input@) is None ==> (r matches Err(e) && e.input@ == input@),
    {
        ModelVariant::parse(input)
    }
}

/// Reading back the name of a variant gives the variant.
pub proof fn lemma_variant_name_roundtrip(model: ModelVariant)
    ensures
        parse_variant(variant_name(model)) == Some(model),
{
    reveal_strlit("base");
    reveal_strlit("custom-voice");
    let s = variant_name(model);
    assert(trimmed(s) == s);
    assert(ascii_lower(s) =~= s);
}

} // verus!
