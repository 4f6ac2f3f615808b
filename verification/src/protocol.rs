//! The line-oriented request/response protocol between the client and the
//! daemon, and the voice a request asks for.

use vstd::prelude::*;

use crate::model::ModelVariant;
use crate::text::{join, join_strings, owned, push_str, same_text};

verus! {

/// The two kinds of voice: a preset speaker of the custom-voice model, or a
/// cloned profile served by the base model.
#[derive(Debug, Clone, Copy, PartialEq, Eq, Structural)]
pub enum VoiceKind {
    Preset,
    Profile,
}

#[derive(Debug, Clone)]
pub enum VoiceSelection {
    Preset { name: String },
    Profile { name: String },
}

impl View for VoiceSelection {
    type V = (VoiceKind, Seq<char>);

    open spec fn view(&self) -> (VoiceKind, Seq<char>) {
        match self {
            VoiceSelection::Preset { name } => (VoiceKind::Preset, name@),
            VoiceSelection::Profile { name } => (VoiceKind::Profile, name@),
        }
    }
}

/// How a voice is written in bindings and messages: `preset:<name>` or
/// `profile:<name>`.
pub open spec fn voice_label(v: (VoiceKind, Seq<char>)) -> Seq<char> {
    match v.0 {
        VoiceKind::Preset => "preset:"@ + v.1,
        VoiceKind::Profile => "profile:"@ + v.1,
    }
}

impl VoiceSelection {
    pub fn preset(name: String) -> (v: Self)
        ensures
            v@ == (VoiceKind::Preset, name@),
    {
        VoiceSelection::Preset { name }
    }

    pub fn profile(name: String) -> (v: Self)
        ensures
            v@ == (VoiceKind::Profile, name@),
    {
        VoiceSelection::Profile { name }
    }

    pub fn kind(&self) -> (k: VoiceKind)
        ensures
            k == self@.0,
    {
        match self {
            VoiceSelection::Preset { .. } => VoiceKind::Preset,
            VoiceSelection::Profile { .. } => VoiceKind::Profile,
        }
    }

    pub fn name(&self) -> (n: &String)
        ensures
            n@ == self@.1,
    {
        match self {
            VoiceSelection::Preset { name } => name,
            VoiceSelection::Profile { name } => name,
        }
    }

    /// A copy of this selection.
    pub fn duplicate(&self) -> (r: Self)
        ensures
            r@ == self@,
    {
        match self {
            VoiceSelection::Preset { name } => VoiceSelection::Preset { name: name.clone() },
            VoiceSelection::Profile { name } => VoiceSelection::Profile { name: name.clone() },
        }
    }

    /// Whether both select the same voice.
    pub fn same_voice(&self, other: &Self) -> (b: bool)
        ensures
            b == (self@ == other@),
    {
        match (self, other) {
            (VoiceSelection::Preset { name: a }, VoiceSelection::Preset { name: b }) => same_text(
                a.as_str(),
                b.as_str(),
            ),
            (VoiceSelection::Profile { name: a }, VoiceSelection::Profile { name: b }) => same_text(
                a.as_str(),
                b.as_str(),
            ),
            _ => false,
        }
    }
}

impl PartialEq for VoiceSelection {
    fn eq(&self, other: &Self) -> (r: bool) {
        self.same_voice(other)
    }
}

impl vstd::std_specs::cmp::PartialEqSpecImpl for VoiceSelection {
    open spec fn obeys_eq_spec() -> bool {
        true
    }

    open spec fn eq_spec(&self, other: &Self) -> bool {
        self@ == other@
    }
}

impl Eq for VoiceSelection {

}

/// `preset:<name>` or `profile:<name>`.
pub fn describe_voice(voice: &VoiceSelection) -> (s: String)
    ensures
        s@ == voice_label(voice@),
{
    match voice {
        VoiceSelection::Preset { name } => {
            let mut s = owned("preset:");
            push_str(&mut s, name.as_str());
            s
        },
        VoiceSelection::Profile { name } => {
            let mut s = owned("profile:");
            push_str(&mut s, name.as_str());
            s
        },
    }
}

#[derive(Debug, Clone)]
pub enum DaemonRequest {
    Health,
    Shutdown,
    Synthesize {
        text: String,
        language: String,
        output: String,
        voice: VoiceSelection,
        rate: Option<i32>,
        pitch: Option<i32>,
    },
}

#[derive(Debug, Clone)]
pub struct HealthData {
    pub pid: u32,
    pub model: ModelVariant,
    pub device: String,
    pub socket: String,
    pub uptime_secs: u64,
}

#[derive(Debug, Clone)]
pub struct SynthesisData {
    pub output: String,
}

#[derive(Debug, Clone)]
pub enum ResponseData {
    Ack,
    Health(HealthData),
    Synthesis(SynthesisData),
}

#[derive(Debug, Clone)]
pub struct DaemonResponse {
    pub ok: bool,
    pub error_code: Option<String>,
    pub error_message: Option<String>,
    pub error_details: Option<Vec<String>>,
    pub data: Option<ResponseData>,
}

/// A failure response that carries no details.
pub open spec fn plain_error(code: String, message: String) -> DaemonResponse {
    DaemonResponse {
        ok: false,
        error_code: Some(code),
        error_message: Some(message),
        error_details: None,
        data: None,
    }
}

impl DaemonResponse {
    pub fn ok(data: Option<ResponseData>) -> (r: Self)
        ensures
            r == (DaemonResponse {
                ok: true,
                error_code: None,
                error_message: None,
                error_details: None,
                data,
            }),
    {
        DaemonResponse { ok: true, error_code: None, error_message: None, error_details: None, data }
    }

    pub fn error(code: String, message: String) -> (r: Self)
        ensures
            r == plain_error(code, message),
    {
        Self::error_with_details(code, message, Vec::new())
    }

    /// A failure response; the details are left out when there are none.
    pub fn error_with_details(code: String, message: String, details: Vec<String>) -> (r: Self)
        ensures
            details@.len() == 0 ==> r == plain_error(code, message),
            details@.len() > 0 ==> r == (DaemonResponse {
                ok: false,
                error_code: Some(code),
                error_message: Some(message),
                error_details: Some(details),
                data: None,
            }),
    {
        let error_details = if details.len() == 0 {
            None
        } else {
            Some(details)
        };
        DaemonResponse {
            ok: false,
            error_code: Some(code),
            error_message: Some(message),
            error_details,
            data: None,
        }
    }
}

/// The details of a response, as text.
pub open spec fn detail_views(r: DaemonResponse) -> Seq<Seq<char>> {
    match r.error_details {
        Some(d) => d@.map_values(|s: String| s@),
        None => Seq::<Seq<char>>::empty(),
    }
}

/// The text of the error that a failed response turns into on the client:
/// `<code>: <message>`, followed by `; cause: <detail>` for each detail.
/// A missing code reads `unknown`, a missing message reads
/// `daemon returned an unspecified error`.
pub open spec fn failure_text(r: DaemonResponse) -> Seq<char> {
    let code = match r.error_code {
        Some(c) => c@,
        None => "unknown"@,
    };
    let message = match r.error_message {
        Some(m) => m@,
        None => "daemon returned an unspecified error"@,
    };
    let details = detail_views(r);
    let head = code + ": "@ + message;
    if details.len() == 0 {
        head
    } else {
        head + "; "@ + join(details.map_values(|d: Seq<char>| "cause: "@ + d), "; "@)
    }
}

/// The payload of a successful response, or the error text of a failed one.
pub fn ensure_ok(response: DaemonResponse) -> (r: Result<Option<ResponseData>, String>)
    ensures
        response.ok ==> r == Ok::<Option<ResponseData>, String>(response.data),
        !response.ok ==> (r matches Err(m) && m@ == failure_text(response)),
{
    if response.ok {
        return Ok(response.data);
    }
    let ghost details_view = detail_views(response);
    let mut text = match &response.error_code {
        Some(c) => c.clone(),
        None => owned("unknown"),
    };
    push_str(&mut text, ": ");
    match &response.error_message {
        Some(m) => push_str(&mut text, m.as_str()),
        None => push_str(&mut text, "daemon returned an unspecified error"),
    }
    let mut causes: Vec<String> = Vec::new();
    match &response.error_details {
        Some(details) => {
            let n = details.len();
            let mut i: usize = 0;
            while i < n
                invariant
                    n == details@.len(),
                    details_view == details@.map_values(|s: String| s@),
                    i <= n,
                    causes@.map_values(|s: String| s@) =~= details_view.take(i as int).map_values(
                        |d: Seq<char>| "cause: "@ + d,
                    ),
                decreases n - i,
            {
                let mut c = owned("cause: ");
                push_str(&mut c, details[i].as_str());
                let ghost before = causes@;
                causes.push(c);
                proof {
                    assert(details_view.take(i + 1) =~= details_view.take(i as int).push(
                        details_view[i as int],
                    ));
                    assert(causes@ =~= before.push(c));
                    assert(causes@.map_values(|s: String| s@) =~= before.map_values(
                        |s: String| s@,
                    ).push(c@));
                }
                i += 1;
            }
            assert(details_view.take(n as int) =~= details_view);
        },
        None => {},
    }
    if causes.len() > 0 {
        push_str(&mut text, "; ");
        let tail = join_strings(&causes, "; ");
        push_str(&mut text, tail.as_str());
    }
    Err(text)
}

} // verus!
