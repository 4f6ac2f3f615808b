//! The daemon's own decisions: which model and socket it uses, how it
//! answers a request line, and its start-up check of the voice policy.

use vstd::prelude::*;

use crate::config::{
    binding_of, keys_distinct, keys_sorted, lemma_map_of_has, lemma_map_of_key_has_entry, map_of,
    parse_binding, parse_voice_binding, symbolic_key, Config, VoiceMap,
};
use crate::model::ModelVariant;
use crate::paths::{socket_path_of, EnvDirs};
use crate::profile::ProfileMode;
use crate::protocol::{
    plain_error, DaemonRequest, DaemonResponse, HealthData, ResponseData, SynthesisData, VoiceKind,
    VoiceSelection,
};
use crate::synth::{texts, SynthesisFailure};
use crate::text::{blank, is_blank, owned, push_str, text_lt};

verus! {

/// What the daemon was started with on its command line.
#[derive(Debug, Clone)]
pub struct DaemonOptions {
    pub model: Option<ModelVariant>,
    pub socket_path: Option<String>,
}

/// The model the daemon loads (the command line's, else the configured one)
/// and the socket it listens on (the command line's, else the configured
/// one, else the default one).
pub fn daemon_target(options: &DaemonOptions, config: &Config, env: &EnvDirs) -> (r: (
    ModelVariant,
    String,
))
    ensures
        r.0 == (match options.model {
            Some(m) => m,
            None => config.daemon.model,
        }),
        r.1@ == (match options.socket_path {
            Some(p) => p@,
            None => match config.daemon.socket_path {
                Some(p) => p@,
                None => socket_path_of(*env),
            },
        }),
{
    let model = match options.model {
        Some(m) => m,
        None => config.daemon.model,
    };
    let socket = match &options.socket_path {
        Some(p) => p.clone(),
        None => config.daemon.resolved_socket_path(env),
    };
    (model, socket)
}

/// The warning shown when the model will not run on an accelerator:
/// `probe` is whether the selected device is the CPU, or the message of the
/// error selecting one (then the CPU is used).
pub fn device_warning(probe: Result<bool, String>) -> (r: Option<String>)
    ensures
        probe == Ok::<bool, String>(false) ==> r is None,
        probe == Ok::<bool, String>(true) ==> (r matches Some(w) && w@
            == "CUDA was not selected; running on CPU (slower synthesis)."@),
        probe matches Err(e) ==> (r matches Some(w) && w@
            == "failed to initialize accelerated device ("@ + e@ + "); falling back to CPU"@),
{
    match probe {
        Ok(true) => Some(owned("CUDA was not selected; running on CPU (slower synthesis).")),
        Ok(false) => None,
        Err(e) => {
            let mut w = owned("failed to initialize accelerated device (");
            push_str(&mut w, e.as_str());
            push_str(&mut w, "); falling back to CPU");
            Some(w)
        },
    }
}

/// How the daemon handles one request line.
#[derive(Debug)]
pub enum RequestPlan {
    /// Send this response.
    Reply(DaemonResponse),
    /// Send this response, then stop.
    ReplyAndStop(DaemonResponse),
    /// Report health (see [`health_response`]).
    Health,
    /// Synthesize (see [`synthesis_response`]); rate and pitch are not used.
    Synthesize { text: String, language: String, output: String, voice: VoiceSelection },
}

/// `r` is a failure with this code and message and no details.
pub open spec fn error_reply(r: DaemonResponse, code: Seq<char>, message: Seq<char>) -> bool {
    &&& !r.ok
    &&& r.error_code is Some && r.error_code->0@ == code
    &&& r.error_message is Some && r.error_message->0@ == message
    &&& r.error_details is None
    &&& r.data is None
}

/// The plan for a request line, given what reading it as JSON gave: a blank
/// line is refused as empty, a line that is not a request as invalid JSON
/// (with the reader's message).
pub fn plan_request(line: &str, parsed: Result<DaemonRequest, String>) -> (p: RequestPlan)
    ensures
        is_blank(line@) ==> (p matches RequestPlan::Reply(r) && error_reply(
            r,
            "bad_request"@,
            "empty request"@,
        )),
        !is_blank(line@) ==> match parsed {
            Err(e) => p matches RequestPlan::Reply(r) && error_reply(
                r,
                "bad_request"@,
                "invalid JSON request: "@ + e@,
            ),
            Ok(DaemonRequest::Health) => p is Health,
            Ok(DaemonRequest::Shutdown) => p matches RequestPlan::ReplyAndStop(r) && r.ok
                && r.error_code is None && r.error_message is None && r.error_details is None
                && r.data == Some(ResponseData::Ack),
            Ok(DaemonRequest::Synthesize { text, language, output, voice, .. }) => p
                == RequestPlan::Synthesize { text, language, output, voice },
        },
{
    if blank(line) {
        return RequestPlan::Reply(
            DaemonResponse::error(owned("bad_request"), owned("empty request")),
        );
    }
    match parsed {
        Err(e) => {
            let mut m = owned("invalid JSON request: ");
            push_str(&mut m, e.as_str());
            RequestPlan::Reply(DaemonResponse::error(owned("bad_request"), m))
        },
        Ok(DaemonRequest::Health) => RequestPlan::Health,
        Ok(DaemonRequest::Shutdown) => RequestPlan::ReplyAndStop(
            DaemonResponse::ok(Some(ResponseData::Ack)),
        ),
        Ok(DaemonRequest::Synthesize { text, language, output, voice, .. }) => {
            RequestPlan::Synthesize { text, language, output, voice }
        },
    }
}

/// The answer to a health request.
pub fn health_response(data: HealthData) -> (r: DaemonResponse)
    ensures
        r.ok && r.error_code is None && r.error_message is None && r.error_details is None
            && r.data == Some(ResponseData::Health(data)),
{
    DaemonResponse::ok(Some(ResponseData::Health(data)))
}

/// The answer to a synthesis request: the output path, or the failure with
/// its code, message and details.
pub fn synthesis_response(outcome: Result<SynthesisData, SynthesisFailure>) -> (r: DaemonResponse)
    ensures
        outcome matches Ok(d) ==> r.ok && r.error_code is None && r.error_message is None
            && r.error_details is None && r.data == Some(ResponseData::Synthesis(d)),
        outcome matches Err(f) ==> !r.ok && r.error_code == Some(f.code) && r.error_message == Some(
            f.message,
        ) && r.data is None && (if f.details@.len() == 0 {
            r.error_details is None
        } else {
            r.error_details == Some(f.details)
        }),
{
    match outcome {
        Ok(d) => DaemonResponse::ok(Some(ResponseData::Synthesis(d))),
        Err(f) => DaemonResponse::error_with_details(f.code, f.message, f.details),
    }
}

/// The answer when handling a request failed unexpectedly: code `internal`,
/// the error's message, and the messages of its causes.
pub fn internal_error_response(chain: Vec<String>) -> (r: DaemonResponse)
    ensures
        !r.ok,
        r.data is None,
        r.error_code is Some && r.error_code->0@ == "internal"@,
        chain@.len() > 0 ==> r.error_message is Some && r.error_message->0@ == chain@[0]@,
        chain@.len() == 1 ==> r.error_details is None,
        chain@.len() > 1 ==> r.error_details is Some && texts(r.error_details->0@) == texts(
            chain@,
        ).skip(1),
{
    let f = SynthesisFailure::from_error_chain("internal", chain);
    assert(texts(f.details@).len() == f.details@.len());
    DaemonResponse::error_with_details(f.code, f.message, f.details)
}

/// The profile that the start-up policy check must look at: where ICL is not
/// allowed and the default symbolic voice resolves to a profile, that
/// profile's name.
pub fn default_profile_to_check(config: &Config) -> (r: Option<String>)
    ensures
        config.speech_dispatcher.allow_icl ==> r is None,
        !config.speech_dispatcher.allow_icl ==> {
            let v = parse_binding(
                binding_of(
                    config.speech_dispatcher.voice_map@,
                    symbolic_key(config.speech_dispatcher.default_symbolic_voice@, None),
                ),
            );
            if v.0 == VoiceKind::Profile {
                r matches Some(n) && n@ == v.1
            } else {
                r is None
            }
        },
{
    if config.speech_dispatcher.allow_icl {
        return None;
    }
    match config.speech_dispatcher.resolve_voice_selection(None) {
        Ok(VoiceSelection::Profile { name }) => Some(name),
        _ => None,
    }
}

/// The verdict on the default profile: refused when its metadata cannot be
/// read (with the reading error's chain as causes) or when it is an ICL
/// profile. The error is a chain of messages, outermost first.
pub fn default_profile_verdict(name: &str, mode: Result<ProfileMode, Vec<String>>) -> (r: Result<
    (),
    Vec<String>,
>)
    ensures
        mode matches Ok(ProfileMode::Xvector) ==> r is Ok,
        mode matches Ok(ProfileMode::Icl) ==> (r matches Err(c) && texts(c@) == seq![
            "default speech-dispatcher voice maps to ICL profile '"@ + name@
                + "', but speech_dispatcher.allow_icl=false"@,
        ]),
        mode matches Err(cause) ==> (r matches Err(c) && texts(c@) == seq![
            "default profile '"@ + name@ + "' is invalid"@,
        ] + texts(cause@)),
{
    match mode {
        Ok(ProfileMode::Xvector) => Ok(()),
        Ok(ProfileMode::Icl) => {
            let mut m = owned("default speech-dispatcher voice maps to ICL profile '");
            push_str(&mut m, name);
            push_str(&mut m, "', but speech_dispatcher.allow_icl=false");
            let mut chain = Vec::new();
            chain.push(m);
            assert(texts(chain@) =~= seq![chain@[0]@]);
            Err(chain)
        },
        Err(cause) => {
            let mut m = owned("default profile '");
            push_str(&mut m, name);
            push_str(&mut m, "' is invalid");
            let mut chain = Vec::new();
            chain.push(m);
            let mut rest = cause;
            let ghost c0 = chain@;
            let ghost r0 = rest@;
            chain.append(&mut rest);
            assert(chain@ =~= c0 + r0);
            assert(texts(chain@) =~= seq![c0[0]@] + texts(r0));
            Err(chain)
        },
    }
}

/// The voice map entries that name a profile: the symbolic voice and the
/// profile name, in ascending order of symbolic voice.
pub fn profile_bindings(map: &VoiceMap) -> (r: Vec<(String, String)>)
    ensures
        forall|k: int|
            0 <= k < r@.len() ==> map@.contains_key(#[trigger] r@[k].0@) && parse_binding(
                map@[r@[k].0@],
            ) == (VoiceKind::Profile, r@[k].1@),
        forall|s: Seq<char>|
            map@.contains_key(s) && parse_binding(#[trigger] map@[s]).0 == VoiceKind::Profile
                ==> exists|k: int| 0 <= k < r@.len() && r@[k].0@ == s,
        forall|j: int, k: int| 0 <= j < k < r@.len() ==> text_lt(r@[j].0@, r@[k].0@),
{
    let entries = map.entries();
    let n = entries.len();
    let mut out: Vec<(String, String)> = Vec::new();
    let ghost mut idx: Seq<int> = Seq::empty();
    let mut i: usize = 0;
    while i < n
        invariant
            n == entries@.len(),
            keys_distinct(entries@),
            keys_sorted(entries@),
            map_of(entries@) == map@,
            i <= n,
            idx.len() == out@.len(),
            forall|k: int|
                0 <= k < out@.len() ==> 0 <= #[trigger] idx[k] < i && out@[k].0@ == entries@[idx[k]].0@
                    && parse_binding(entries@[idx[k]].1@) == (VoiceKind::Profile, out@[k].1@),
            forall|j: int, k: int| 0 <= j < k < out@.len() ==> #[trigger] idx[j] < #[trigger] idx[k],
            forall|e: int|
                0 <= e < i && parse_binding(#[trigger] entries@[e].1@).0 == VoiceKind::Profile
                    ==> exists|k: int| 0 <= k < out@.len() && idx[k] == e,
        decreases n - i,
    {
        let symbolic = &entries[i].0;
        let binding = &entries[i].1;
        match parse_voice_binding(binding.as_str()) {
            Ok(VoiceSelection::Profile { name }) => {
                let ghost before = out@;
                let ghost before_idx = idx;
                out.push((symbolic.clone(), name));
                proof {
                    idx = idx.push(i as int);
                    assert forall|e: int|
                        0 <= e < i + 1 && parse_binding(#[trigger] entries@[e].1@).0
                            == VoiceKind::Profile implies exists|k: int|
                        0 <= k < out@.len() && idx[k] == e by {
                        if e < i {
                            let k = choose|k: int| 0 <= k < before.len() && before_idx[k] == e;
                            assert(idx[k] == e);
                        } else {
                            assert(idx[before.len() as int] == e);
                        }
                    }
                }
            },
            _ => {},
        }
        i += 1;
    }
    proof {
        assert forall|k: int| 0 <= k < out@.len() implies map@.contains_key(
            #[trigger] out@[k].0@,
        ) && parse_binding(map@[out@[k].0@]) == (VoiceKind::Profile, out@[k].1@) by {
            assert(0 <= idx[k] < n);
            lemma_map_of_has(entries@, idx[k]);
        }
        assert forall|s: Seq<char>|
            map@.contains_key(s) && parse_binding(#[trigger] map@[s]).0
                == VoiceKind::Profile implies exists|k: int| 0 <= k < out@.len() && out@[k].0@ == s by {
            lemma_map_of_key_has_entry(entries@, s);
            let e = choose|e: int| 0 <= e < entries@.len() && entries@[e].0@ == s;
            lemma_map_of_has(entries@, e);
            assert(parse_binding(entries@[e].1@).0 == VoiceKind::Profile);
            let k = choose|k: int| 0 <= k < out@.len() && idx[k] == e;
            assert(out@[k].0@ == s);
        }
        assert forall|j: int, k: int| 0 <= j < k < out@.len() implies text_lt(
            out@[j].0@,
            out@[k].0@,
        ) by {
            assert(idx[j] < idx[k]);
            assert(0 <= idx[j] && idx[k] < n);
        }
    }
    out
}

/// The start-up warning for a voice map entry that names a profile: its
/// metadata cannot be read, or it is an ICL profile (which requests will be
/// refused).
pub fn voice_map_warning(symbolic: &str, name: &str, mode: Result<ProfileMode, String>) -> (r:
    Option<String>)
    ensures
        mode matches Ok(ProfileMode::Xvector) ==> r is None,
        mode matches Ok(ProfileMode::Icl) ==> (r matches Some(w) && w@ == "voice_map "@ + symbolic@
            + " references ICL profile '"@ + name@
            + "' while allow_icl=false; it will be rejected at request time"@),
        mode matches Err(e) ==> (r matches Some(w) && w@ == "voice_map "@ + symbolic@
            + " references invalid profile '"@ + name@ + "': "@ + e@),
{
    match mode {
        Ok(ProfileMode::Xvector) => None,
        Ok(ProfileMode::Icl) => {
            let mut w = owned("voice_map ");
            push_str(&mut w, symbolic);
            push_str(&mut w, " references ICL profile '");
            push_str(&mut w, name);
            push_str(&mut w, "' while allow_icl=false; it will be rejected at request time");
            Some(w)
        },
        Err(e) => {
            let mut w = owned("voice_map ");
            push_str(&mut w, symbolic);
            push_str(&mut w, " references invalid profile '");
            push_str(&mut w, name);
            push_str(&mut w, "': ");
            push_str(&mut w, e.as_str());
            Some(w)
        },
    }
}

} // verus!
