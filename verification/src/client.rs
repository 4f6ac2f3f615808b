//! The command-line client's decisions: which voice to ask for, which voices
//! the Speech Dispatcher bridge tries in turn, and what `doctor` reports.

use vstd::prelude::*;

use crate::config::{
    binding_of, opt_text, parse_binding, symbolic_key, SpeechDispatcherConfig, VoiceBindingError,
};
use crate::lang::DEFAULT_PRESET_VOICE;
use crate::model::{parse_variant, ModelVariant, ModelVariantError};
use crate::profile::ProfileMode;
use crate::protocol::{describe_voice, voice_label, VoiceKind, VoiceSelection};
use crate::text::{
    blank, chars_of, eq_ignore_case, equals_ignore_case, is_blank, join, join_strings, owned, push_str,
    string_of, trim, trimmed,
};

verus! {

/// The model named on the command line, if one was.
pub fn parse_model_arg(value: Option<&str>) -> (r: Result<Option<ModelVariant>, ModelVariantError>)
    ensures
        value is None ==> r == Ok::<Option<ModelVariant>, ModelVariantError>(None),
        value matches Some(v) ==> match parse_variant(v@) {
            Some(m) => r == Ok::<Option<ModelVariant>, ModelVariantError>(Some(m)),
            None => r matches Err(e) && e.input@ == v@,
        },
{
    match value {
        Some(raw) => match ModelVariant::parse(raw) {
            Ok(m) => Ok(Some(m)),
            Err(e) => Err(e),
        },
        None => Ok(None),
    }
}

/// The text `speak` sends: as given, or nothing where it is blank (then
/// nothing is sent).
pub fn speak_text(text: String) -> (r: Option<String>)
    ensures
        is_blank(text@) ==> r is None,
        !is_blank(text@) ==> r == Some(text),
{
    if blank(text.as_str()) {
        None
    } else {
        Some(text)
    }
}

/// The warning shown when a clone task will not run on an accelerator:
/// `probe` is whether the selected device is the CPU, or the message of the
/// error selecting one.
pub fn clone_device_warning(probe: Result<bool, String>) -> (r: Option<String>)
    ensures
        probe == Ok::<bool, String>(false) ==> r is None,
        probe == Ok::<bool, String>(true) ==> (r matches Some(w) && w@
            == "warning: CUDA not selected for clone task; using CPU"@),
        probe matches Err(e) ==> (r matches Some(w) && w@
            == "warning: failed to initialize accelerated device ("@ + e@ + "); using CPU"@),
{
    match probe {
        Ok(true) => Some(owned("warning: CUDA not selected for clone task; using CPU")),
        Ok(false) => None,
        Err(e) => {
            let mut w = owned("warning: failed to initialize accelerated device (");
            push_str(&mut w, e.as_str());
            push_str(&mut w, "); using CPU");
            Some(w)
        },
    }
}

/// The voice of `speak`: `--voice` names a preset, `--profile` a profile,
/// neither the default preset speaker; both together are refused.
pub fn speak_voice(voice: Option<String>, profile: Option<String>) -> (r: Result<
    VoiceSelection,
    String,
>)
    ensures
        match (voice, profile) {
            (Some(v), None) => r matches Ok(s) && s@ == (VoiceKind::Preset, v@),
            (None, Some(p)) => r matches Ok(s) && s@ == (VoiceKind::Profile, p@),
            (None, None) => r matches Ok(s) && s@ == (VoiceKind::Preset, DEFAULT_PRESET_VOICE@),
            (Some(_), Some(_)) => r matches Err(m) && m@
                == "--voice and --profile are mutually exclusive"@,
        },
{
    match (voice, profile) {
        (Some(name), None) => Ok(VoiceSelection::preset(name)),
        (None, Some(name)) => Ok(VoiceSelection::profile(name)),
        (None, None) => Ok(VoiceSelection::preset(owned(DEFAULT_PRESET_VOICE))),
        (Some(_), Some(_)) => Err(owned("--voice and --profile are mutually exclusive")),
    }
}

/// The voice the bridge asks for first: an explicit profile, else an
/// explicit preset, else what the symbolic voice resolves to.
pub fn spd_primary_voice(
    config: &SpeechDispatcherConfig,
    symbolic_voice: Option<&str>,
    profile: Option<String>,
    preset: Option<String>,
) -> (r: Result<VoiceSelection, VoiceBindingError>)
    ensures
        profile matches Some(p) ==> (r matches Ok(v) && v@ == (VoiceKind::Profile, p@)),
        (profile is None && preset is Some) ==> (r matches Ok(v) && v@ == (
            VoiceKind::Preset,
            preset->0@,
        )),
        profile is None && preset is None ==> (r matches Ok(v) && v@ == parse_binding(
            binding_of(
                config.voice_map@,
                symbolic_key(config.default_symbolic_voice@, opt_text(symbolic_voice)),
            ),
        )),
{
    if let Some(name) = profile {
        Ok(VoiceSelection::profile(name))
    } else if let Some(name) = preset {
        Ok(VoiceSelection::preset(name))
    } else {
        config.resolve_voice_selection(symbolic_voice)
    }
}

/// The voices the bridge tries, in order, each with where it came from: the
/// requested voice, then the fallback profile unless it is that same voice.
pub fn spd_attempts(primary: VoiceSelection, fallback: Option<VoiceSelection>) -> (r: Vec<
    (VoiceSelection, String),
>)
    ensures
        r@.len() >= 1,
        r@[0].0@ == primary@,
        r@[0].1@ == "requested voice"@,
        match fallback {
            Some(f) => if f@ != primary@ {
                r@.len() == 2 && r@[1].0@ == f@ && r@[1].1@ == "fallback profile"@
            } else {
                r@.len() == 1
            },
            None => r@.len() == 1,
        },
{
    let mut attempts: Vec<(VoiceSelection, String)> = Vec::new();
    let first = primary.duplicate();
    attempts.push((first, owned("requested voice")));
    if let Some(f) = fallback {
        if !f.same_voice(&primary) {
            attempts.push((f, owned("fallback profile")));
        }
    }
    attempts
}

/// Whether the bridge may use a voice given its profile mode: ICL profiles
/// only where ICL is allowed; a profile whose metadata cannot be read not at
/// all. The error is the reason, as shown to the user.
pub fn spd_voice_verdict(allow_icl: bool, name: &str, mode: Result<ProfileMode, String>) -> (r:
    Result<(), String>)
    ensures
        mode matches Ok(m) ==> (if m == ProfileMode::Icl && !allow_icl {
            r matches Err(e) && e@ == "icl_not_allowed: profile '"@ + name@
                + "' is ICL and speech_dispatcher.allow_icl=false"@
        } else {
            r is Ok
        }),
        mode is Err ==> (r matches Err(e) && e@ == "failed to read profile metadata for '"@
            + name@ + "'"@),
{
    match mode {
        Ok(m) => {
            if m == ProfileMode::Icl && !allow_icl {
                let mut e = owned("icl_not_allowed: profile '");
                push_str(&mut e, name);
                push_str(&mut e, "' is ICL and speech_dispatcher.allow_icl=false");
                Err(e)
            } else {
                Ok(())
            }
        },
        Err(_) => {
            let mut e = owned("failed to read profile metadata for '");
            push_str(&mut e, name);
            push_str(&mut e, "'");
            Err(e)
        },
    }
}

/// `<source> (<voice>) skipped: <reason>` or `<source> (<voice>) failed: <reason>`.
pub open spec fn attempt_note(
    source: Seq<char>,
    voice: (VoiceKind, Seq<char>),
    skipped: bool,
    reason: Seq<char>,
) -> Seq<char> {
    source + " ("@ + voice_label(voice) + (if skipped {
        ") skipped: "@
    } else {
        ") failed: "@
    }) + reason
}

/// The error when no attempt succeeded.
pub open spec fn attempts_failed_message(notes: Seq<Seq<char>>) -> Seq<char> {
    "all synthesis attempts failed: "@ + if notes.len() == 0 {
        "no valid voice candidates were available"@
    } else {
        join(notes, "; "@)
    }
}

/// Where a run of attempts stands.
#[derive(Debug, Clone, Copy, PartialEq, Eq, Structural)]
pub enum SpdPhase {
    Start,
    /// Waiting for the current profile's metadata.
    Checking,
    /// Waiting for the daemon's answer to the current attempt.
    Sending,
    Done,
}

/// What the caller reports back to a run of attempts.
#[derive(Debug)]
pub enum SpdEvent {
    Begin,
    /// The current profile's mode, or the message of the error reading it.
    ProfileRead { mode: Result<ProfileMode, String> },
    /// The daemon synthesized the current voice, or the error's message.
    Sent { outcome: Result<(), String> },
}

/// What the caller is to do next.
#[derive(Debug)]
pub enum SpdAction {
    /// Read the metadata of the profile `name`.
    ReadProfile { name: String },
    /// Ask the daemon to synthesize with `voice`.
    Send { voice: VoiceSelection },
    /// `voice` was synthesized.
    Succeeded { voice: VoiceSelection },
    /// Every attempt was skipped or failed.
    Failed { message: String },
}

/// The bridge trying its voices in turn until one is synthesized.
#[derive(Debug)]
pub struct SpdRun {
    pub allow_icl: bool,
    pub attempts: Vec<(VoiceSelection, String)>,
    pub current: usize,
    pub notes: Vec<String>,
    pub phase: SpdPhase,
}

pub open spec fn note_texts(v: Seq<String>) -> Seq<Seq<char>> {
    v.map_values(|s: String| s@)
}

impl SpdRun {
    pub open spec fn wf(&self) -> bool {
        &&& (self.phase == SpdPhase::Checking || self.phase == SpdPhase::Sending) ==> self.current
            < self.attempts@.len()
        &&& self.phase == SpdPhase::Checking ==> self.attempts@[self.current as int].0@.0
            == VoiceKind::Profile
    }

    pub open spec fn accepts_spec(&self, e: SpdEvent) -> bool {
        match (self.phase, e) {
            (SpdPhase::Start, SpdEvent::Begin) => true,
            (SpdPhase::Checking, SpdEvent::ProfileRead { .. }) => true,
            (SpdPhase::Sending, SpdEvent::Sent { .. }) => true,
            _ => false,
        }
    }

    /// What moving on to attempt `i` means, with these notes so far: the
    /// message of failure where no attempts are left, reading the metadata
    /// of a profile, or sending a preset at once.
    pub open spec fn attempt_action(
        &self,
        i: int,
        notes: Seq<Seq<char>>,
        a: SpdAction,
        next: SpdRun,
    ) -> bool {
        if i >= self.attempts@.len() {
            a matches SpdAction::Failed { message } && message@ == attempts_failed_message(notes)
                && next.phase == SpdPhase::Done
        } else {
            let v = self.attempts@[i].0@;
            &&& next.current == i
            &&& if v.0 == VoiceKind::Profile {
                a matches SpdAction::ReadProfile { name } && name@ == v.1 && next.phase
                    == SpdPhase::Checking
            } else {
                a matches SpdAction::Send { voice } && voice@ == v && next.phase
                    == SpdPhase::Sending
            }
        }
    }

    pub open spec fn step_spec(&self, e: SpdEvent, a: SpdAction, next: SpdRun) -> bool {
        let cur = self.current as int;
        &&& next.allow_icl == self.allow_icl
        &&& next.attempts == self.attempts
        &&& match e {
            SpdEvent::Begin => next.notes == self.notes && self.attempt_action(
                0,
                note_texts(self.notes@),
                a,
                next,
            ),
            SpdEvent::ProfileRead { mode } => {
                let v = self.attempts@[cur].0@;
                let verdict_ok = match mode {
                    Ok(m) => !(m == ProfileMode::Icl && !self.allow_icl),
                    Err(_) => false,
                };
                let reason = match mode {
                    Ok(_) => "icl_not_allowed: profile '"@ + v.1
                        + "' is ICL and speech_dispatcher.allow_icl=false"@,
                    Err(_) => "failed to read profile metadata for '"@ + v.1 + "'"@,
                };
                if verdict_ok {
                    &&& next.notes == self.notes
                    &&& next.current == self.current
                    &&& next.phase == SpdPhase::Sending
                    &&& a matches SpdAction::Send { voice } && voice@ == v
                } else {
                    let notes = note_texts(self.notes@).push(
                        attempt_note(self.attempts@[cur].1@, v, true, reason),
                    );
                    note_texts(next.notes@) == notes && self.attempt_action(cur + 1, notes, a, next)
                }
            },
            SpdEvent::Sent { outcome } => {
                let v = self.attempts@[cur].0@;
                match outcome {
                    Ok(()) => a matches SpdAction::Succeeded { voice } && voice@ == v && next.phase
                        == SpdPhase::Done && next.notes == self.notes,
                    Err(err) => {
                        let notes = note_texts(self.notes@).push(
                            attempt_note(self.attempts@[cur].1@, v, false, err@),
                        );
                        note_texts(next.notes@) == notes && self.attempt_action(
                            cur + 1,
                            notes,
                            a,
                            next,
                        )
                    },
                }
            },
        }
    }

    /// A run over `attempts`, not begun.
    pub fn new(allow_icl: bool, attempts: Vec<(VoiceSelection, String)>) -> (r: Self)
        ensures
            r.allow_icl == allow_icl,
            r.attempts == attempts,
            r.notes@.len() == 0,
            r.phase == SpdPhase::Start,
            r.wf(),
    {
        SpdRun { allow_icl, attempts, current: 0, notes: Vec::new(), phase: SpdPhase::Start }
    }

    pub fn accepts(&self, event: &SpdEvent) -> (b: bool)
        ensures
            b == self.accepts_spec(*event),
    {
        match (self.phase, event) {
            (SpdPhase::Start, SpdEvent::Begin) => true,
            (SpdPhase::Checking, SpdEvent::ProfileRead { .. }) => true,
            (SpdPhase::Sending, SpdEvent::Sent { .. }) => true,
            _ => false,
        }
    }

    fn start_attempt(&mut self, i: usize) -> (a: SpdAction)
        requires
            i <= old(self).attempts@.len(),
        ensures
            old(self).attempt_action(i as int, note_texts(old(self).notes@), a, *final(self)),
            final(self).allow_icl == old(self).allow_icl,
            final(self).attempts == old(self).attempts,
            final(self).notes == old(self).notes,
            final(self).wf(),
    {
        if i >= self.attempts.len() {
            let message = if self.notes.len() == 0 {
                owned("all synthesis attempts failed: no valid voice candidates were available")
            } else {
                let mut m = owned("all synthesis attempts failed: ");
                let joined = join_strings(&self.notes, "; ");
                push_str(&mut m, joined.as_str());
                m
            };
            proof {
                reveal_strlit("all synthesis attempts failed: no valid voice candidates were available");
                reveal_strlit("all synthesis attempts failed: ");
                reveal_strlit("no valid voice candidates were available");
                assert(message@ =~= attempts_failed_message(note_texts(self.notes@)));
            }
            self.phase = SpdPhase::Done;
            return SpdAction::Failed { message };
        }
        self.current = i;
        let v = self.attempts[i].0.duplicate();
        match v {
            VoiceSelection::Profile { name } => {
                self.phase = SpdPhase::Checking;
                SpdAction::ReadProfile { name }
            },
            VoiceSelection::Preset { .. } => {
                self.phase = SpdPhase::Sending;
                SpdAction::Send { voice: v }
            },
        }
    }

    /// Takes in the result of the last action and says what to do next. The
    /// attempts are tried in order; a profile that may not be used is
    /// skipped, and each skipped or failed attempt leaves a note.
    pub fn step(&mut self, event: SpdEvent) -> (a: SpdAction)
        requires
            old(self).wf(),
            old(self).accepts_spec(event),
        ensures
            old(self).step_spec(event, a, *final(self)),
            final(self).wf(),
            (event matches SpdEvent::Sent { outcome: Err(_) }) && old(self).current + 1 < old(
                self,
            ).attempts@.len() ==> final(self).current == old(self).current + 1 && !(a is Failed),
    {
        match event {
            SpdEvent::Begin => self.start_attempt(0),
            SpdEvent::ProfileRead { mode } => {
                let cur = self.current;
                let count = self.attempts.len();
                assert(cur < count);
                let name = self.attempts[cur].0.name().clone();
                match spd_voice_verdict(self.allow_icl, name.as_str(), mode) {
                    Ok(()) => {
                        self.phase = SpdPhase::Sending;
                        SpdAction::Send { voice: self.attempts[cur].0.duplicate() }
                    },
                    Err(reason) => {
                        let note = make_note(&self.attempts[cur].1, &self.attempts[cur].0, true, &reason);
                        let ghost before = self.notes@;
                        self.notes.push(note);
                        assert(note_texts(self.notes@) =~= note_texts(before).push(note@));
                        self.start_attempt(cur + 1)
                    },
                }
            },
            SpdEvent::Sent { outcome } => {
                let cur = self.current;
                let count = self.attempts.len();
                assert(cur < count);
                match outcome {
                    Ok(()) => {
                        self.phase = SpdPhase::Done;
                        SpdAction::Succeeded { voice: self.attempts[cur].0.duplicate() }
                    },
                    Err(err) => {
                        let note = make_note(&self.attempts[cur].1, &self.attempts[cur].0, false, &err);
                        let ghost before = self.notes@;
                        self.notes.push(note);
                        assert(note_texts(self.notes@) =~= note_texts(before).push(note@));
                        self.start_attempt(cur + 1)
                    },
                }
            },
        }
    }
}

/// A voice the daemon could not synthesize is not the end of the run while
/// attempts are left: the run moves on to the next attempt (reading its
/// metadata where it is a profile, sending it where it is a preset) and
/// keeps a note of the failure.
pub proof fn lemma_daemon_failure_tries_next(run: SpdRun, err: String, a: SpdAction, next: SpdRun)
    requires
        run.wf(),
        run.phase == SpdPhase::Sending,
        run.current + 1 < run.attempts@.len(),
        run.step_spec(SpdEvent::Sent { outcome: Err(err) }, a, next),
    ensures
        !(a is Failed),
        !(a is Succeeded),
        next.current == run.current + 1,
        next.phase != SpdPhase::Done,
        ({
            let v = run.attempts@[run.current + 1].0@;
            if v.0 == VoiceKind::Profile {
                a matches SpdAction::ReadProfile { name } && name@ == v.1
            } else {
                a matches SpdAction::Send { voice } && voice@ == v
            }
        }),
        note_texts(next.notes@) == note_texts(run.notes@).push(
            attempt_note(
                run.attempts@[run.current as int].1@,
                run.attempts@[run.current as int].0@,
                false,
                err@,
            ),
        ),
{
}

/// A profile that may not be used is skipped, not the end of the run while
/// attempts are left: the run moves on to the next attempt and keeps a note
/// of why the profile was skipped.
pub proof fn lemma_skipped_profile_tries_next(
    run: SpdRun,
    mode: Result<ProfileMode, String>,
    a: SpdAction,
    next: SpdRun,
)
    requires
        run.wf(),
        run.phase == SpdPhase::Checking,
        run.current + 1 < run.attempts@.len(),
        match mode {
            Ok(m) => m == ProfileMode::Icl && !run.allow_icl,
            Err(_) => true,
        },
        run.step_spec(SpdEvent::ProfileRead { mode }, a, next),
    ensures
        !(a is Failed),
        !(a is Succeeded),
        next.current == run.current + 1,
        next.phase != SpdPhase::Done,
        note_texts(next.notes@).len() == run.notes@.len() + 1,
        ({
            let v = run.attempts@[run.current + 1].0@;
            if v.0 == VoiceKind::Profile {
                a matches SpdAction::ReadProfile { name } && name@ == v.1
            } else {
                a matches SpdAction::Send { voice } && voice@ == v
            }
        }),
{
}

/// The run gives up only after its last attempt: a failure is reported
/// when the daemon fails the last voice, and then carries every note.
pub proof fn lemma_failure_only_after_last_attempt(
    run: SpdRun,
    e: SpdEvent,
    a: SpdAction,
    next: SpdRun,
)
    requires
        run.wf(),
        run.accepts_spec(e),
        run.step_spec(e, a, next),
        a is Failed,
    ensures
        e is Begin ==> run.attempts@.len() == 0,
        !(e is Begin) ==> run.current + 1 == run.attempts@.len(),
        a matches SpdAction::Failed { message } && message@ == attempts_failed_message(
            note_texts(next.notes@),
        ),
{
}

/// Notes are never lost: each step keeps every note taken so far, in order,
/// and adds at most one; a success adds none and reports the voice of the
/// attempt that was sent.
pub proof fn lemma_notes_kept(run: SpdRun, e: SpdEvent, a: SpdAction, next: SpdRun)
    requires
        run.wf(),
        run.accepts_spec(e),
        run.step_spec(e, a, next),
    ensures
        run.notes@.len() <= next.notes@.len() <= run.notes@.len() + 1,
        note_texts(next.notes@).take(run.notes@.len() as int) == note_texts(run.notes@),
        a matches SpdAction::Succeeded { voice } ==> (run.phase == SpdPhase::Sending && voice@
            == run.attempts@[run.current as int].0@ && next.notes@.len() == run.notes@.len()),
{
    assert(note_texts(next.notes@).len() == next.notes@.len());
    assert(note_texts(run.notes@).len() == run.notes@.len());
}

fn make_note(source: &String, voice: &VoiceSelection, skipped: bool, reason: &String) -> (n: String)
    ensures
        n@ == attempt_note(source@, voice@, skipped, reason@),
{
    let mut n = source.clone();
    push_str(&mut n, " (");
    let label = describe_voice(voice);
    push_str(&mut n, label.as_str());
    if skipped {
        push_str(&mut n, ") skipped: ");
    } else {
        push_str(&mut n, ") failed: ");
    }
    push_str(&mut n, reason.as_str());
    n
}

/// The `\n`-separated segments of `s` (the last one after the final `\n`,
/// possibly empty).
pub open spec fn segments(s: Seq<char>) -> Seq<Seq<char>>
    decreases s.len(),
{
    if s.len() == 0 {
        seq![Seq::empty()]
    } else {
        let rest = segments(s.drop_last());
        if s.last() == '\n' {
            rest.push(Seq::empty())
        } else {
            rest.update(rest.len() - 1, rest.last().push(s.last()))
        }
    }
}

proof fn lemma_segments_nonempty(s: Seq<char>)
    ensures
        segments(s).len() >= 1,
    decreases s.len(),
{
    if s.len() > 0 {
        lemma_segments_nonempty(s.drop_last());
    }
}

/// A line of `speechd.conf` that makes this module the default one.
pub open spec fn is_default_module_line(line: Seq<char>) -> bool {
    eq_ignore_case(trimmed(line), "DefaultModule speake-rs"@)
}

/// Whether some line of `body`, trimmed, reads `DefaultModule speake-rs` in
/// any ASCII case. (Splitting at `\n` finds the lines `str::lines` does, up
/// to a trailing `\r` and a final empty line, which trimming and the test
/// make no difference to.)
pub fn default_module_enabled(body: &str) -> (r: bool)
    ensures
        r == exists|k: int|
            0 <= k < segments(body@).len() && is_default_module_line(#[trigger] segments(body@)[k]),
{
    let v = chars_of(body);
    let n = v.len();
    let mut start: usize = 0;
    let mut i: usize = 0;
    let mut found = false;
    assert(v@.subrange(0, 0) =~= Seq::<char>::empty());
    while i < n
        invariant
            n == v@.len(),
            v@ == body@,
            start <= i <= n,
            segments(v@.take(i as int)).last() == v@.subrange(start as int, i as int),
            found == exists|k: int|
                0 <= k < segments(v@.take(i as int)).len() - 1 && is_default_module_line(
                    #[trigger] segments(v@.take(i as int))[k],
                ),
        decreases n - i,
    {
        proof {
            lemma_segments_nonempty(v@.take(i as int));
            assert(v@.take(i + 1).drop_last() =~= v@.take(i as int));
        }
        if v[i] == '\n' {
            let line = string_of(&v, start, i);
            let t = trim(line.as_str());
            let hit = equals_ignore_case(t.as_str(), "DefaultModule speake-rs");
            proof {
                let old_segs = segments(v@.take(i as int));
                let new_segs = segments(v@.take(i + 1));
                assert(new_segs == old_segs.push(Seq::empty()));
                assert(found || hit <==> exists|k: int|
                    0 <= k < new_segs.len() - 1 && is_default_module_line(#[trigger] new_segs[k])) by {
                    if hit {
                        assert(new_segs[old_segs.len() - 1] == old_segs.last());
                    }
                    if found {
                        let k = choose|k: int|
                            0 <= k < old_segs.len() - 1 && is_default_module_line(
                                #[trigger] old_segs[k],
                            );
                        assert(new_segs[k] == old_segs[k]);
                    }
                    if exists|k: int|
                        0 <= k < new_segs.len() - 1 && is_default_module_line(#[trigger] new_segs[k]) {
                        let k = choose|k: int|
                            0 <= k < new_segs.len() - 1 && is_default_module_line(
                                #[trigger] new_segs[k],
                            );
                        if k < old_segs.len() - 1 {
                            assert(new_segs[k] == old_segs[k]);
                        }
                    }
                }
            }
            found = found || hit;
            start = i + 1;
        } else {
            proof {
                let old_segs = segments(v@.take(i as int));
                let new_segs = segments(v@.take(i + 1));
                assert(new_segs == old_segs.update(old_segs.len() - 1, old_segs.last().push(v@[i as int])));
                assert(v@.subrange(start as int, i + 1) =~= v@.subrange(start as int, i as int).push(v@[i as int]));
                assert forall|k: int| 0 <= k < new_segs.len() - 1 implies new_segs[k] == old_segs[k] by {}
            }
        }
        i += 1;
    }
    let line = string_of(&v, start, n);
    let t = trim(line.as_str());
    let hit = equals_ignore_case(t.as_str(), "DefaultModule speake-rs");
    proof {
        assert(v@.take(n as int) =~= body@);
        let segs = segments(body@);
        lemma_segments_nonempty(body@);
        if exists|k: int| 0 <= k < segs.len() && is_default_module_line(#[trigger] segs[k]) {
            let k = choose|k: int| 0 <= k < segs.len() && is_default_module_line(#[trigger] segs[k]);
            if k < segs.len() - 1 {
                assert(found);
            } else {
                assert(hit);
            }
        }
        if found {
            let k = choose|k: int| 0 <= k < segs.len() - 1 && is_default_module_line(#[trigger] segs[k]);
        }
        if hit {
            assert(is_default_module_line(segs[segs.len() - 1]));
        }
    }
    found || hit
}

/// The fallback profile as `doctor` shows it: as configured (not trimmed),
/// or `(unset)` where it is missing or blank.
pub fn fallback_profile_label(config: &SpeechDispatcherConfig) -> (r: String)
    ensures
        r@ == (match config.fallback_profile {
            Some(p) => if is_blank(p@) {
                "(unset)"@
            } else {
                p@
            },
            None => "(unset)"@,
        }),
{
    match &config.fallback_profile {
        Some(p) => {
            let t = trim(p.as_str());
            if t.as_str().is_empty() {
                owned("(unset)")
            } else {
                p.clone()
            }
        },
        None => owned("(unset)"),
    }
}

/// The `doctor` warning for a voice map entry that names a profile.
pub fn doctor_binding_warning(
    symbolic: &str,
    name: &str,
    allow_icl: bool,
    mode: Result<ProfileMode, String>,
) -> (r: Option<String>)
    ensures
        mode matches Ok(m) ==> (if m == ProfileMode::Icl && !allow_icl {
            r matches Some(w) && w@ == "voice-map warning: "@ + symbolic@ + " uses ICL profile '"@
                + name@ + "' but allow_icl=false"@
        } else {
            r is None
        }),
        mode matches Err(e) ==> (r matches Some(w) && w@ == "voice-map warning: "@ + symbolic@
            + " references unreadable profile '"@ + name@ + "': "@ + e@),
{
    match mode {
        Ok(m) => {
            if m == ProfileMode::Icl && !allow_icl {
                let mut w = owned("voice-map warning: ");
                push_str(&mut w, symbolic);
                push_str(&mut w, " uses ICL profile '");
                push_str(&mut w, name);
                push_str(&mut w, "' but allow_icl=false");
                Some(w)
            } else {
                None
            }
        },
        Err(e) => {
            let mut w = owned("voice-map warning: ");
            push_str(&mut w, symbolic);
            push_str(&mut w, " references unreadable profile '");
            push_str(&mut w, name);
            push_str(&mut w, "': ");
            push_str(&mut w, e.as_str());
            Some(w)
        },
    }
}

/// The `doctor` warning for the fallback profile.
pub fn doctor_fallback_warning(name: &str, allow_icl: bool, mode: Result<ProfileMode, String>) -> (r:
    Option<String>)
    ensures
        mode matches Ok(m) ==> (if m == ProfileMode::Icl && !allow_icl {
            r matches Some(w) && w@ == "fallback warning: fallback profile '"@ + name@
                + "' is ICL but allow_icl=false"@
        } else {
            r is None
        }),
        mode matches Err(e) ==> (r matches Some(w) && w@ == "fallback warning: fallback profile '"@
            + name@ + "' is not readable: "@ + e@),
{
    match mode {
        Ok(m) => {
            if m == ProfileMode::Icl && !allow_icl {
                let mut w = owned("fallback warning: fallback profile '");
                push_str(&mut w, name);
                push_str(&mut w, "' is ICL but allow_icl=false");
                Some(w)
            } else {
                None
            }
        },
        Err(e) => {
            let mut w = owned("fallback warning: fallback profile '");
            push_str(&mut w, name);
            push_str(&mut w, "' is not readable: ");
            push_str(&mut w, e.as_str());
            Some(w)
        },
    }
}

} // verus!
