//! The user configuration: daemon settings, Speech Dispatcher settings, and
//! how symbolic Speech Dispatcher voices map to presets and profiles.

use vstd::prelude::*;

use crate::lang::{DEFAULT_LANGUAGE, DEFAULT_PRESET_VOICE};
use crate::model::ModelVariant;
use crate::paths::{socket_path, socket_path_of, EnvDirs};
use crate::protocol::{voice_label, VoiceKind, VoiceSelection};
use crate::text::{
    ascii_lower, ascii_upper, eq_ignore_case, has_prefix, is_blank, lemma_text_lt_irreflexive,
    lemma_text_lt_total, lemma_text_lt_transitive, lemma_trimmed_ends, lemma_trimmed_fixed,
    lower_char, owned, same_text, strip_prefix, text_less, text_lt, to_ascii_upper, trim, trimmed,
    upper_char,
};

verus! {

/// Symbolic voice names mapped to voice bindings, each name at most once,
/// kept in ascending order of name.
#[derive(Debug)]
pub struct VoiceMap {
    entries: Vec<(String, String)>,
}

pub open spec fn keys_distinct(s: Seq<(String, String)>) -> bool {
    forall|i: int, j: int| 0 <= i < j < s.len() ==> s[i].0@ != s[j].0@
}

/// The names of the entries are in strictly ascending order (that of
/// [`text_lt`]).
pub open spec fn keys_sorted(s: Seq<(String, String)>) -> bool {
    forall|i: int, j: int| 0 <= i < j < s.len() ==> text_lt(s[i].0@, s[j].0@)
}

proof fn lemma_sorted_distinct(s: Seq<(String, String)>)
    requires
        keys_sorted(s),
    ensures
        keys_distinct(s),
{
    assert forall|i: int, j: int| 0 <= i < j < s.len() implies s[i].0@ != s[j].0@ by {
        lemma_text_lt_irreflexive(s[i].0@);
    }
}

/// The map that a list of entries describes.
pub open spec fn map_of(s: Seq<(String, String)>) -> Map<Seq<char>, Seq<char>>
    decreases s.len(),
{
    if s.len() == 0 {
        Map::empty()
    } else {
        map_of(s.drop_last()).insert(s.last().0@, s.last().1@)
    }
}

pub proof fn lemma_map_of_has(s: Seq<(String, String)>, i: int)
    requires
        keys_distinct(s),
        0 <= i < s.len(),
    ensures
        map_of(s).contains_key(s[i].0@),
        map_of(s)[s[i].0@] == s[i].1@,
    decreases s.len(),
{
    if i < s.len() - 1 {
        lemma_map_of_has(s.drop_last(), i);
    }
}

/// Every key of the map comes from some entry.
pub proof fn lemma_map_of_key_has_entry(s: Seq<(String, String)>, k: Seq<char>)
    requires
        map_of(s).contains_key(k),
    ensures
        exists|i: int| 0 <= i < s.len() && s[i].0@ == k,
{
    if !(exists|i: int| 0 <= i < s.len() && s[i].0@ == k) {
        lemma_map_of_lacks(s, k);
    }
}

proof fn lemma_map_of_lacks(s: Seq<(String, String)>, k: Seq<char>)
    requires
        forall|i: int| 0 <= i < s.len() ==> s[i].0@ != k,
    ensures
        !map_of(s).contains_key(k),
    decreases s.len(),
{
    if s.len() > 0 {
        lemma_map_of_lacks(s.drop_last(), k);
    }
}

proof fn lemma_map_of_same_views(a: Seq<(String, String)>, b: Seq<(String, String)>)
    requires
        a.len() == b.len(),
        forall|k: int| 0 <= k < a.len() ==> #[trigger] a[k].0@ == b[k].0@ && a[k].1@ == b[k].1@,
    ensures
        map_of(a) == map_of(b),
        keys_distinct(b) ==> keys_distinct(a),
        keys_sorted(b) ==> keys_sorted(a),
    decreases a.len(),
{
    if a.len() > 0 {
        lemma_map_of_same_views(a.drop_last(), b.drop_last());
    }
}

proof fn lemma_map_of_insert(s: Seq<(String, String)>, p: int, e: (String, String))
    requires
        0 <= p <= s.len(),
        forall|i: int| 0 <= i < s.len() ==> s[i].0@ != e.0@,
    ensures
        map_of(s.insert(p, e)) =~= map_of(s).insert(e.0@, e.1@),
    decreases s.len(),
{
    let t = s.insert(p, e);
    if p == s.len() {
        assert(t =~= s.push(e));
        assert(t.drop_last() =~= s);
    } else {
        assert(t.drop_last() =~= s.drop_last().insert(p, e));
        assert(t.last() == s.last());
        lemma_map_of_insert(s.drop_last(), p, e);
    }
}

proof fn lemma_map_of_update(s: Seq<(String, String)>, i: int, e: (String, String))
    requires
        keys_distinct(s),
        0 <= i < s.len(),
        s[i].0@ == e.0@,
    ensures
        map_of(s.update(i, e)) =~= map_of(s).insert(e.0@, e.1@),
    decreases s.len(),
{
    let t = s.update(i, e);
    if i == s.len() - 1 {
        assert(t.drop_last() =~= s.drop_last());
    } else {
        assert(t.drop_last() =~= s.drop_last().update(i, e));
        lemma_map_of_update(s.drop_last(), i, e);
    }
}

impl VoiceMap {
    #[verifier::type_invariant]
    spec fn sorted_names(self) -> bool {
        keys_sorted(self.entries@)
    }

    pub closed spec fn spec_map(self) -> Map<Seq<char>, Seq<char>> {
        map_of(self.entries@)
    }

    pub fn new() -> (m: Self)
        ensures
            m.spec_map() == Map::<Seq<char>, Seq<char>>::empty(),
    {
        VoiceMap { entries: Vec::new() }
    }

    /// Where `name` stands or would stand in the entries: the first entry
    /// whose name does not come before `name`, and whether that entry is
    /// `name`'s.
    fn locate(&self, name: &str) -> (r: (usize, bool))
        ensures
            r.0 <= self.entries@.len(),
            r.1 <==> r.0 < self.entries@.len() && self.entries@[r.0 as int].0@ == name@,
            !r.1 ==> forall|k: int| 0 <= k < self.entries@.len() ==> self.entries@[k].0@ != name@,
            forall|k: int| 0 <= k < r.0 ==> text_lt(#[trigger] self.entries@[k].0@, name@),
            !r.1 ==> forall|k: int|
                r.0 <= k < self.entries@.len() ==> text_lt(name@, #[trigger] self.entries@[k].0@),
    {
        proof {
            use_type_invariant(self);
        }
        let n = self.entries.len();
        let mut i: usize = 0;
        while i < n && text_less(self.entries[i].0.as_str(), name)
            invariant
                n == self.entries@.len(),
                i <= n,
                forall|k: int| 0 <= k < i ==> text_lt(#[trigger] self.entries@[k].0@, name@),
            decreases n - i,
        {
            i += 1;
        }
        let found = i < n && same_text(self.entries[i].0.as_str(), name);
        proof {
            if !found {
                assert forall|k: int| i <= k < n implies text_lt(name@, #[trigger] self.entries@[k].0@) by {
                    let first = self.entries@[i as int].0@;
                    lemma_text_lt_total(first, name@);
                    if k > i {
                        lemma_text_lt_transitive(name@, first, self.entries@[k].0@);
                    }
                }
                assert forall|k: int| 0 <= k < n implies self.entries@[k].0@ != name@ by {
                    lemma_text_lt_irreflexive(name@);
                }
            }
        }
        (i, found)
    }

    /// The binding of `name`, if it has one.
    pub fn get(&self, name: &str) -> (r: Option<&String>)
        ensures
            r matches Some(b) ==> self.spec_map().contains_key(name@) && self.spec_map()[name@]
                == b@,
            r is None ==> !self.spec_map().contains_key(name@),
    {
        proof {
            use_type_invariant(self);
            lemma_sorted_distinct(self.entries@);
        }
        let (i, found) = self.locate(name);
        if found {
            proof {
                lemma_map_of_has(self.entries@, i as int);
            }
            Some(&self.entries[i].1)
        } else {
            proof {
                lemma_map_of_lacks(self.entries@, name@);
            }
            None
        }
    }

    /// Binds `name` to `binding`, replacing an earlier binding of `name`.
    pub fn insert(&mut self, name: String, binding: String)
        ensures
            final(self).spec_map() == old(self).spec_map().insert(name@, binding@),
    {
        proof {
            use_type_invariant(&*self);
            lemma_sorted_distinct(self.entries@);
        }
        let (i, found) = self.locate(name.as_str());
        let ghost before = self.entries@;
        let ghost entry = (name, binding);
        let mut entries = Vec::new();
        std::mem::swap(&mut entries, &mut self.entries);
        assert(entries@ == before);
        if found {
            proof {
                lemma_map_of_update(before, i as int, entry);
                assert(keys_sorted(before.update(i as int, entry)));
            }
            entries.set(i, (name, binding));
        } else {
            proof {
                lemma_map_of_insert(before, i as int, entry);
                let t = before.insert(i as int, entry);
                assert forall|a: int, b: int| 0 <= a < b < t.len() implies text_lt(
                    t[a].0@,
                    t[b].0@,
                ) by {
                    if b < i {
                        assert(t[a] == before[a] && t[b] == before[b]);
                    } else if b == i {
                        assert(t[a] == before[a]);
                    } else if a == i {
                        assert(t[b] == before[b - 1]);
                    } else if a < i {
                        assert(t[a] == before[a] && t[b] == before[b - 1]);
                        lemma_text_lt_transitive(before[a].0@, name@, before[b - 1].0@);
                    } else {
                        assert(t[a] == before[a - 1] && t[b] == before[b - 1]);
                    }
                }
            }
            entries.insert(i, (name, binding));
        }
        self.entries = entries;
    }

    /// The bindings, each name once, in ascending order of name.
    pub fn entries(&self) -> (r: &Vec<(String, String)>)
        ensures
            keys_sorted(r@),
            keys_distinct(r@),
            map_of(r@) == self.spec_map(),
    {
        proof {
            use_type_invariant(self);
            lemma_sorted_distinct(self.entries@);
        }
        &self.entries
    }
}

impl Clone for VoiceMap {
    fn clone(&self) -> (r: Self)
        ensures
            r@ == self@,
    {
        proof {
            use_type_invariant(self);
        }
        let n = self.entries.len();
        let mut entries: Vec<(String, String)> = Vec::new();
        let mut i: usize = 0;
        while i < n
            invariant
                n == self.entries@.len(),
                keys_sorted(self.entries@),
                i <= n,
                entries@.len() == i,
                forall|k: int|
                    0 <= k < i ==> #[trigger] entries@[k].0@ == self.entries@[k].0@
                        && entries@[k].1@ == self.entries@[k].1@,
            decreases n - i,
        {
            let name = self.entries[i].0.clone();
            let binding = self.entries[i].1.clone();
            entries.push((name, binding));
            i += 1;
        }
        proof {
            lemma_map_of_same_views(entries@, self.entries@);
        }
        VoiceMap { entries }
    }
}

impl View for VoiceMap {
    type V = Map<Seq<char>, Seq<char>>;

    open spec fn view(&self) -> Map<Seq<char>, Seq<char>> {
        self.spec_map()
    }
}

#[derive(Debug, Clone)]
pub struct DaemonConfig {
    pub model: ModelVariant,
    pub socket_path: Option<String>,
    pub request_timeout_ms: u64,
    pub synthesis_timeout_ms: u64,
}

impl Default for DaemonConfig {
    fn default() -> (r: Self)
        ensures
            r.model == ModelVariant::CustomVoice,
            r.socket_path is None,
            r.request_timeout_ms == 60_000,
            r.synthesis_timeout_ms == 90_000,
    {
        DaemonConfig {
            model: ModelVariant::CustomVoice,
            socket_path: None,
            request_timeout_ms: 60_000,
            synthesis_timeout_ms: 90_000,
        }
    }
}

impl DaemonConfig {
    /// The configured socket path, or the default one under the runtime
    /// directory.
    pub fn resolved_socket_path(&self, env: &EnvDirs) -> (r: String)
        ensures
            r@ == (match self.socket_path {
                Some(p) => p@,
                None => socket_path_of(*env),
            }),
    {
        match &self.socket_path {
            Some(p) => p.clone(),
            None => socket_path(env),
        }
    }
}

#[derive(Debug, Clone)]
pub struct SpeechDispatcherConfig {
    pub playback_command: Option<String>,
    pub default_language: String,
    pub default_symbolic_voice: String,
    pub allow_icl: bool,
    pub fallback_profile: Option<String>,
    pub voice_map: VoiceMap,
}

/// The symbolic voices known out of the box, each bound to a preset speaker.
pub open spec fn default_voice_map() -> Map<Seq<char>, Seq<char>> {
    Map::empty().insert("CHILD_FEMALE"@, "preset:ono_anna"@).insert(
        "CHILD_MALE"@,
        "preset:eric"@,
    ).insert("FEMALE1"@, "preset:vivian"@).insert("FEMALE2"@, "preset:serena"@).insert(
        "FEMALE3"@,
        "preset:sohee"@,
    ).insert("MALE1"@, "preset:ryan"@).insert("MALE2"@, "preset:aiden"@).insert(
        "MALE3"@,
        "preset:dylan"@,
    )
}

impl Default for SpeechDispatcherConfig {
    fn default() -> (r: Self)
        ensures
            r.playback_command is None,
            r.default_language@ == DEFAULT_LANGUAGE@,
            r.default_symbolic_voice@ == "MALE1"@,
            !r.allow_icl,
            r.fallback_profile is None,
            r.voice_map@ == default_voice_map(),
    {
        let mut voice_map = VoiceMap::new();
        voice_map.insert(owned("CHILD_FEMALE"), owned("preset:ono_anna"));
        voice_map.insert(owned("CHILD_MALE"), owned("preset:eric"));
        voice_map.insert(owned("FEMALE1"), owned("preset:vivian"));
        voice_map.insert(owned("FEMALE2"), owned("preset:serena"));
        voice_map.insert(owned("FEMALE3"), owned("preset:sohee"));
        voice_map.insert(owned("MALE1"), owned("preset:ryan"));
        voice_map.insert(owned("MALE2"), owned("preset:aiden"));
        voice_map.insert(owned("MALE3"), owned("preset:dylan"));
        SpeechDispatcherConfig {
            playback_command: None,
            default_language: owned(DEFAULT_LANGUAGE),
            default_symbolic_voice: owned("MALE1"),
            allow_icl: false,
            fallback_profile: None,
            voice_map,
        }
    }
}

/// The text of an optional string argument.
pub open spec fn opt_text(o: Option<&str>) -> Option<Seq<char>> {
    match o {
        Some(s) => Some(s@),
        None => None,
    }
}

/// The voice map key that a symbolic voice resolves to: the symbolic voice,
/// trimmed, or the configured default where it is missing or blank; then in
/// ASCII upper case.
pub open spec fn symbolic_key(default_symbolic: Seq<char>, symbolic: Option<Seq<char>>) -> Seq<
    char,
> {
    let chosen = match symbolic {
        Some(s) => if is_blank(s) {
            default_symbolic
        } else {
            trimmed(s)
        },
        None => default_symbolic,
    };
    ascii_upper(chosen)
}

/// The binding that `key` has in `map`, or the default preset speaker.
pub open spec fn binding_of(map: Map<Seq<char>, Seq<char>>, key: Seq<char>) -> Seq<char> {
    if map.contains_key(key) {
        map[key]
    } else {
        DEFAULT_PRESET_VOICE@
    }
}

/// The voice a binding names: `preset:<name>` and `profile:<name>` (the
/// name trimmed), or a bare name, which is a preset. The binding is trimmed
/// first.
pub open spec fn parse_binding(binding: Seq<char>) -> (VoiceKind, Seq<char>) {
    let t = trimmed(binding);
    if has_prefix(t, "preset:"@) {
        (VoiceKind::Preset, trimmed(t.skip("preset:"@.len() as int)))
    } else if has_prefix(t, "profile:"@) {
        (VoiceKind::Profile, trimmed(t.skip("profile:"@.len() as int)))
    } else {
        (VoiceKind::Preset, t)
    }
}

/// A voice binding that cannot be read. Every binding reads as some voice,
/// so no function of this crate returns it.
#[derive(Debug, Clone)]
pub struct VoiceBindingError {
    pub binding: String,
}

/// The voice that `binding` names (see [`parse_binding`]).
pub fn parse_voice_binding(binding: &str) -> (r: Result<VoiceSelection, VoiceBindingError>)
    ensures
        r matches Ok(v) && v@ == parse_binding(binding@),
{
    let t = trim(binding);
    match strip_prefix(t.as_str(), "preset:") {
        Some(rest) => {
            return Ok(VoiceSelection::preset(trim(rest.as_str())));
        },
        None => {},
    }
    match strip_prefix(t.as_str(), "profile:") {
        Some(rest) => {
            return Ok(VoiceSelection::profile(trim(rest.as_str())));
        },
        None => {},
    }
    Ok(VoiceSelection::preset(t))
}

impl SpeechDispatcherConfig {
    /// The voice that a Speech Dispatcher symbolic voice (`MALE1`,
    /// `female2`, ...) selects.
    pub fn resolve_voice_selection(&self, symbolic_voice: Option<&str>) -> (r: Result<
        VoiceSelection,
        VoiceBindingError,
    >)
        ensures
            r matches Ok(v) && v@ == parse_binding(
                binding_of(
                    self.voice_map@,
                    symbolic_key(self.default_symbolic_voice@, opt_text(symbolic_voice)),
                ),
            ),
    {
        let chosen = match symbolic_voice {
            Some(s) => {
                let t = trim(s);
                if t.as_str().is_empty() {
                    self.default_symbolic_voice.clone()
                } else {
                    t
                }
            },
            None => self.default_symbolic_voice.clone(),
        };
        let key = to_ascii_upper(chosen.as_str());
        match self.voice_map.get(key.as_str()) {
            Some(binding) => parse_voice_binding(binding.as_str()),
            None => parse_voice_binding(DEFAULT_PRESET_VOICE),
        }
    }

    /// The configured fallback profile, unless it is missing or blank.
    pub fn fallback_voice_selection(&self) -> (r: Option<VoiceSelection>)
        ensures
            r is None <==> (match self.fallback_profile {
                Some(p) => is_blank(p@),
                None => true,
            }),
            r matches Some(v) ==> (self.fallback_profile matches Some(p) && v@ == (
                VoiceKind::Profile,
                trimmed(p@),
            )),
    {
        match &self.fallback_profile {
            Some(p) => {
                let t = trim(p.as_str());
                if t.as_str().is_empty() {
                    None
                } else {
                    Some(VoiceSelection::profile(t))
                }
            },
            None => None,
        }
    }
}

#[derive(Debug, Clone)]
pub struct Config {
    pub daemon: DaemonConfig,
    pub speech_dispatcher: SpeechDispatcherConfig,
}

impl Default for Config {
    fn default() -> (r: Self)
        ensures
            r.daemon.model == ModelVariant::CustomVoice,
            r.daemon.socket_path is None,
            r.daemon.request_timeout_ms == 60_000,
            r.daemon.synthesis_timeout_ms == 90_000,
            r.speech_dispatcher.playback_command is None,
            r.speech_dispatcher.default_language@ == DEFAULT_LANGUAGE@,
            r.speech_dispatcher.default_symbolic_voice@ == "MALE1"@,
            !r.speech_dispatcher.allow_icl,
            r.speech_dispatcher.fallback_profile is None,
            r.speech_dispatcher.voice_map@ == default_voice_map(),
    {
        Config { daemon: DaemonConfig::default(), speech_dispatcher: SpeechDispatcherConfig::default() }
    }
}

/// Writing a voice as a binding and reading the binding back gives the same
/// voice, for any name without surrounding whitespace.
pub proof fn lemma_binding_label_roundtrip(v: (VoiceKind, Seq<char>))
    requires
        trimmed(v.1) == v.1,
    ensures
        parse_binding(voice_label(v)) == v,
{
    reveal_strlit("preset:");
    reveal_strlit("profile:");
    let label = voice_label(v);
    lemma_trimmed_ends(v.1);
    if v.1.len() > 0 {
        assert(label.last() == v.1.last());
    }
    lemma_trimmed_fixed(label);
    match v.0 {
        VoiceKind::Preset => {
            assert(label.subrange(0, 7) =~= "preset:"@);
            assert(label.skip(7) =~= v.1);
        },
        VoiceKind::Profile => {
            assert(label[2] != "preset:"@[2]);
            assert(label.subrange(0, 8) =~= "profile:"@);
            assert(label.skip(8) =~= v.1);
        },
    }
}

proof fn lemma_upper_of_lower(c: char)
    ensures
        upper_char(lower_char(c)) == upper_char(c),
{
}

/// Speech Dispatcher symbolic voices are matched without regard to ASCII
/// case or surrounding whitespace, and a blank one counts as none.
pub proof fn lemma_symbolic_key_insensitive(default_symbolic: Seq<char>, a: Seq<char>, b: Seq<char>)
    requires
        eq_ignore_case(trimmed(a), trimmed(b)),
    ensures
        symbolic_key(default_symbolic, Some(a)) == symbolic_key(default_symbolic, Some(b)),
        is_blank(a) ==> symbolic_key(default_symbolic, Some(a)) == symbolic_key(
            default_symbolic,
            None,
        ),
{
    let ta = trimmed(a);
    let tb = trimmed(b);
    assert(ascii_lower(ta).len() == ta.len());
    assert(ascii_lower(tb).len() == tb.len());
    assert forall|i: int| 0 <= i < ta.len() implies upper_char(ta[i]) == upper_char(tb[i]) by {
        assert(ascii_lower(ta)[i] == lower_char(ta[i]));
        assert(ascii_lower(tb)[i] == lower_char(tb[i]));
        lemma_upper_of_lower(ta[i]);
        lemma_upper_of_lower(tb[i]);
    }
    assert(ascii_upper(ta) =~= ascii_upper(tb));
}

/// The voice-map key holds no lower-case ASCII letter, whichever way it was
/// chosen (from the symbolic voice or from the configured default):
/// upper-casing it again changes nothing.
pub proof fn lemma_symbolic_key_upper_case(default_symbolic: Seq<char>, symbolic: Option<Seq<char>>)
    ensures
        forall|i: int|
            0 <= i < symbolic_key(default_symbolic, symbolic).len() ==> !('a' <= #[trigger] symbolic_key(
                default_symbolic,
                symbolic,
            )[i] && symbolic_key(default_symbolic, symbolic)[i] <= 'z'),
        ascii_upper(symbolic_key(default_symbolic, symbolic)) == symbolic_key(
            default_symbolic,
            symbolic,
        ),
{
    let k = symbolic_key(default_symbolic, symbolic);
    assert forall|i: int| 0 <= i < k.len() implies !('a' <= #[trigger] k[i] && k[i] <= 'z')
        && upper_char(k[i]) == k[i] by {
        assert(('a' <= k[i] && k[i] <= 'z') <==> (97 <= (k[i] as u32) && (k[i] as u32) <= 122));
    }
    assert(ascii_upper(k) =~= k);
}

/// A missing or blank symbolic voice resolves exactly as the configured
/// default symbolic voice given explicitly (the default, as configured,
/// having no surrounding whitespace).
pub proof fn lemma_symbolic_key_default(default_symbolic: Seq<char>, blank_voice: Seq<char>)
    requires
        trimmed(default_symbolic) == default_symbolic,
    ensures
        symbolic_key(default_symbolic, None) == symbolic_key(
            default_symbolic,
            Some(default_symbolic),
        ),
        is_blank(blank_voice) ==> symbolic_key(default_symbolic, Some(blank_voice)) == symbolic_key(
            default_symbolic,
            Some(default_symbolic),
        ),
{
}

} // verus!
