//! Cloned voice profiles: their names, where their files live, their
//! metadata, and which parts of a clone prompt a profile keeps.

use vstd::prelude::*;

use crate::paths::{join_path, path_join, profiles_dir, profiles_dir_of, EnvDirs};
use crate::text::{
    chars_of, lemma_text_le_transitive, lemma_text_lt_total, owned, text_le, text_less, text_lt,
};

verus! {

/// How a profile was cloned: `Icl` keeps reference codes and transcript
/// tokens (in-context learning), `Xvector` only the speaker embedding.
#[derive(Debug, Clone, Copy, PartialEq, Eq, Structural)]
pub enum ProfileMode {
    Icl,
    Xvector,
}

/// The metadata stored beside a profile's tensors.
#[derive(Debug, Clone)]
pub struct ProfileMeta {
    pub version: u32,
    pub name: String,
    pub mode: ProfileMode,
    pub created_at_unix: u64,
    pub ref_text_ids: Option<Vec<u32>>,
}

/// The characters a profile name may hold: `[A-Za-z0-9_-]`.
pub open spec fn name_char_ok(c: char) -> bool {
    let n = c as u32;
    ||| 48 <= n && n <= 57
    ||| 65 <= n && n <= 90
    ||| 97 <= n && n <= 122
    ||| c == '-'
    ||| c == '_'
}

pub open spec fn valid_profile_name(name: Seq<char>) -> bool {
    name.len() > 0 && forall|i: int| 0 <= i < name.len() ==> name_char_ok(#[trigger] name[i])
}

/// Why a profile name was refused.
#[derive(Debug, Clone, Copy, PartialEq, Eq, Structural)]
pub enum ProfileNameError {
    Empty,
    InvalidCharacters,
}

impl ProfileNameError {
    pub open spec fn spec_message(self) -> Seq<char> {
        match self {
            ProfileNameError::Empty => "profile name cannot be empty"@,
            ProfileNameError::InvalidCharacters => "profile name can only contain [A-Za-z0-9_-]"@,
        }
    }

    pub fn message(self) -> (m: String)
        ensures
            m@ == self.spec_message(),
    {
        match self {
            ProfileNameError::Empty => owned("profile name cannot be empty"),
            ProfileNameError::InvalidCharacters => owned(
                "profile name can only contain [A-Za-z0-9_-]",
            ),
        }
    }
}

fn char_ok(c: char) -> (b: bool)
    ensures
        b == name_char_ok(c),
{
    let n = c as u32;
    (48 <= n && n <= 57) || (65 <= n && n <= 90) || (97 <= n && n <= 122) || c == '-' || c == '_'
}

/// Accepts a non-empty name made of `[A-Za-z0-9_-]` only.
pub fn validate_profile_name(name: &str) -> (r: Result<(), ProfileNameError>)
    ensures
        r is Ok <==> valid_profile_name(name@),
        name@.len() == 0 ==> r == Err::<(), ProfileNameError>(ProfileNameError::Empty),
        name@.len() > 0 && !valid_profile_name(name@) ==> r == Err::<(), ProfileNameError>(
            ProfileNameError::InvalidCharacters,
        ),
{
    let v = chars_of(name);
    let n = v.len();
    if n == 0 {
        return Err(ProfileNameError::Empty);
    }
    let mut i: usize = 0;
    while i < n
        invariant
            n == v@.len(),
            v@ == name@,
            i <= n,
            forall|k: int| 0 <= k < i ==> name_char_ok(#[trigger] v@[k]),
        decreases n - i,
    {
        if !char_ok(v[i]) {
            return Err(ProfileNameError::InvalidCharacters);
        }
        i += 1;
    }
    Ok(())
}

/// The profile-name alphabet: a name is valid exactly when it is non-empty
/// and each of its characters is an ASCII letter of either case, an ASCII
/// digit, `-` or `_`.
pub proof fn lemma_profile_name_alphabet(name: Seq<char>)
    ensures
        valid_profile_name(name) <==> (name.len() > 0 && forall|i: int|
            0 <= i < name.len() ==> {
                let c = #[trigger] name[i];
                ||| 'A' <= c && c <= 'Z'
                ||| 'a' <= c && c <= 'z'
                ||| '0' <= c && c <= '9'
                ||| c == '-'
                ||| c == '_'
            }),
{
    assert forall|i: int| 0 <= i < name.len() implies name_char_ok(#[trigger] name[i]) <==> {
        let c = name[i];
        ||| 'A' <= c && c <= 'Z'
        ||| 'a' <= c && c <= 'z'
        ||| '0' <= c && c <= '9'
        ||| c == '-'
        ||| c == '_'
    } by {
        lemma_name_char_ranges(name[i]);
    }
}

proof fn lemma_name_char_ranges(c: char)
    ensures
        name_char_ok(c) <==> {
            ||| 'A' <= c && c <= 'Z'
            ||| 'a' <= c && c <= 'z'
            ||| '0' <= c && c <= '9'
            ||| c == '-'
            ||| c == '_'
        },
{
    assert(('A' <= c && c <= 'Z') <==> (65 <= (c as u32) && (c as u32) <= 90));
    assert(('a' <= c && c <= 'z') <==> (97 <= (c as u32) && (c as u32) <= 122));
    assert(('0' <= c && c <= '9') <==> (48 <= (c as u32) && (c as u32) <= 57));
}

/// Every ASCII letter, upper or lower case, and every ASCII digit may stand
/// in a profile name.
pub proof fn lemma_letters_and_digits_allowed(c: char)
    requires
        ('A' <= c && c <= 'Z') || ('a' <= c && c <= 'z') || ('0' <= c && c <= '9'),
    ensures
        name_char_ok(c),
        valid_profile_name(seq![c]),
{
    assert(seq![c][0] == c);
}

pub open spec fn profile_dir_of(env: EnvDirs, name: Seq<char>) -> Seq<char> {
    path_join(profiles_dir_of(env), name)
}

/// The directory that holds the profile `name`.
pub fn profile_dir(env: &EnvDirs, name: &str) -> (r: String)
    ensures
        r@ == profile_dir_of(*env, name@),
{
    join_path(profiles_dir(env).as_str(), name)
}

/// The metadata file of the profile `name`.
pub fn profile_meta_path(env: &EnvDirs, name: &str) -> (r: String)
    ensures
        r@ == path_join(profile_dir_of(*env, name@), "profile.json"@),
{
    join_path(profile_dir(env, name).as_str(), "profile.json")
}

/// The tensor file of the profile `name`.
pub fn profile_tensors_path(env: &EnvDirs, name: &str) -> (r: String)
    ensures
        r@ == path_join(profile_dir_of(*env, name@), "tensors.safetensors"@),
{
    join_path(profile_dir(env, name).as_str(), "tensors.safetensors")
}

/// A valid profile name stays inside the profiles directory: its directory
/// is that directory and the name, with at most a `/` between them, and the
/// name holds no `/` or `.` with which to leave it.
pub proof fn lemma_profile_dir_inside(env: EnvDirs, name: Seq<char>)
    requires
        valid_profile_name(name),
    ensures
        profile_dir_of(env, name) == profiles_dir_of(env) + name || profile_dir_of(env, name)
            == profiles_dir_of(env) + seq!['/'] + name,
        !name.contains('/'),
        !name.contains('.'),
{
    assert(name_char_ok(name[0]));
    if name.contains('/') {
        let i = choose|i: int| 0 <= i < name.len() && name[i] == '/';
        assert(name_char_ok(name[i]));
    }
    if name.contains('.') {
        let i = choose|i: int| 0 <= i < name.len() && name[i] == '.';
        assert(name_char_ok(name[i]));
    }
}

/// The mode a new profile gets from its clone prompt, and the transcript
/// tokens it keeps: a prompt with both reference codes and transcript tokens
/// makes an ICL profile that keeps the tokens; any other prompt an x-vector
/// profile that keeps none.
pub fn profile_layout(has_ref_codes: bool, ref_text_ids: Option<Vec<u32>>) -> (r: (
    ProfileMode,
    Option<Vec<u32>>,
))
    ensures
        has_ref_codes && ref_text_ids is Some ==> r == (ProfileMode::Icl, ref_text_ids),
        !(has_ref_codes && ref_text_ids is Some) ==> r == (ProfileMode::Xvector, None::<Vec<u32>>),
{
    match ref_text_ids {
        Some(ids) => {
            if has_ref_codes {
                (ProfileMode::Icl, Some(ids))
            } else {
                (ProfileMode::Xvector, None)
            }
        },
        None => (ProfileMode::Xvector, None),
    }
}

/// The tensors a profile of this mode stores: the speaker embedding, and for
/// an ICL profile the reference codes too.
pub fn profile_tensor_names(mode: ProfileMode) -> (r: Vec<String>)
    ensures
        r@.map_values(|s: String| s@) == (if mode == ProfileMode::Icl {
            seq!["speaker_embedding"@, "ref_codes"@]
        } else {
            seq!["speaker_embedding"@]
        }),
{
    let mut names: Vec<String> = Vec::new();
    names.push(owned("speaker_embedding"));
    if mode == ProfileMode::Icl {
        names.push(owned("ref_codes"));
    }
    assert(names@.map_values(|s: String| s@) =~= (if mode == ProfileMode::Icl {
        seq!["speaker_embedding"@, "ref_codes"@]
    } else {
        seq!["speaker_embedding"@]
    }));
    names
}

/// The metadata of a newly saved profile (format version 1).
pub fn new_profile_meta(
    name: String,
    mode: ProfileMode,
    created_at_unix: u64,
    ref_text_ids: Option<Vec<u32>>,
) -> (m: ProfileMeta)
    ensures
        m == (ProfileMeta { version: 1, name, mode, created_at_unix, ref_text_ids }),
{
    ProfileMeta { version: 1, name, mode, created_at_unix, ref_text_ids }
}

/// What loading a profile takes from its metadata: whether the reference
/// codes must be present (only for ICL profiles), and the transcript tokens
/// to use (an ICL profile's own, none otherwise).
pub fn prompt_requirements(meta: ProfileMeta) -> (r: (bool, Option<Vec<u32>>))
    ensures
        meta.mode == ProfileMode::Icl ==> r == (true, meta.ref_text_ids),
        meta.mode == ProfileMode::Xvector ==> r == (false, None::<Vec<u32>>),
{
    match meta.mode {
        ProfileMode::Icl => (true, meta.ref_text_ids),
        ProfileMode::Xvector => (false, None),
    }
}

pub open spec fn names_sorted(s: Seq<Seq<char>>) -> bool {
    forall|i: int, j: int| 0 <= i < j < s.len() ==> text_le(s[i], s[j])
}

pub open spec fn name_texts(v: Seq<String>) -> Seq<Seq<char>> {
    v.map_values(|s: String| s@)
}

proof fn lemma_insert_multiset(s: Seq<Seq<char>>, p: int, x: Seq<char>)
    requires
        0 <= p <= s.len(),
    ensures
        s.insert(p, x).to_multiset() =~= s.to_multiset().insert(x),
{
    broadcast use vstd::seq_lib::group_to_multiset_ensures;

    let t = s.insert(p, x);
    assert(t.remove(p) =~= s);
    assert(t[p] == x);
    assert(t.to_multiset().count(x) > 0);
}

/// The profile names in ascending order (what `sort` does to them).
pub fn sort_profile_names(names: Vec<String>) -> (r: Vec<String>)
    ensures
        names_sorted(name_texts(r@)),
        name_texts(r@).to_multiset() == name_texts(names@).to_multiset(),
{
    let n = names.len();
    let mut out: Vec<String> = Vec::new();
    let mut i: usize = 0;
    proof {
        broadcast use vstd::seq_lib::group_to_multiset_ensures;

        assert(name_texts(out@) =~= name_texts(names@.take(0)));
    }
    while i < n
        invariant
            n == names@.len(),
            i <= n,
            names_sorted(name_texts(out@)),
            name_texts(out@).to_multiset() == name_texts(names@.take(i as int)).to_multiset(),
        decreases n - i,
    {
        let name = names[i].clone();
        let len = out.len();
        let mut p: usize = 0;
        while p < len && !text_less(name.as_str(), out[p].as_str())
            invariant
                len == out@.len(),
                p <= len,
                forall|k: int| 0 <= k < p ==> text_le(#[trigger] out@[k]@, name@),
            decreases len - p,
        {
            proof {
                if out@[p as int]@ != name@ {
                    lemma_text_lt_total(out@[p as int]@, name@);
                }
            }
            p += 1;
        }
        let ghost before = out@;
        out.insert(p, name);
        proof {
            let bt = name_texts(before);
            let nt = name_texts(out@);
            assert(nt =~= bt.insert(p as int, name@));
            assert forall|a: int, b: int| 0 <= a < b < nt.len() implies text_le(nt[a], nt[b]) by {
                if b < p {
                    assert(nt[a] == bt[a] && nt[b] == bt[b]);
                } else if b == p {
                    assert(nt[a] == bt[a]);
                } else if a == p {
                    // name < out[p] <= out[b - 1]
                    assert(text_lt(name@, before[p as int]@));
                    if b - 1 > p {
                        assert(text_le(bt[p as int], bt[b - 1]));
                        lemma_text_le_transitive(name@, bt[p as int], bt[b - 1]);
                    }
                    assert(nt[b] == bt[b - 1]);
                } else if a < p {
                    assert(nt[a] == bt[a] && nt[b] == bt[b - 1]);
                    assert(text_le(bt[a], name@));
                    assert(text_lt(name@, bt[p as int]));
                    lemma_text_le_transitive(bt[a], name@, bt[p as int]);
                    if b - 1 > p {
                        lemma_text_le_transitive(bt[a], bt[p as int], bt[b - 1]);
                    }
                } else {
                    assert(nt[a] == bt[a - 1] && nt[b] == bt[b - 1]);
                }
            }
            lemma_insert_multiset(bt, p as int, name@);
            assert(name_texts(names@.take(i + 1)) =~= name_texts(names@.take(i as int)).push(
                names@[i as int]@,
            ));
            broadcast use vstd::seq_lib::group_to_multiset_ensures;

        }
        i += 1;
    }
    assert(names@.take(n as int) =~= names@);
    out
}


} // verus!
