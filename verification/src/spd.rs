//! What the Speech Dispatcher bridge does with the values Speech Dispatcher
//! hands it: the text to speak, the language, rate and pitch, and the
//! playback command.

use vstd::prelude::*;

use crate::config::opt_text;
use crate::text::{
    ascii_lower, blank, chars_of, eq_ignore_case, equals_ignore_case, has_char, is_blank, lemma_trim_idempotent,
    lemma_trimmed_ends, lemma_trimmed_lacks, owned, push_char, push_str, trim, trimmed,
};

verus! {

/// `s` with markup tags removed: a `<` opens a tag, the next `>` closes it,
/// and everything from the `<` to that `>` is dropped. `in_tag` says whether
/// a tag is open where `s` starts. A `>` outside a tag is kept.
pub open spec fn strip_tags(s: Seq<char>, in_tag: bool) -> Seq<char>
    decreases s.len(),
{
    if s.len() == 0 {
        Seq::empty()
    } else {
        let c = s[0];
        let rest = s.drop_first();
        if c == '<' {
            strip_tags(rest, true)
        } else if c == '>' && in_tag {
            strip_tags(rest, false)
        } else if !in_tag {
            seq![c] + strip_tags(rest, false)
        } else {
            strip_tags(rest, true)
        }
    }
}

/// The text to speak: trimmed, and where it holds both a `<` and a `>`, with
/// its tags (SSML markup) removed and trimmed again.
pub open spec fn sanitized(input: Seq<char>) -> Seq<char> {
    let t = trimmed(input);
    if !t.contains('<') || !t.contains('>') {
        t
    } else {
        trimmed(strip_tags(t, false))
    }
}

proof fn lemma_strip_step(s: Seq<char>, i: int, in_tag: bool)
    requires
        0 <= i < s.len(),
    ensures
        strip_tags(s.skip(i), in_tag) == (if s[i] == '<' {
            strip_tags(s.skip(i + 1), true)
        } else if s[i] == '>' && in_tag {
            strip_tags(s.skip(i + 1), false)
        } else if !in_tag {
            seq![s[i]] + strip_tags(s.skip(i + 1), false)
        } else {
            strip_tags(s.skip(i + 1), true)
        }),
{
    assert(s.skip(i).drop_first() =~= s.skip(i + 1));
}

/// Removing tags leaves no `<` behind.
pub proof fn lemma_strip_tags_no_open(s: Seq<char>, in_tag: bool)
    ensures
        !strip_tags(s, in_tag).contains('<'),
    decreases s.len(),
{
    if s.len() > 0 {
        let rest = s.drop_first();
        lemma_strip_tags_no_open(rest, true);
        lemma_strip_tags_no_open(rest, false);
        if s[0] != '<' && !in_tag && !(s[0] == '>' && in_tag) {
            let out = seq![s[0]] + strip_tags(rest, false);
            if out.contains('<') {
                let k = choose|k: int| 0 <= k < out.len() && out[k] == '<';
                if k > 0 {
                    assert(strip_tags(rest, false)[k - 1] == '<');
                }
            }
        }
    }
}

/// Cleaning text that was already cleaned changes nothing.
pub proof fn lemma_sanitize_idempotent(input: Seq<char>)
    ensures
        sanitized(sanitized(input)) == sanitized(input),
{
    let t = trimmed(input);
    lemma_trim_idempotent(input);
    if t.contains('<') && t.contains('>') {
        let r = trimmed(strip_tags(t, false));
        lemma_strip_tags_no_open(t, false);
        lemma_trimmed_lacks(strip_tags(t, false), '<');
        lemma_trim_idempotent(strip_tags(t, false));
        assert(!r.contains('<'));
    }
}

/// The text to speak (see [`sanitized`]).
pub fn sanitize_spd_text(input: &str) -> (r: String)
    ensures
        r@ == sanitized(input@),
{
    let t = trim(input);
    if !has_char(t.as_str(), '<') || !has_char(t.as_str(), '>') {
        return t;
    }
    let v = chars_of(t.as_str());
    let n = v.len();
    let mut out = String::new();
    let mut in_tag = false;
    let mut i: usize = 0;
    assert(v@.skip(0) =~= v@);
    while i < n
        invariant
            n == v@.len(),
            i <= n,
            out@ + strip_tags(v@.skip(i as int), in_tag) == strip_tags(v@, false),
        decreases n - i,
    {
        let ch = v[i];
        proof {
            lemma_strip_step(v@, i as int, in_tag);
        }
        if ch == '<' {
            in_tag = true;
        } else if ch == '>' && in_tag {
            in_tag = false;
        } else if !in_tag {
            let ghost before = out@;
            push_char(&mut out, ch);
            assert(before + (seq![ch] + strip_tags(v@.skip(i + 1), false)) =~= out@ + strip_tags(
                v@.skip(i + 1),
                false,
            ));
        }
        i += 1;
    }
    assert(strip_tags(v@.skip(n as int), in_tag) =~= Seq::<char>::empty());
    assert(out@ =~= strip_tags(v@, false));
    trim(out.as_str())
}

/// The text the bridge speaks: the cleaned text, or nothing where it is
/// blank (then nothing is synthesized).
pub fn spd_text_to_speak(input: &str) -> (r: Option<String>)
    ensures
        is_blank(sanitized(input@)) ==> r is None,
        !is_blank(sanitized(input@)) ==> (r matches Some(t) && t@ == sanitized(input@)),
{
    let text = sanitize_spd_text(input);
    if blank(text.as_str()) {
        None
    } else {
        Some(text)
    }
}

/// The language to use: the given one, trimmed, unless it is missing, blank,
/// or the `C`/`POSIX` locale (in any case), where it is `default`.
pub open spec fn normalized_language(input: Option<Seq<char>>, default: Seq<char>) -> Seq<char> {
    match input {
        Some(s) => {
            let raw = trimmed(s);
            if raw.len() == 0 || eq_ignore_case(raw, "c"@) || eq_ignore_case(raw, "posix"@) {
                default
            } else {
                raw
            }
        },
        None => default,
    }
}

pub fn normalize_spd_language(input: Option<&str>, default: &str) -> (r: String)
    ensures
        r@ == normalized_language(opt_text(input), default@),
        input matches Some(x) ==> (trimmed(x@).len() != 0 && trimmed(x@).len() != 1
            && trimmed(x@).len() != 5 ==> r@ == trimmed(x@)),
{
    proof {
        if let Some(x) = input {
            lemma_language_kept_unless_locale(x@, default@);
        }
    }
    match input {
        Some(s) => {
            let raw = trim(s);
            if raw.as_str().is_empty() || equals_ignore_case(raw.as_str(), "c") || equals_ignore_case(
                raw.as_str(),
                "posix",
            ) {
                owned(default)
            } else {
                raw
            }
        },
        None => owned(default),
    }
}

/// Only the locale names stand for the default language: a language that,
/// trimmed, is non-empty and is neither `c` nor `posix` in any ASCII case is
/// kept as given, trimmed (so is any trimmed language of a length other than
/// 0, 1 and 5, such as a two-letter code); a missing, blank, `C` or `POSIX`
/// one is the default.
pub proof fn lemma_language_kept_unless_locale(s: Seq<char>, default: Seq<char>)
    ensures
        trimmed(s).len() > 0 && !eq_ignore_case(trimmed(s), "c"@) && !eq_ignore_case(
            trimmed(s),
            "posix"@,
        ) ==> normalized_language(Some(s), default) == trimmed(s),
        trimmed(s).len() != 0 && trimmed(s).len() != 1 && trimmed(s).len() != 5
            ==> normalized_language(Some(s), default) == trimmed(s),
        trimmed(s).len() == 0 ==> normalized_language(Some(s), default) == default,
        (trimmed(s) == "c"@ || trimmed(s) == "C"@ || trimmed(s) == "posix"@ || trimmed(s)
            == "POSIX"@) ==> normalized_language(Some(s), default) == default,
        normalized_language(None, default) == default,
{
    reveal_strlit("c");
    reveal_strlit("C");
    reveal_strlit("posix");
    reveal_strlit("POSIX");
    let raw = trimmed(s);
    assert(ascii_lower(raw).len() == raw.len());
    assert(ascii_lower("c"@).len() == 1);
    assert(ascii_lower("posix"@).len() == 5);
    if raw == "C"@ {
        assert(ascii_lower(raw) =~= ascii_lower("c"@));
    }
    if raw == "c"@ {
        assert(ascii_lower(raw) =~= ascii_lower("c"@));
    }
    if raw == "POSIX"@ {
        assert(ascii_lower(raw) =~= ascii_lower("posix"@));
    }
    if raw == "posix"@ {
        assert(ascii_lower(raw) =~= ascii_lower("posix"@));
    }
}

pub open spec fn is_digit(c: char) -> bool {
    48 <= (c as u32) && (c as u32) <= 57
}

/// The number that a run of ASCII digits spells in base ten.
pub open spec fn digits_value(s: Seq<char>) -> int
    decreases s.len(),
{
    if s.len() == 0 {
        0
    } else {
        digits_value(s.drop_last()) * 10 + ((s.last() as u32) - 48)
    }
}

pub open spec fn all_digits(s: Seq<char>) -> bool {
    forall|i: int| 0 <= i < s.len() ==> is_digit(#[trigger] s[i])
}

/// The integer that `s` writes as an optional `+` or `-` followed by one or
/// more ASCII digits, if it does.
pub open spec fn integer_text(s: Seq<char>) -> Option<int> {
    if s.len() > 0 && (s[0] == '+' || s[0] == '-') {
        let d = s.drop_first();
        if d.len() > 0 && all_digits(d) {
            Some(
                if s[0] == '-' {
                    -digits_value(d)
                } else {
                    digits_value(d)
                },
            )
        } else {
            None
        }
    } else if s.len() > 0 && all_digits(s) {
        Some(digits_value(s))
    } else {
        None
    }
}

/// What `str::parse::<i32>` reads from `s`: the integer it writes, where that
/// fits in an `i32`.
pub open spec fn parse_i32(s: Seq<char>) -> Option<int> {
    match integer_text(s) {
        Some(v) => if i32::MIN <= v <= i32::MAX {
            Some(v)
        } else {
            None
        },
        None => None,
    }
}

pub open spec fn clamp_level(v: int) -> int {
    if v < -100 {
        -100
    } else if v > 100 {
        100
    } else {
        v
    }
}

/// A rate or pitch value as Speech Dispatcher passes it.
#[derive(Debug, Clone)]
pub enum SpdScalar {
    /// No value was given, or only whitespace.
    Absent,
    /// An integer, limited to `-100..=100`.
    Value(i32),
    /// Not an integer; the trimmed text, to be read as a decimal number.
    NotInteger(String),
}

proof fn lemma_digits_value_bound(s: Seq<char>)
    requires
        all_digits(s),
    ensures
        0 <= digits_value(s),
    decreases s.len(),
{
    if s.len() > 0 {
        assert(is_digit(s[s.len() - 1]));
        lemma_digits_value_bound(s.drop_last());
    }
}

proof fn lemma_digits_value_prefix(s: Seq<char>, i: int)
    requires
        all_digits(s),
        0 <= i <= s.len(),
    ensures
        digits_value(s.take(i)) <= digits_value(s),
    decreases s.len() - i,
{
    if i < s.len() {
        lemma_digits_value_prefix(s, i + 1);
        assert(s.take(i + 1).drop_last() =~= s.take(i));
        assert(is_digit(s[i]));
        lemma_digits_value_bound(s.take(i));
    } else {
        assert(s.take(i) =~= s);
    }
}

/// The value of the digits of `v[start..]`, or `None` where they do not
/// spell a number below 2^31 + 1 (or are empty, or hold another character).
fn digits_at(v: &Vec<char>, start: usize) -> (r: Option<i64>)
    requires
        start <= v@.len(),
    ensures
        r matches Some(x) ==> v@.len() > start && all_digits(v@.skip(start as int)) && x
            == digits_value(v@.skip(start as int)) && 0 <= x <= 2147483648,
        r is None ==> v@.len() == start || !all_digits(v@.skip(start as int)) || digits_value(
            v@.skip(start as int),
        ) > 2147483648,
{
    let n = v.len();
    if n == start {
        return None;
    }
    let ghost d = v@.skip(start as int);
    let mut acc: i64 = 0;
    let mut i = start;
    while i < n
        invariant
            start <= i <= n,
            n == v@.len(),
            d == v@.skip(start as int),
            all_digits(d.take(i - start)),
            acc == digits_value(d.take(i - start)),
            0 <= acc <= 2147483648,
        decreases n - i,
    {
        let c = v[i];
        let code = c as u32;
        if code < 48 || code > 57 {
            assert(d[i - start] == c);
            assert(!is_digit(d[i - start]));
            return None;
        }
        let digit = ((c as u32) - 48) as i64;
        assert(d.take(i - start + 1).drop_last() =~= d.take(i - start));
        assert(d.take(i - start + 1).last() == c);
        assert(all_digits(d.take(i - start + 1))) by {
            assert forall|k: int| 0 <= k < d.take(i - start + 1).len() implies is_digit(
                #[trigger] d.take(i - start + 1)[k],
            ) by {
                if k < i - start {
                    assert(d.take(i - start + 1)[k] == d.take(i - start)[k]);
                }
            }
        }
        let next = acc * 10 + digit;
        assert(next == digits_value(d.take(i - start + 1)));
        if next > 2147483648 {
            proof {
                if all_digits(d) {
                    lemma_digits_value_prefix(d, i - start + 1);
                }
            }
            return None;
        }
        acc = next;
        i += 1;
    }
    assert(d.take(n - start) =~= d);
    Some(acc)
}

/// `s` read as an `i32` (what `str::parse::<i32>` does).
pub fn parse_i32_text(s: &str) -> (r: Option<i32>)
    ensures
        r matches Some(x) ==> parse_i32(s@) == Some(x as int),
        r is None ==> parse_i32(s@) is None,
{
    let v = chars_of(s);
    let n = v.len();
    if n == 0 {
        return None;
    }
    let first = v[0];
    if first == '+' || first == '-' {
        assert(v@.skip(1) =~= s@.drop_first());
        match digits_at(&v, 1) {
            Some(x) => {
                if first == '-' {
                    Some((-x) as i32)
                } else if x <= 2147483647 {
                    Some(x as i32)
                } else {
                    None
                }
            },
            None => None,
        }
    } else {
        assert(v@.skip(0) =~= s@);
        match digits_at(&v, 0) {
            Some(x) => {
                if x <= 2147483647 {
                    Some(x as i32)
                } else {
                    None
                }
            },
            None => None,
        }
    }
}

/// Reads a rate or pitch value: absent where missing or blank, an integer
/// limited to `-100..=100` where it is one, and otherwise the trimmed text.
pub fn parse_spd_scalar(raw: Option<&str>) -> (r: SpdScalar)
    ensures
        (match opt_text(raw) {
            None => true,
            Some(s) => is_blank(s),
        }) <==> r is Absent,
        r matches SpdScalar::Value(x) ==> (raw matches Some(s) && parse_i32(trimmed(s@)) matches Some(
            v,
        ) && x == clamp_level(v)),
        r matches SpdScalar::Value(x) ==> -100 <= x <= 100,
        r matches SpdScalar::NotInteger(t) ==> (raw matches Some(s) && !is_blank(s@) && parse_i32(
            trimmed(s@),
        ) is None && t@ == trimmed(s@)),
{
    match raw {
        None => SpdScalar::Absent,
        Some(s) => {
            let t = trim(s);
            if t.as_str().is_empty() {
                return SpdScalar::Absent;
            }
            match parse_i32_text(t.as_str()) {
                Some(x) => {
                    let c = if x < -100 {
                        -100
                    } else if x > 100 {
                        100
                    } else {
                        x
                    };
                    SpdScalar::Value(c)
                },
                None => SpdScalar::NotInteger(t),
            }
        },
    }
}

/// No playback command was given or found.
#[derive(Debug, Clone)]
pub enum PlaybackError {
    NotFound,
    Unparsable { command_line: String },
    Empty,
}

impl PlaybackError {
    pub open spec fn spec_message(&self) -> Seq<char> {
        match self {
            PlaybackError::NotFound =>
                "no playback command found (set speech_dispatcher.playback_command or pass --playback-command)"@,
            PlaybackError::Unparsable { command_line } => "failed to parse playback command: "@
                + command_line@,
            PlaybackError::Empty => "playback command is empty"@,
        }
    }

    pub fn message(&self) -> (m: String)
        ensures
            m@ == self.spec_message(),
    {
        match self {
            PlaybackError::NotFound => owned(
                "no playback command found (set speech_dispatcher.playback_command or pass --playback-command)",
            ),
            PlaybackError::Unparsable { command_line } => {
                let mut m = owned("failed to parse playback command: ");
                push_str(&mut m, command_line.as_str());
                m
            },
            PlaybackError::Empty => owned("playback command is empty"),
        }
    }
}

/// The playback command: the one given on the command line, else the
/// configured one (each trimmed, and only where not blank), else the one
/// found on the system.
pub open spec fn chosen_playback(
    cli: Option<Seq<char>>,
    config: Option<Seq<char>>,
    detected: Option<Seq<char>>,
) -> Option<Seq<char>> {
    if cli is Some && !is_blank(cli->0) {
        Some(trimmed(cli->0))
    } else if config is Some && !is_blank(config->0) {
        Some(trimmed(config->0))
    } else {
        detected
    }
}

pub fn resolve_playback_command(
    cli: Option<&str>,
    config: Option<&str>,
    detected: Option<String>,
) -> (r: Result<String, PlaybackError>)
    ensures
        chosen_playback(
            opt_text(cli),
            opt_text(config),
            match detected {
                Some(d) => Some(d@),
                None => None,
            },
        ) matches Some(c) ==> (r matches Ok(s) && s@ == c),
        chosen_playback(
            opt_text(cli),
            opt_text(config),
            match detected {
                Some(d) => Some(d@),
                None => None,
            },
        ) is None ==> (r matches Err(e) && e is NotFound),
{
    match cli {
        Some(c) => {
            let t = trim(c);
            if !t.as_str().is_empty() {
                return Ok(t);
            }
        },
        None => {},
    }
    match config {
        Some(c) => {
            let t = trim(c);
            if !t.as_str().is_empty() {
                return Ok(t);
            }
        },
        None => {},
    }
    match detected {
        Some(d) => Ok(d),
        None => Err(PlaybackError::NotFound),
    }
}

/// The words that `shlex::split` makes of `line`, or `None` where the line
/// is not valid shell syntax (an unclosed quote, a trailing backslash).
pub uninterp spec fn shlex_words(line: Seq<char>) -> Option<Seq<Seq<char>>>;

/// Splits a command line into words with `shlex::split`. Trusted: it returns
/// `None` exactly where [`shlex_words`] is `None`, and otherwise the words that
/// [`shlex_words`] names, in order. Nothing further is stated of how quotes
/// and escapes are read.
#[verifier::external_body]
fn shlex_split(line: &str) -> (r: Option<Vec<String>>)
    ensures
        match r {
            Some(words) => shlex_words(line@) == Some(words@.map_values(|w: String| w@)),
            None => shlex_words(line@) is None,
        },
{
    shlex::split(line)
}

/// What a playback command line comes to, given the words it was split
/// into (`None` where it could not be split): refused as unparsable or
/// empty, or the program and its arguments.
pub open spec fn argv_outcome_ok(
    command_line: Seq<char>,
    words: Option<Seq<Seq<char>>>,
    r: Result<Vec<String>, PlaybackError>,
) -> bool {
    match words {
        None => r matches Err(e) && e matches PlaybackError::Unparsable { command_line: c } && c@
            == command_line,
        Some(w) => if w.len() == 0 {
            r matches Err(e) && e is Empty
        } else {
            r matches Ok(argv) && argv@.map_values(|x: String| x@) == w
        },
    }
}

/// The program and arguments of a playback command line from the words it
/// was split into (see [`argv_outcome_ok`]).
pub fn playback_words(command_line: &str, words: Option<Vec<String>>) -> (r: Result<
    Vec<String>,
    PlaybackError,
>)
    ensures
        argv_outcome_ok(
            command_line@,
            match words {
                Some(w) => Some(w@.map_values(|x: String| x@)),
                None => None,
            },
            r,
        ),
{
    match words {
        None => Err(PlaybackError::Unparsable { command_line: owned(command_line) }),
        Some(words) => {
            if words.len() == 0 {
                Err(PlaybackError::Empty)
            } else {
                Ok(words)
            }
        },
    }
}

/// The program and arguments of a playback command line (the path of the
/// audio file still to be appended), split as a POSIX shell would.
pub fn playback_argv(command_line: &str) -> (r: Result<Vec<String>, PlaybackError>)
    ensures
        argv_outcome_ok(command_line@, shlex_words(command_line@), r),
{
    let words = shlex_split(command_line);
    playback_words(command_line, words)
}

} // verus!
