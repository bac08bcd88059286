use vstd::prelude::*;
use vstd::string::*;

use crate::env::{entry_texts, EnvEntry};
use crate::model::ConfigError;
use crate::text::{chars_of, is_blank, is_white_space, push_char, same_text, white_space};

verus! {

// ---------------------------------------------------------------------------
// `${NAME}` references
// ---------------------------------------------------------------------------

/// The position of the first `${` in `s`.
pub open spec fn first_open(s: Seq<char>) -> Option<int>
    decreases s.len(),
{
    if s.len() < 2 {
        None
    } else if s[0] == '$' && s[1] == '{' {
        Some(0)
    } else {
        match first_open(s.drop_first()) {
            Some(i) => Some(i + 1),
            None => None,
        }
    }
}

/// The position of the first `}` in `s`.
pub open spec fn first_close(s: Seq<char>) -> Option<int>
    decreases s.len(),
{
    if s.len() == 0 {
        None
    } else if s[0] == '}' {
        Some(0)
    } else {
        match first_close(s.drop_first()) {
            Some(i) => Some(i + 1),
            None => None,
        }
    }
}

pub proof fn lemma_first_open_bounds(s: Seq<char>)
    ensures
        first_open(s) matches Some(i) ==> 0 <= i && i + 2 <= s.len() && s[i] == '$' && s[i + 1] == '{',
    decreases s.len(),
{
    if s.len() >= 2 && !(s[0] == '$' && s[1] == '{') {
        lemma_first_open_bounds(s.drop_first());
    }
}

pub proof fn lemma_first_close_bounds(s: Seq<char>)
    ensures
        first_close(s) matches Some(i) ==> 0 <= i < s.len() && s[i] == '}',
    decreases s.len(),
{
    if s.len() > 0 && s[0] != '}' {
        lemma_first_close_bounds(s.drop_first());
    }
}

/// A character allowed in a variable name: ASCII letter, digit or `_`.
pub open spec fn is_name_char(c: char) -> bool {
    ||| 'a' <= c <= 'z'
    ||| 'A' <= c <= 'Z'
    ||| '0' <= c <= '9'
    ||| c == '_'
}

/// A well-formed variable name: not empty, name characters only.
pub open spec fn is_var_name(s: Seq<char>) -> bool {
    s.len() > 0 && forall|i: int| 0 <= i < s.len() ==> is_name_char(#[trigger] s[i])
}

/// The value the environment gives `name` (its first binding), if any.
pub open spec fn lookup(env: Seq<EnvEntry>, name: Seq<char>) -> Option<Seq<char>>
    decreases env.len(),
{
    if env.len() == 0 {
        None
    } else if env[0].0 == name {
        Some(env[0].1)
    } else {
        lookup(env.drop_first(), name)
    }
}

/// The refusal for a `${` without a closing `}`.
pub open spec fn unterminated_refusal() -> Seq<char> {
    "unterminated ${...} reference"@
}

/// The refusal for a reference whose name is empty or has other characters.
pub open spec fn bad_name_refusal(name: Seq<char>) -> Seq<char> {
    "bad environment reference `${"@ + name + "}` (alphanumerics and _ only)"@
}

/// The refusal for a reference to a variable the environment lacks.
pub open spec fn unset_refusal(name: Seq<char>) -> Seq<char> {
    "manifest references unset variable `"@ + name + "` (secrets must resolve)"@
}

/// `text` with every `${NAME}` replaced by the value of `NAME` in `env`,
/// scanning left to right; the first malformed or unset reference refuses
/// the whole text.
pub open spec fn substituted(text: Seq<char>, env: Seq<EnvEntry>) -> Result<Seq<char>, Seq<char>>
    decreases text.len(),
{
    match first_open(text) {
        None => Ok(text),
        Some(start) => {
            proof {
                lemma_first_open_bounds(text);
            }
            let after = text.skip(start + 2);
            match first_close(after) {
                None => Err(unterminated_refusal()),
                Some(end) => {
                    proof {
                        lemma_first_close_bounds(after);
                    }
                    let name = after.take(end);
                    if !is_var_name(name) {
                        Err(bad_name_refusal(name))
                    } else {
                        match lookup(env, name) {
                            None => Err(unset_refusal(name)),
                            Some(value) => match substituted(after.skip(end + 1), env) {
                                Ok(rest) => Ok(text.take(start) + value + rest),
                                Err(e) => Err(e),
                            },
                        }
                    }
                },
            }
        },
    }
}

/// `out` in front of a successful result; a refusal unchanged.
pub open spec fn after_text(out: Seq<char>, r: Result<Seq<char>, Seq<char>>) -> Result<Seq<char>, Seq<char>> {
    match r {
        Ok(x) => Ok(out + x),
        Err(e) => Err(e),
    }
}

/// A text without `${` substitutes to itself, whatever the environment.
pub proof fn lemma_plain_text_is_unchanged(text: Seq<char>, env: Seq<EnvEntry>)
    requires
        forall|i: int| 0 <= i && i + 1 < text.len() ==> !(#[trigger] text[i] == '$' && text[i + 1] == '{'),
    ensures
        substituted(text, env) == Ok::<Seq<char>, Seq<char>>(text),
{
    lemma_no_open(text);
}

proof fn lemma_no_open(s: Seq<char>)
    requires
        forall|i: int| 0 <= i && i + 1 < s.len() ==> !(#[trigger] s[i] == '$' && s[i + 1] == '{'),
    ensures
        first_open(s) is None,
    decreases s.len(),
{
    if s.len() >= 2 {
        let t = s.drop_first();
        assert forall|i: int| 0 <= i && i + 1 < t.len() implies !(#[trigger] t[i] == '$' && t[i + 1] == '{') by {
            assert(s[i + 1] == t[i]);
            assert(t[i] == s[i + 1] && t[i + 1] == s[i + 2]);
        }
        assert(s[0] == s[0]);
        lemma_no_open(t);
    }
}

proof fn lemma_first_open_after(prefix: Seq<char>, t: Seq<char>)
    requires
        forall|i: int| 0 <= i && i + 1 < prefix.len() ==> !(#[trigger] prefix[i] == '$' && prefix[i + 1] == '{'),
        prefix.len() > 0 && t.len() > 0 ==> !(prefix.last() == '$' && t[0] == '{'),
    ensures
        first_open(prefix + t) == shifted(first_open(t), prefix.len() as int),
    decreases prefix.len(),
{
    if prefix.len() == 0 {
        assert(prefix + t =~= t);
        match first_open(t) {
            Some(i) => {},
            None => {},
        }
    } else {
        let s = prefix + t;
        let p2 = prefix.drop_first();
        assert(s.drop_first() =~= p2 + t);
        assert forall|i: int| 0 <= i && i + 1 < p2.len() implies !(#[trigger] p2[i] == '$' && p2[i + 1] == '{') by {
            assert(prefix[i + 1] == p2[i]);
        }
        if p2.len() > 0 && t.len() > 0 {
            assert(p2.last() == prefix.last());
        }
        lemma_first_open_after(p2, t);
        if prefix.len() > 1 {
            assert(prefix[0] == prefix[0]);
        }
    }
}

proof fn lemma_first_close_after(a: Seq<char>, r: Seq<char>)
    requires
        forall|i: int| 0 <= i < a.len() ==> #[trigger] a[i] != '}',
    ensures
        first_close(a + seq!['}'] + r) == Some(a.len() as int),
    decreases a.len(),
{
    let s = a + seq!['}'] + r;
    if a.len() == 0 {
        assert(s[0] == '}');
    } else {
        let a2 = a.drop_first();
        assert(s.drop_first() =~= a2 + seq!['}'] + r);
        assert(a[0] != '}');
        lemma_first_close_after(a2, r);
    }
}

/// A `${NAME}` reference reached after plain text becomes the value the
/// environment gives `NAME`, and substitution goes on after it; when the
/// environment lacks `NAME`, the text is refused with the unset-variable
/// refusal (secrets must resolve, never silently empty).
pub proof fn lemma_reference_resolves(prefix: Seq<char>, name: Seq<char>, rest: Seq<char>, env: Seq<EnvEntry>)
    requires
        forall|i: int| 0 <= i && i + 1 < prefix.len() ==> !(#[trigger] prefix[i] == '$' && prefix[i + 1] == '{'),
        is_var_name(name),
    ensures
        substituted(prefix + seq!['$', '{'] + name + seq!['}'] + rest, env) == match lookup(env, name) {
            None => Err(unset_refusal(name)),
            Some(value) => after_text(prefix + value, substituted(rest, env)),
        },
{
    let t = seq!['$', '{'] + name + seq!['}'] + rest;
    let text = prefix + seq!['$', '{'] + name + seq!['}'] + rest;
    assert(text =~= prefix + t);
    lemma_first_open_after(prefix, t);
    assert(first_open(t) == Some(0int));
    let after = text.skip(prefix.len() as int + 2);
    assert(after =~= name + seq!['}'] + rest);
    assert forall|i: int| 0 <= i < name.len() implies #[trigger] name[i] != '}' by {
        assert(is_name_char(name[i]));
    }
    lemma_first_close_after(name, rest);
    assert(after.take(name.len() as int) =~= name);
    assert(after.skip(name.len() as int + 1) =~= rest);
    assert(text.take(prefix.len() as int) =~= prefix);
    match lookup(env, name) {
        Some(value) => match substituted(rest, env) {
            Ok(x) => {
                assert(prefix + value + x =~= (prefix + value) + x);
            },
            Err(_) => {},
        },
        None => {},
    }
}

/// A reference whose name is one or more ASCII letters (lower or upper
/// case), digits and underscores is well formed: it becomes the value the
/// environment gives that name, and substitution goes on after it; with no
/// such variable the text is refused as unset.
pub proof fn lemma_alphanumeric_reference_resolves(
    prefix: Seq<char>,
    name: Seq<char>,
    rest: Seq<char>,
    env: Seq<EnvEntry>,
)
    requires
        forall|i: int| 0 <= i && i + 1 < prefix.len() ==> !(#[trigger] prefix[i] == '$' && prefix[i + 1] == '{'),
        name.len() > 0,
        forall|i: int|
            0 <= i < name.len() ==> {
                let c = #[trigger] name[i];
                ('a' <= c && c <= 'z') || ('A' <= c && c <= 'Z') || ('0' <= c && c <= '9') || c == '_'
            },
    ensures
        substituted(prefix + seq!['$', '{'] + name + seq!['}'] + rest, env) == match lookup(env, name) {
            None => Err(unset_refusal(name)),
            Some(value) => after_text(prefix + value, substituted(rest, env)),
        },
{
    assert(is_var_name(name));
    lemma_reference_resolves(prefix, name, rest, env);
}

/// A reference whose name is empty, or holds a character other than an
/// ASCII letter, digit or underscore, refuses the whole text, naming the
/// reference, whatever the environment holds.
pub proof fn lemma_malformed_reference_is_refused(
    prefix: Seq<char>,
    name: Seq<char>,
    rest: Seq<char>,
    env: Seq<EnvEntry>,
)
    requires
        forall|i: int| 0 <= i && i + 1 < prefix.len() ==> !(#[trigger] prefix[i] == '$' && prefix[i + 1] == '{'),
        forall|i: int| 0 <= i < name.len() ==> #[trigger] name[i] != '}',
        name.len() == 0 || exists|i: int|
            0 <= i < name.len() && {
                let c = #[trigger] name[i];
                !(('a' <= c && c <= 'z') || ('A' <= c && c <= 'Z') || ('0' <= c && c <= '9') || c == '_')
            },
    ensures
        substituted(prefix + seq!['$', '{'] + name + seq!['}'] + rest, env) == Err::<Seq<char>, Seq<char>>(
            bad_name_refusal(name),
        ),
{
    let t = seq!['$', '{'] + name + seq!['}'] + rest;
    let text = prefix + seq!['$', '{'] + name + seq!['}'] + rest;
    assert(text =~= prefix + t);
    lemma_first_open_after(prefix, t);
    assert(first_open(t) == Some(0int));
    let after = text.skip(prefix.len() as int + 2);
    assert(after =~= name + seq!['}'] + rest);
    lemma_first_close_after(name, rest);
    assert(after.take(name.len() as int) =~= name);
    assert(!is_var_name(name)) by {
        if name.len() > 0 {
            let i = choose|i: int|
                0 <= i < name.len() && {
                    let c = #[trigger] name[i];
                    !(('a' <= c && c <= 'z') || ('A' <= c && c <= 'Z') || ('0' <= c && c <= '9') || c == '_')
                };
            assert(!is_name_char(name[i]));
        }
    }
}

// ---------------------------------------------------------------------------
// Scanning
// ---------------------------------------------------------------------------

/// `o` moved right by `d`.
pub open spec fn shifted(o: Option<int>, d: int) -> Option<int> {
    match o {
        Some(i) => Some(i + d),
        None => None,
    }
}

fn find_open(cs: &Vec<char>, from: usize) -> (r: Option<usize>)
    requires
        from <= cs@.len(),
    ensures
        shifted(first_open(cs@.skip(from as int)), from as int) == match r {
            Some(i) => Some(i as int),
            None => None::<int>,
        },
{
    let mut i = from;
    while cs.len() > 0 && i < cs.len() - 1
        invariant
            from <= i <= cs@.len(),
            shifted(first_open(cs@.skip(from as int)), from as int) == shifted(
                first_open(cs@.skip(i as int)),
                i as int,
            ),
        decreases cs@.len() - i,
    {
        if cs[i] == '$' && cs[i + 1] == '{' {
            return Some(i);
        }
        assert(cs@.skip(i as int).drop_first() =~= cs@.skip(i + 1));
        i = i + 1;
    }
    None
}

fn find_close(cs: &Vec<char>, from: usize) -> (r: Option<usize>)
    requires
        from <= cs@.len(),
    ensures
        shifted(first_close(cs@.skip(from as int)), from as int) == match r {
            Some(i) => Some(i as int),
            None => None::<int>,
        },
{
    let mut i = from;
    while i < cs.len()
        invariant
            from <= i <= cs@.len(),
            shifted(first_close(cs@.skip(from as int)), from as int) == shifted(
                first_close(cs@.skip(i as int)),
                i as int,
            ),
        decreases cs@.len() - i,
    {
        if cs[i] == '}' {
            return Some(i);
        }
        assert(cs@.skip(i as int).drop_first() =~= cs@.skip(i + 1));
        i = i + 1;
    }
    None
}

fn append_range(out: &mut String, cs: &Vec<char>, a: usize, b: usize)
    requires
        a <= b <= cs@.len(),
    ensures
        final(out)@ == old(out)@ + cs@.subrange(a as int, b as int),
{
    let mut i = a;
    while i < b
        invariant
            a <= i <= b,
            b <= cs@.len(),
            out@ == old(out)@ + cs@.subrange(a as int, i as int),
        decreases b - i,
    {
        push_char(out, cs[i]);
        assert(cs@.subrange(a as int, i + 1) =~= cs@.subrange(a as int, i as int).push(cs@[i as int]));
        i = i + 1;
    }
}

fn name_char(c: char) -> (r: bool)
    ensures
        r == is_name_char(c),
{
    ('a' <= c && c <= 'z') || ('A' <= c && c <= 'Z') || ('0' <= c && c <= '9') || c == '_'
}

fn var_name(name: &Vec<char>) -> (r: bool)
    ensures
        r == is_var_name(name@),
{
    if name.len() == 0 {
        return false;
    }
    let mut i: usize = 0;
    while i < name.len()
        invariant
            i <= name@.len(),
            forall|j: int| 0 <= j < i ==> is_name_char(#[trigger] name@[j]),
        decreases name@.len() - i,
    {
        if !name_char(name[i]) {
            return false;
        }
        i = i + 1;
    }
    true
}

fn env_value<'a>(env: &'a Vec<(String, String)>, name: &str) -> (r: Option<&'a String>)
    ensures
        match r {
            Some(v) => lookup(entry_texts(env@), name@) == Some(v@),
            None => lookup(entry_texts(env@), name@) is None,
        },
{
    let ghost e = entry_texts(env@);
    let mut i: usize = 0;
    assert(e.skip(0) =~= e);
    while i < env.len()
        invariant
            i <= env@.len(),
            e == entry_texts(env@),
            lookup(e, name@) == lookup(e.skip(i as int), name@),
        decreases env@.len() - i,
    {
        assert(e.skip(i as int)[0] == e[i as int]);
        if same_text(env[i].0.as_str(), name) {
            return Some(&env[i].1);
        }
        assert(e.skip(i as int).drop_first() =~= e.skip(i + 1));
        i = i + 1;
    }
    None
}

/// Replace each `${NAME}` in the text by the value `env` gives `NAME`.
/// A `${` without `}`, a name that is empty or holds other than ASCII
/// letters, digits and `_`, and a name `env` does not bind are refused
/// (secrets must resolve, never silently empty).
pub fn substitute_env(text: &str, env: &Vec<(String, String)>) -> (r: Result<String, ConfigError>)
    ensures
        match substituted(text@, entry_texts(env@)) {
            Ok(s) => r matches Ok(out) && out@ == s,
            Err(msg) => r matches Err(e) && e.0@ == msg,
        },
{
    let ghost e = entry_texts(env@);
    let cs = chars_of(text);
    let mut out = String::new();
    let mut pos: usize = 0;
    proof {
        assert(cs@.skip(0) =~= cs@);
        assert(out@ + Seq::<char>::empty() =~= Seq::<char>::empty());
    }
    loop
        invariant
            pos <= cs@.len(),
            cs@ == text@,
            e == entry_texts(env@),
            substituted(cs@, e) == after_text(out@, substituted(cs@.skip(pos as int), e)),
        decreases cs@.len() - pos,
    {
        let ghost s = cs@.skip(pos as int);
        let ghost before = out@;
        match find_open(&cs, pos) {
            None => {
                append_range(&mut out, &cs, pos, cs.len());
                proof {
                    assert(cs@.subrange(pos as int, cs@.len() as int) =~= s);
                }
                return Ok(out);
            },
            Some(start) => {
                proof {
                    lemma_first_open_bounds(s);
                    assert(first_open(s) == Some(start - pos));
                }
                append_range(&mut out, &cs, pos, start);
                let after = start + 2;
                let ghost a = s.skip(start - pos + 2);
                assert(a =~= cs@.skip(after as int));
                match find_close(&cs, after) {
                    None => {
                        return Err(ConfigError(String::from_str("unterminated ${...} reference")));
                    },
                    Some(end) => {
                        proof {
                            lemma_first_close_bounds(a);
                        }
                        let mut name_chars: Vec<char> = Vec::new();
                        let mut name = String::new();
                        let mut k = after;
                        while k < end
                            invariant
                                after <= k <= end,
                                end < cs@.len(),
                                name_chars@ == cs@.subrange(after as int, k as int),
                                name@ == name_chars@,
                            decreases end - k,
                        {
                            name_chars.push(cs[k]);
                            push_char(&mut name, cs[k]);
                            assert(cs@.subrange(after as int, k + 1) =~= cs@.subrange(after as int, k as int).push(
                                cs@[k as int],
                            ));
                            k = k + 1;
                        }
                        assert(a.take(end - after) =~= name@);
                        if !var_name(&name_chars) {
                            let mut msg = String::from_str("bad environment reference `${");
                            msg.append(name.as_str());
                            msg.append("}` (alphanumerics and _ only)");
                            return Err(ConfigError(msg));
                        }
                        match env_value(env, name.as_str()) {
                            None => {
                                let mut msg = String::from_str("manifest references unset variable `");
                                msg.append(name.as_str());
                                msg.append("` (secrets must resolve)");
                                return Err(ConfigError(msg));
                            },
                            Some(value) => {
                                out.append(value.as_str());
                                proof {
                                    assert(a.skip(end - after + 1) =~= cs@.skip(end + 1));
                                    assert(s.take(start - pos) =~= cs@.subrange(pos as int, start as int));
                                    let rest = substituted(cs@.skip(end + 1), e);
                                    match rest {
                                        Ok(x) => {
                                            assert(out@ + x =~= before + (s.take(start - pos) + value@ + x));
                                        },
                                        Err(_) => {},
                                    }
                                }
                                assert(end < cs.len());
                                pos = end + 1;
                            },
                        }
                    },
                }
            },
        }
    }
}

/// The text reads as JSON: its first non-whitespace character is `{`.
pub open spec fn reads_as_json_text(s: Seq<char>) -> bool {
    exists|i: int| 0 <= i < s.len() && s[i] == '{' && #[trigger] is_blank(s.take(i))
}

/// Whether a manifest text is JSON by shape (a leading `{`, after
/// whitespace) rather than YAML.
pub fn reads_as_json(text: &str) -> (r: bool)
    ensures
        r == reads_as_json_text(text@),
{
    let cs = chars_of(text);
    let mut i: usize = 0;
    while i < cs.len() && white_space(cs[i])
        invariant
            i <= cs@.len(),
            cs@ == text@,
            is_blank(cs@.take(i as int)),
        decreases cs@.len() - i,
    {
        assert(cs@.take(i + 1) =~= cs@.take(i as int).push(cs@[i as int]));
        i = i + 1;
    }
    if i < cs.len() && cs[i] == '{' {
        assert(is_blank(cs@.take(i as int)));
        true
    } else {
        proof {
            assert forall|j: int| 0 <= j < cs@.len() && cs@[j] == '{' implies !#[trigger] is_blank(cs@.take(j)) by {
                if j < i {
                    assert(cs@.take(i as int)[j] == '{');
                } else if j == i {
                } else {
                    assert(cs@.take(j)[i as int] == cs@[i as int]);
                }
            }
        }
        false
    }
}

/// A text is read as JSON exactly when, after leading whitespace, it
/// starts with `{`: a text starting with `{` is JSON, and one whose first
/// character is neither whitespace nor `{` is not.
pub proof fn lemma_json_by_leading_brace(s: Seq<char>)
    ensures
        s.len() > 0 && s[0] == '{' ==> reads_as_json_text(s),
        s.len() > 0 && s[0] != '{' && !is_white_space(s[0]) ==> !reads_as_json_text(s),
        s.len() == 0 ==> !reads_as_json_text(s),
{
    if s.len() > 0 && s[0] == '{' {
        assert(s.take(0) =~= Seq::<char>::empty());
        assert(is_blank(s.take(0)));
    }
    if s.len() > 0 && s[0] != '{' && !is_white_space(s[0]) {
        if reads_as_json_text(s) {
            let i = choose|i: int| 0 <= i < s.len() && s[i] == '{' && #[trigger] is_blank(s.take(i));
            assert(s.take(i)[0] == s[0]);
        }
    }
}

} // verus!
