use vstd::prelude::*;
use vstd::string::*;

use crate::text::{lemma_text_lt_irreflexive, lemma_text_lt_total, lemma_text_lt_transitive, same_text, text_less, text_lt};

verus! {

/// One environment entry: a variable name and its value.
pub type EnvEntry = (Seq<char>, Seq<char>);

/// The entries are ordered strictly by name (hence no name twice).
pub open spec fn names_ascending(p: Seq<EnvEntry>) -> bool {
    forall|i: int, j: int| 0 <= i < j < p.len() ==> text_lt(#[trigger] p[i].0, #[trigger] p[j].0)
}

/// `p` lists the map `m`: ordered by name, each entry is a binding of `m`,
/// and each binding of `m` is an entry.
pub open spec fn lists(p: Seq<EnvEntry>, m: Map<Seq<char>, Seq<char>>) -> bool {
    &&& names_ascending(p)
    &&& forall|i: int|
        0 <= i < p.len() ==> m.contains_key(#[trigger] p[i].0) && m[p[i].0] == p[i].1
    &&& forall|k: Seq<char>|
        m.contains_key(k) ==> exists|i: int| 0 <= i < p.len() && (#[trigger] p[i]).0 == k
}

/// The name-ordered listing of an environment map.
pub open spec fn listing(m: Map<Seq<char>, Seq<char>>) -> Seq<EnvEntry> {
    choose|p: Seq<EnvEntry>| lists(p, m)
}

/// One rendered line: `KEY=value`.
pub open spec fn env_line(e: EnvEntry) -> Seq<char> {
    e.0 + seq!['='] + e.1
}

/// The lines of `p`, joined by newlines (no trailing newline).
pub open spec fn env_lines(p: Seq<EnvEntry>) -> Seq<char>
    decreases p.len(),
{
    if p.len() == 0 {
        Seq::empty()
    } else if p.len() == 1 {
        env_line(p[0])
    } else {
        env_lines(p.drop_last()) + seq!['\n'] + env_line(p.last())
    }
}

/// `line` is one whole line of `text`: what comes before it is empty or
/// ends in a newline, and what comes after it is empty or starts with one.
pub open spec fn has_line(text: Seq<char>, line: Seq<char>) -> bool {
    exists|a: Seq<char>, b: Seq<char>|
        #![trigger a + line + b]
        text == a + line + b && (a.len() == 0 || a.last() == '\n') && (b.len() == 0 || b[0] == '\n')
}

/// Each entry of `p` is one whole line of its rendering.
pub proof fn lemma_env_lines_has_each(p: Seq<EnvEntry>, i: int)
    requires
        0 <= i < p.len(),
    ensures
        has_line(env_lines(p), env_line(p[i])),
    decreases p.len(),
{
    let l = env_line(p[i]);
    let e = Seq::<char>::empty();
    if p.len() == 1 {
        assert(env_lines(p) == e + l + e);
    } else {
        let d = p.drop_last();
        let nl = seq!['\n'];
        if i == p.len() - 1 {
            let a = env_lines(d) + nl;
            assert(env_lines(p) == a + l + e);
            assert(a.last() == '\n');
        } else {
            lemma_env_lines_has_each(d, i);
            assert(d[i] == p[i]);
            let (a, b) = choose|a: Seq<char>, b: Seq<char>|
                #![trigger a + l + b]
                env_lines(d) == a + l + b && (a.len() == 0 || a.last() == '\n') && (b.len() == 0 || b[0]
                    == '\n');
            let b2 = b + nl + env_line(p.last());
            assert(env_lines(p) =~= a + l + b2);
            assert(b2.len() > 0);
            if b.len() == 0 {
                assert(b2[0] == '\n');
            } else {
                assert(b2[0] == b[0]);
            }
        }
    }
}

/// The environment block of a map: one `KEY=value` line per variable, in
/// name order.
pub open spec fn env_block(m: Map<Seq<char>, Seq<char>>) -> Seq<char> {
    env_lines(listing(m))
}

proof fn lemma_lt_distinct(a: Seq<char>, b: Seq<char>)
    requires
        text_lt(a, b),
    ensures
        a != b,
{
    lemma_text_lt_irreflexive(a);
}

/// A map has at most one name-ordered listing.
pub proof fn lemma_listing_unique(p: Seq<EnvEntry>, q: Seq<EnvEntry>, m: Map<Seq<char>, Seq<char>>)
    requires
        lists(p, m),
        lists(q, m),
    ensures
        p == q,
    decreases p.len(),
{
    if p.len() == 0 {
        if q.len() > 0 {
            assert(m.contains_key(q[0].0));
        }
        assert(p =~= q);
    } else {
        assert(m.contains_key(p[0].0));
        assert(q.len() > 0);
        let k1 = p[0].0;
        let k2 = q[0].0;
        assert(m.contains_key(k2));
        let i = choose|i: int| 0 <= i < p.len() && (#[trigger] p[i]).0 == k2;
        let j = choose|j: int| 0 <= j < q.len() && (#[trigger] q[j]).0 == k1;
        if k1 != k2 {
            assert(i != 0);
            assert(j != 0);
            assert(text_lt(p[0].0, p[i].0));
            assert(text_lt(q[0].0, q[j].0));
            lemma_text_lt_total(k1, k2);
            assert(false);
        }
        let m2 = m.remove(k1);
        let p2 = p.drop_first();
        let q2 = q.drop_first();
        assert forall|a: int| 0 <= a < p2.len() implies m2.contains_key(#[trigger] p2[a].0) && m2[p2[a].0]
            == p2[a].1 by {
            assert(p2[a] == p[a + 1]);
            assert(text_lt(p[0].0, p[a + 1].0));
            lemma_lt_distinct(p[0].0, p[a + 1].0);
        }
        assert forall|a: int| 0 <= a < q2.len() implies m2.contains_key(#[trigger] q2[a].0) && m2[q2[a].0]
            == q2[a].1 by {
            assert(q2[a] == q[a + 1]);
            assert(text_lt(q[0].0, q[a + 1].0));
            lemma_lt_distinct(q[0].0, q[a + 1].0);
        }
        assert forall|k: Seq<char>| m2.contains_key(k) implies exists|a: int|
            0 <= a < p2.len() && (#[trigger] p2[a]).0 == k by {
            let a = choose|a: int| 0 <= a < p.len() && (#[trigger] p[a]).0 == k;
            assert(a != 0);
            assert(p2[a - 1] == p[a]);
        }
        assert forall|k: Seq<char>| m2.contains_key(k) implies exists|a: int|
            0 <= a < q2.len() && (#[trigger] q2[a]).0 == k by {
            let a = choose|a: int| 0 <= a < q.len() && (#[trigger] q[a]).0 == k;
            assert(a != 0);
            assert(q2[a - 1] == q[a]);
        }
        assert forall|a: int, b: int| 0 <= a < b < p2.len() implies text_lt(
            #[trigger] p2[a].0,
            #[trigger] p2[b].0,
        ) by {
            assert(p2[a] == p[a + 1] && p2[b] == p[b + 1]);
        }
        assert forall|a: int, b: int| 0 <= a < b < q2.len() implies text_lt(
            #[trigger] q2[a].0,
            #[trigger] q2[b].0,
        ) by {
            assert(q2[a] == q[a + 1] && q2[b] == q[b + 1]);
        }
        lemma_listing_unique(p2, q2, m2);
        assert(p[0] == q[0]);
        assert(p =~= seq![p[0]] + p2);
        assert(q =~= seq![q[0]] + q2);
    }
}

/// A map listed by `p` has `p` as its name-ordered listing.
pub proof fn lemma_listing_is(p: Seq<EnvEntry>, m: Map<Seq<char>, Seq<char>>)
    requires
        lists(p, m),
    ensures
        listing(m) == p,
{
    let q = listing(m);
    assert(lists(q, m));
    lemma_listing_unique(p, q, m);
}

/// The text pairs of string entries.
pub open spec fn entry_texts(v: Seq<(String, String)>) -> Seq<EnvEntry> {
    v.map_values(|e: (String, String)| (e.0@, e.1@))
}

/// Environment variables kept in name order (each name once; a later value
/// for a name replaces the earlier one).
pub struct EnvVars {
    entries: Vec<(String, String)>,
    contents: Ghost<Map<Seq<char>, Seq<char>>>,
}

impl View for EnvVars {
    type V = Map<Seq<char>, Seq<char>>;

    closed spec fn view(&self) -> Map<Seq<char>, Seq<char>> {
        self.contents@
    }
}

impl EnvVars {
    /// The entries list the variables.
    pub closed spec fn wf(&self) -> bool {
        lists(entry_texts(self.entries@), self.contents@)
    }

    /// No variables.
    pub fn new() -> (r: EnvVars)
        ensures
            r.wf(),
            r@ == Map::<Seq<char>, Seq<char>>::empty(),
    {
        EnvVars { entries: Vec::new(), contents: Ghost(Map::empty()) }
    }

    /// Sets `key` to `value`.
    pub fn insert(&mut self, key: String, value: String)
        requires
            old(self).wf(),
        ensures
            final(self).wf(),
            final(self)@ == old(self)@.insert(key@, value@),
    {
        let ghost p = entry_texts(self.entries@);
        let ghost m = self.contents@;
        let n = self.entries.len();
        let mut i: usize = 0;
        while i < n && text_less(self.entries[i].0.as_str(), key.as_str())
            invariant
                n == self.entries@.len(),
                p == entry_texts(self.entries@),
                i <= n,
                forall|j: int| 0 <= j < i ==> text_lt(#[trigger] p[j].0, key@),
            decreases n - i,
        {
            i = i + 1;
        }
        let ghost k = key@;
        let ghost v = value@;
        let ghost m2 = m.insert(k, v);
        if i < n && same_text(self.entries[i].0.as_str(), key.as_str()) {
            self.entries.set(i, (key, value));
            proof {
                let p2 = entry_texts(self.entries@);
                assert(p2 =~= p.update(i as int, (k, v)));
                assert forall|j: int| 0 <= j < p2.len() && j != i implies p2[j].0 != k by {
                    if j < i {
                        assert(text_lt(p[j].0, p[i as int].0));
                    } else {
                        assert(text_lt(p[i as int].0, p[j].0));
                    }
                    lemma_text_lt_irreflexive(k);
                }
                assert forall|a: int, b: int| 0 <= a < b < p2.len() implies text_lt(
                    #[trigger] p2[a].0,
                    #[trigger] p2[b].0,
                ) by {
                    assert(text_lt(p[a].0, p[b].0));
                }
                assert forall|j: int| 0 <= j < p2.len() implies m2.contains_key(#[trigger] p2[j].0)
                    && m2[p2[j].0] == p2[j].1 by {
                    if j != i {
                        assert(p2[j] == p[j]);
                    }
                }
                assert forall|key2: Seq<char>| m2.contains_key(key2) implies exists|j: int|
                    0 <= j < p2.len() && (#[trigger] p2[j]).0 == key2 by {
                    if key2 == k {
                        assert(p2[i as int].0 == k);
                    } else {
                        let j = choose|j: int| 0 <= j < p.len() && (#[trigger] p[j]).0 == key2;
                        assert(j != i);
                        assert(p2[j] == p[j]);
                    }
                }
            }
        } else {
            proof {
                if i < n {
                    lemma_text_lt_total(p[i as int].0, k);
                    assert(text_lt(k, p[i as int].0));
                }
            }
            self.entries.insert(i, (key, value));
            proof {
                let p2 = entry_texts(self.entries@);
                assert(p2 =~= p.insert(i as int, (k, v)));
                assert forall|j: int| i <= j < p.len() implies text_lt(k, #[trigger] p[j].0) by {
                    if j > i {
                        assert(text_lt(p[i as int].0, p[j].0));
                        lemma_text_lt_transitive(k, p[i as int].0, p[j].0);
                    }
                }
                assert forall|j: int| 0 <= j < p.len() implies (#[trigger] p[j]).0 != k by {
                    if j < i {
                        assert(text_lt(p[j].0, k));
                    } else {
                        assert(text_lt(k, p[j].0));
                    }
                    lemma_text_lt_irreflexive(k);
                }
                assert forall|a: int, b: int| 0 <= a < b < p2.len() implies text_lt(
                    #[trigger] p2[a].0,
                    #[trigger] p2[b].0,
                ) by {
                    if b < i {
                        assert(text_lt(p[a].0, p[b].0));
                    } else if b == i {
                        assert(p2[a] == p[a]);
                    } else if a == i {
                        assert(p2[b] == p[b - 1]);
                    } else if a < i {
                        assert(p2[a] == p[a]);
                        assert(p2[b] == p[b - 1]);
                        assert(text_lt(p[a].0, k));
                        assert(text_lt(k, p[b - 1].0));
                        lemma_text_lt_transitive(p[a].0, k, p[b - 1].0);
                    } else {
                        assert(text_lt(p[a - 1].0, p[b - 1].0));
                    }
                }
                assert forall|j: int| 0 <= j < p2.len() implies m2.contains_key(#[trigger] p2[j].0)
                    && m2[p2[j].0] == p2[j].1 by {
                    if j < i {
                        assert(p2[j] == p[j]);
                    } else if j > i {
                        assert(p2[j] == p[j - 1]);
                    }
                }
                assert forall|key2: Seq<char>| m2.contains_key(key2) implies exists|j: int|
                    0 <= j < p2.len() && (#[trigger] p2[j]).0 == key2 by {
                    if key2 == k {
                        assert(p2[i as int].0 == k);
                    } else {
                        let j = choose|j: int| 0 <= j < p.len() && (#[trigger] p[j]).0 == key2;
                        if j < i {
                            assert(p2[j] == p[j]);
                        } else {
                            assert(p2[j + 1] == p[j]);
                        }
                    }
                }
            }
        }
        self.contents = Ghost(m2);
    }

    /// Sets `key` to `value` when there is a value.
    pub fn insert_some(&mut self, key: String, value: Option<String>)
        requires
            old(self).wf(),
        ensures
            final(self).wf(),
            final(self)@ == with_opt(old(self)@, key@, crate::model::opt_text(value)),
    {
        if let Some(v) = value {
            self.insert(key, v);
        }
    }

    /// The environment block: `KEY=value` lines in name order.
    pub fn render(&self) -> (r: String)
        requires
            self.wf(),
        ensures
            r@ == env_block(self@),
            lists(listing(self@), self@),
            forall|k: Seq<char>| self@.contains_key(k) ==> has_line(r@, #[trigger] env_line((k, self@[k]))),
    {
        let ghost p = entry_texts(self.entries@);
        let n = self.entries.len();
        let mut out = String::new();
        let mut i: usize = 0;
        while i < n
            invariant
                n == self.entries@.len(),
                p == entry_texts(self.entries@),
                i <= n,
                out@ == env_lines(p.take(i as int)),
            decreases n - i,
        {
            if i > 0 {
                out.append("\n");
            }
            out.append(self.entries[i].0.as_str());
            out.append("=");
            out.append(self.entries[i].1.as_str());
            proof {
                reveal_strlit("\n");
                reveal_strlit("=");
                assert(p.take(i + 1).drop_last() =~= p.take(i as int));
                if i == 0 {
                    assert(out@ =~= env_line(p[0]));
                } else {
                    assert(out@ =~= env_lines(p.take(i as int)) + seq!['\n'] + env_line(p[i as int]));
                }
            }
            i = i + 1;
        }
        proof {
            assert(p.take(n as int) =~= p);
            lemma_listing_is(p, self@);
            assert forall|k: Seq<char>| self@.contains_key(k) implies has_line(out@, #[trigger] env_line((k, self@[k]))) by {
                let j = choose|j: int| 0 <= j < p.len() && (#[trigger] p[j]).0 == k;
                lemma_env_lines_has_each(p, j);
            }
        }
        out
    }
}

/// `m` with `k` bound to the value, when there is one.
pub open spec fn with_opt(m: Map<Seq<char>, Seq<char>>, k: Seq<char>, v: Option<Seq<char>>) -> Map<
    Seq<char>,
    Seq<char>,
> {
    match v {
        Some(x) => m.insert(k, x),
        None => m,
    }
}

} // verus!
