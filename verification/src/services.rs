use vstd::prelude::*;
use vstd::string::*;

use crate::model::{opt_text, OperatorManifest, Services};
use crate::text::same_text;

verus! {

/// `[name]` when the service is present, else nothing.
pub open spec fn named(present: bool, name: Seq<char>) -> Seq<Seq<char>> {
    if present {
        seq![name]
    } else {
        Seq::empty()
    }
}

/// The names of the services a deployment runs, in manifest order.
pub open spec fn present_names(s: Services) -> Seq<Seq<char>> {
    named(s.registry is Some, "registry"@) + named(s.trust is Some, "trust"@) + named(
        s.log is Some,
        "log"@,
    ) + named(s.issuer is Some, "issuer"@) + named(s.projector is Some, "projector"@) + named(
        s.gateway is Some,
        "gateway"@,
    ) + named(s.archive is Some, "archive"@) + named(s.console is Some, "console"@) + named(
        s.resolver is Some,
        "resolver"@,
    ) + named(s.hub is Some, "hub"@)
}

/// The public URL the manifest declares for the service called `name`.
pub open spec fn public_url_of(s: Services, name: Seq<char>) -> Option<Seq<char>> {
    if name == "registry"@ {
        match s.registry { Some(c) => opt_text(c.public_url), None => None }
    } else if name == "trust"@ {
        match s.trust { Some(c) => opt_text(c.public_url), None => None }
    } else if name == "log"@ {
        match s.log { Some(c) => opt_text(c.public_url), None => None }
    } else if name == "issuer"@ {
        match s.issuer { Some(c) => opt_text(c.public_url), None => None }
    } else if name == "projector"@ {
        match s.projector { Some(c) => opt_text(c.public_url), None => None }
    } else if name == "gateway"@ {
        match s.gateway { Some(c) => opt_text(c.public_url), None => None }
    } else if name == "archive"@ {
        match s.archive { Some(c) => opt_text(c.public_url), None => None }
    } else if name == "console"@ {
        match s.console { Some(c) => opt_text(c.public_url), None => None }
    } else if name == "resolver"@ {
        match s.resolver { Some(c) => opt_text(c.public_url), None => None }
    } else if name == "hub"@ {
        match s.hub { Some(c) => opt_text(c.public_url), None => None }
    } else {
        None
    }
}

fn url_clone(o: &Option<String>) -> (r: Option<String>)
    ensures
        opt_text(r) == opt_text(*o),
{
    match o {
        Some(s) => Some(s.clone()),
        None => None,
    }
}

fn push_if(names: &mut Vec<&'static str>, present: bool, name: &'static str)
    ensures
        final(names)@.map_values(|n: &'static str| n@) == old(names)@.map_values(|n: &'static str| n@)
            + named(present, name@),
{
    let ghost before = names@;
    if present {
        names.push(name);
        assert(names@.map_values(|n: &'static str| n@) =~= before.map_values(|n: &'static str| n@)
            + named(present, name@));
    } else {
        assert(names@.map_values(|n: &'static str| n@) =~= before.map_values(|n: &'static str| n@)
            + named(present, name@));
    }
}

impl OperatorManifest {
    /// A service's public URL when the manifest declares one (`None` for an
    /// absent service or an unknown name).
    pub fn service_public_url(&self, name: &str) -> (r: Option<String>)
        ensures
            opt_text(r) == public_url_of(self.services, name@),
    {
        let s = &self.services;
        if same_text(name, "registry") {
            match &s.registry { Some(c) => url_clone(&c.public_url), None => None }
        } else if same_text(name, "trust") {
            match &s.trust { Some(c) => url_clone(&c.public_url), None => None }
        } else if same_text(name, "log") {
            match &s.log { Some(c) => url_clone(&c.public_url), None => None }
        } else if same_text(name, "issuer") {
            match &s.issuer { Some(c) => url_clone(&c.public_url), None => None }
        } else if same_text(name, "projector") {
            match &s.projector { Some(c) => url_clone(&c.public_url), None => None }
        } else if same_text(name, "gateway") {
            match &s.gateway { Some(c) => url_clone(&c.public_url), None => None }
        } else if same_text(name, "archive") {
            match &s.archive { Some(c) => url_clone(&c.public_url), None => None }
        } else if same_text(name, "console") {
            match &s.console { Some(c) => url_clone(&c.public_url), None => None }
        } else if same_text(name, "resolver") {
            match &s.resolver { Some(c) => url_clone(&c.public_url), None => None }
        } else if same_text(name, "hub") {
            match &s.hub { Some(c) => url_clone(&c.public_url), None => None }
        } else {
            None
        }
    }

    /// The service names this deployment runs (manifest order).
    pub fn service_names(&self) -> (r: Vec<&'static str>)
        ensures
            r@.map_values(|n: &'static str| n@) == present_names(self.services),
    {
        let s = &self.services;
        let mut names: Vec<&'static str> = Vec::new();
        assert(names@.map_values(|n: &'static str| n@) =~= Seq::<Seq<char>>::empty());
        push_if(&mut names, s.registry.is_some(), "registry");
        push_if(&mut names, s.trust.is_some(), "trust");
        push_if(&mut names, s.log.is_some(), "log");
        push_if(&mut names, s.issuer.is_some(), "issuer");
        push_if(&mut names, s.projector.is_some(), "projector");
        push_if(&mut names, s.gateway.is_some(), "gateway");
        push_if(&mut names, s.archive.is_some(), "archive");
        push_if(&mut names, s.console.is_some(), "console");
        push_if(&mut names, s.resolver.is_some(), "resolver");
        push_if(&mut names, s.hub.is_some(), "hub");
        names
    }
}

} // verus!

verus! {

#[verifier::opaque]
spec fn in_names(a: Seq<Seq<char>>, x: Seq<char>) -> bool {
    a.contains(x)
}

proof fn lemma_named_contains(a: Seq<Seq<char>>, present: bool, n: Seq<char>, x: Seq<char>)
    ensures
        in_names(a + named(present, n), x) <==> (in_names(a, x) || (present && x == n)),
{
    reveal(in_names);
    let b = a + named(present, n);
    if a.contains(x) {
        let i = choose|i: int| 0 <= i < a.len() && a[i] == x;
        assert(b[i] == x);
    }
    if present && x == n {
        assert(b[a.len() as int] == x);
    }
    if b.contains(x) {
        let i = choose|i: int| 0 <= i < b.len() && b[i] == x;
        if i < a.len() {
            assert(a[i] == x);
        }
    }
}

/// Which names `present_names` holds: each name whose block is present.
pub proof fn lemma_present_names_contains(s: Services, x: Seq<char>)
    ensures
        present_names(s).contains(x) <==> {
            ||| (s.registry is Some && x == "registry"@)
            ||| (s.trust is Some && x == "trust"@)
            ||| (s.log is Some && x == "log"@)
            ||| (s.issuer is Some && x == "issuer"@)
            ||| (s.projector is Some && x == "projector"@)
            ||| (s.gateway is Some && x == "gateway"@)
            ||| (s.archive is Some && x == "archive"@)
            ||| (s.console is Some && x == "console"@)
            ||| (s.resolver is Some && x == "resolver"@)
            ||| (s.hub is Some && x == "hub"@)
        },
{
    let e = Seq::<Seq<char>>::empty();
    let a0 = named(s.registry is Some, "registry"@);
    assert(a0 =~= e + a0);
    assert(!in_names(e, x)) by {
        reveal(in_names);
    }
    lemma_named_contains(e, s.registry is Some, "registry"@, x);
    let a1 = a0 + named(s.trust is Some, "trust"@);
    lemma_named_contains(a0, s.trust is Some, "trust"@, x);
    let a2 = a1 + named(s.log is Some, "log"@);
    lemma_named_contains(a1, s.log is Some, "log"@, x);
    let a3 = a2 + named(s.issuer is Some, "issuer"@);
    lemma_named_contains(a2, s.issuer is Some, "issuer"@, x);
    let a4 = a3 + named(s.projector is Some, "projector"@);
    lemma_named_contains(a3, s.projector is Some, "projector"@, x);
    let a5 = a4 + named(s.gateway is Some, "gateway"@);
    lemma_named_contains(a4, s.gateway is Some, "gateway"@, x);
    let a6 = a5 + named(s.archive is Some, "archive"@);
    lemma_named_contains(a5, s.archive is Some, "archive"@, x);
    let a7 = a6 + named(s.console is Some, "console"@);
    lemma_named_contains(a6, s.console is Some, "console"@, x);
    let a8 = a7 + named(s.resolver is Some, "resolver"@);
    lemma_named_contains(a7, s.resolver is Some, "resolver"@, x);
    lemma_named_contains(a8, s.hub is Some, "hub"@, x);
    assert(present_names(s) == a8 + named(s.hub is Some, "hub"@));
    reveal(in_names);
}

/// A declared public URL belongs to a service the deployment runs.
pub proof fn lemma_public_url_names_a_running_service(s: Services, name: Seq<char>)
    requires
        public_url_of(s, name) is Some,
    ensures
        present_names(s).contains(name),
{
    lemma_present_names_contains(s, name);
}

} // verus!

verus! {

/// The ten service names are told apart by their lengths and first letters.
pub proof fn lemma_service_names_distinct()
    ensures
        "registry"@.len() == 8,
        "resolver"@.len() == 8,
        "trust"@.len() == 5,
        "log"@.len() == 3,
        "issuer"@.len() == 6,
        "projector"@.len() == 9,
        "gateway"@.len() == 7,
        "archive"@.len() == 7,
        "console"@.len() == 7,
        "hub"@.len() == 3,
        "resolver"@[2] != "registry"@[2],
        "log"@[0] != "hub"@[0],
        "gateway"@[0] != "archive"@[0],
        "gateway"@[0] != "console"@[0],
        "archive"@[0] != "console"@[0],
{
    reveal_strlit("registry");
    reveal_strlit("resolver");
    reveal_strlit("trust");
    reveal_strlit("log");
    reveal_strlit("issuer");
    reveal_strlit("projector");
    reveal_strlit("gateway");
    reveal_strlit("archive");
    reveal_strlit("console");
    reveal_strlit("hub");
}

} // verus!

verus! {

/// The ten service names, in manifest order.
pub open spec fn all_service_names() -> Seq<Seq<char>> {
    seq!["registry"@, "trust"@, "log"@, "issuer"@, "projector"@, "gateway"@, "archive"@, "console"@, "resolver"@, "hub"@]
}

/// Whether the deployment declares the block of the service called `name`.
#[verifier::opaque]
pub open spec fn block_present(s: Services, name: Seq<char>) -> bool {
    ||| (name == "registry"@ && s.registry is Some)
    ||| (name == "trust"@ && s.trust is Some)
    ||| (name == "log"@ && s.log is Some)
    ||| (name == "issuer"@ && s.issuer is Some)
    ||| (name == "projector"@ && s.projector is Some)
    ||| (name == "gateway"@ && s.gateway is Some)
    ||| (name == "archive"@ && s.archive is Some)
    ||| (name == "console"@ && s.console is Some)
    ||| (name == "resolver"@ && s.resolver is Some)
    ||| (name == "hub"@ && s.hub is Some)
}

proof fn lemma_filter_distinct(xs: Seq<Seq<char>>, pred: spec_fn(Seq<char>) -> bool)
    requires
        xs.no_duplicates(),
    ensures
        xs.filter(pred).no_duplicates(),
        forall|i: int| 0 <= i < xs.filter(pred).len() ==> xs.contains(#[trigger] xs.filter(pred)[i]),
    decreases xs.len(),
{
    reveal(Seq::filter);
    if xs.len() > 0 {
        let d = xs.drop_last();
        assert forall|i: int, j: int| 0 <= i < d.len() && 0 <= j < d.len() && i != j implies d[i] != d[j] by {
            assert(d[i] == xs[i] && d[j] == xs[j]);
        }
        lemma_filter_distinct(d, pred);
        let f = d.filter(pred);
        assert forall|i: int| 0 <= i < f.len() implies xs.contains(#[trigger] f[i]) by {
            let k = choose|k: int| 0 <= k < d.len() && d[k] == f[i];
            assert(xs[k] == f[i]);
        }
        assert forall|i: int| 0 <= i < f.len() implies #[trigger] f[i] != xs.last() by {
            let k = choose|k: int| 0 <= k < d.len() && d[k] == f[i];
            assert(xs[k] == d[k]);
            assert(k != xs.len() - 1);
        }
        if pred(xs.last()) {
            let g = f.push(xs.last());
            assert(xs.filter(pred) == g);
            assert forall|i: int| 0 <= i < g.len() implies xs.contains(#[trigger] g[i]) by {
                if i == f.len() {
                    assert(xs[xs.len() - 1] == g[i]);
                } else {
                    assert(g[i] == f[i]);
                }
            }
            assert forall|i: int, j: int| 0 <= i < g.len() && 0 <= j < g.len() && i != j implies g[i] != g[j] by {
                if i < f.len() && j < f.len() {
                    assert(g[i] == f[i] && g[j] == f[j]);
                } else if i < f.len() {
                    assert(g[i] == f[i]);
                } else {
                    assert(g[j] == f[j]);
                }
            }
        }
    }
}

/// Appending one name to a list adds it to the kept names exactly when the
/// predicate holds of it.
proof fn lemma_filter_step(xs: Seq<Seq<char>>, x: Seq<char>, pred: spec_fn(Seq<char>) -> bool, present: bool)
    requires
        pred(x) == present,
    ensures
        xs.push(x).filter(pred) == xs.filter(pred) + named(present, x),
{
    xs.lemma_filter_push(x, pred);
    if present {
        assert(xs.filter(pred).push(x) =~= xs.filter(pred) + named(present, x));
    } else {
        assert(xs.filter(pred) =~= xs.filter(pred) + named(present, x));
    }
}

/// Each service name stands for its own block.
pub proof fn lemma_block_present_by_name(s: Services)
    ensures
        block_present(s, "registry"@) == s.registry is Some,
        block_present(s, "trust"@) == s.trust is Some,
        block_present(s, "log"@) == s.log is Some,
        block_present(s, "issuer"@) == s.issuer is Some,
        block_present(s, "projector"@) == s.projector is Some,
        block_present(s, "gateway"@) == s.gateway is Some,
        block_present(s, "archive"@) == s.archive is Some,
        block_present(s, "console"@) == s.console is Some,
        block_present(s, "resolver"@) == s.resolver is Some,
        block_present(s, "hub"@) == s.hub is Some,
{
    lemma_service_names_distinct();
    reveal(block_present);
}

/// `service_names` keeps, in manifest order, the ten service names whose
/// block the deployment declares.
proof fn lemma_present_names_filter(s: Services)
    ensures
        present_names(s) == all_service_names().filter(|n: Seq<char>| block_present(s, n)),
{
    lemma_block_present_by_name(s);
    let pred = |n: Seq<char>| block_present(s, n);
    let p0 = Seq::<Seq<char>>::empty();
    let p1 = p0.push("registry"@);
    let p2 = p1.push("trust"@);
    let p3 = p2.push("log"@);
    let p4 = p3.push("issuer"@);
    let p5 = p4.push("projector"@);
    let p6 = p5.push("gateway"@);
    let p7 = p6.push("archive"@);
    let p8 = p7.push("console"@);
    let p9 = p8.push("resolver"@);
    let p10 = p9.push("hub"@);
    assert(all_service_names() == p10);
    assert(p0.filter(pred) =~= Seq::<Seq<char>>::empty()) by {
        reveal(Seq::filter);
    }
    let q1 = named(s.registry is Some, "registry"@);
    let q2 = q1 + named(s.trust is Some, "trust"@);
    let q3 = q2 + named(s.log is Some, "log"@);
    let q4 = q3 + named(s.issuer is Some, "issuer"@);
    let q5 = q4 + named(s.projector is Some, "projector"@);
    let q6 = q5 + named(s.gateway is Some, "gateway"@);
    let q7 = q6 + named(s.archive is Some, "archive"@);
    let q8 = q7 + named(s.console is Some, "console"@);
    let q9 = q8 + named(s.resolver is Some, "resolver"@);
    let q10 = q9 + named(s.hub is Some, "hub"@);
    lemma_filter_step(p0, "registry"@, pred, s.registry is Some);
    assert(p1.filter(pred) =~= q1);
    lemma_filter_step(p1, "trust"@, pred, s.trust is Some);
    assert(p2.filter(pred) == q2);
    lemma_filter_step(p2, "log"@, pred, s.log is Some);
    assert(p3.filter(pred) == q3);
    lemma_filter_step(p3, "issuer"@, pred, s.issuer is Some);
    assert(p4.filter(pred) == q4);
    lemma_filter_step(p4, "projector"@, pred, s.projector is Some);
    assert(p5.filter(pred) == q5);
    lemma_filter_step(p5, "gateway"@, pred, s.gateway is Some);
    assert(p6.filter(pred) == q6);
    lemma_filter_step(p6, "archive"@, pred, s.archive is Some);
    assert(p7.filter(pred) == q7);
    lemma_filter_step(p7, "console"@, pred, s.console is Some);
    assert(p8.filter(pred) == q8);
    lemma_filter_step(p8, "resolver"@, pred, s.resolver is Some);
    assert(p9.filter(pred) == q9);
    lemma_filter_step(p9, "hub"@, pred, s.hub is Some);
    assert(p10.filter(pred) == q10);
    assert(present_names(s) == q10);
}

/// `service_names` keeps, in manifest order, the ten service names whose
/// block the deployment declares: each name at most once, at most ten names
/// (none for a deployment without service blocks).
pub proof fn lemma_service_names_are_the_declared_ten(s: Services)
    ensures
        present_names(s) == all_service_names().filter(|n: Seq<char>| block_present(s, n)),
        present_names(s).no_duplicates(),
        present_names(s).len() <= 10,
        (s.registry is None && s.trust is None && s.log is None && s.issuer is None && s.projector is None
            && s.gateway is None && s.archive is None && s.console is None && s.resolver is None
            && s.hub is None) ==> present_names(s).len() == 0,
{
    lemma_service_names_distinct();
    lemma_present_names_filter(s);
    let all = all_service_names();
    let pred = |n: Seq<char>| block_present(s, n);
    assert(all.len() == 10);
    assert(all.no_duplicates());
    lemma_filter_distinct(all, pred);
    all.lemma_filter_len(pred);
}

/// The public URL of a service is the `public_url` its own block declares:
/// none when the block is absent or declares none, and no other name has one.
pub proof fn lemma_public_url_is_the_blocks_own(s: Services, other: Seq<char>)
    requires
        !all_service_names().contains(other),
    ensures
        public_url_of(s, "registry"@) == match s.registry {
            Some(c) => opt_text(c.public_url),
            None => None,
        },
        public_url_of(s, "trust"@) == match s.trust {
            Some(c) => opt_text(c.public_url),
            None => None,
        },
        public_url_of(s, "log"@) == match s.log {
            Some(c) => opt_text(c.public_url),
            None => None,
        },
        public_url_of(s, "issuer"@) == match s.issuer {
            Some(c) => opt_text(c.public_url),
            None => None,
        },
        public_url_of(s, "projector"@) == match s.projector {
            Some(c) => opt_text(c.public_url),
            None => None,
        },
        public_url_of(s, "gateway"@) == match s.gateway {
            Some(c) => opt_text(c.public_url),
            None => None,
        },
        public_url_of(s, "archive"@) == match s.archive {
            Some(c) => opt_text(c.public_url),
            None => None,
        },
        public_url_of(s, "console"@) == match s.console {
            Some(c) => opt_text(c.public_url),
            None => None,
        },
        public_url_of(s, "resolver"@) == match s.resolver {
            Some(c) => opt_text(c.public_url),
            None => None,
        },
        public_url_of(s, "hub"@) == match s.hub {
            Some(c) => opt_text(c.public_url),
            None => None,
        },
        public_url_of(s, other) is None,
{
    lemma_service_names_distinct();
    assert(all_service_names().contains("registry"@) && all_service_names().contains("trust"@)
        && all_service_names().contains("log"@) && all_service_names().contains("issuer"@)) by {
        assert(all_service_names()[0] == "registry"@ && all_service_names()[1] == "trust"@
            && all_service_names()[2] == "log"@ && all_service_names()[3] == "issuer"@);
    }
    assert(all_service_names().contains("projector"@) && all_service_names().contains("gateway"@)
        && all_service_names().contains("archive"@) && all_service_names().contains("console"@)) by {
        assert(all_service_names()[4] == "projector"@ && all_service_names()[5] == "gateway"@
            && all_service_names()[6] == "archive"@ && all_service_names()[7] == "console"@);
    }
    assert(all_service_names().contains("resolver"@) && all_service_names().contains("hub"@)) by {
        assert(all_service_names()[8] == "resolver"@ && all_service_names()[9] == "hub"@);
    }
}

} // verus!
