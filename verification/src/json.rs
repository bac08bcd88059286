use vstd::prelude::*;
use vstd::string::*;

use crate::text::same_text;

verus! {

/// A JSON document, as the manifest's published schema is one.
///
/// An object keeps its members in a list of name/value pairs; a number
/// keeps its decimal text as written.
#[derive(Debug, PartialEq)]
pub enum Json {
    Null,
    Bool(bool),
    Number(String),
    Text(String),
    Array(Vec<Json>),
    Object(Vec<(String, Json)>),
}

/// The mathematical value of a JSON document.
pub enum JsonModel {
    Null,
    Bool(bool),
    Number(Seq<char>),
    Text(Seq<char>),
    Array(Seq<JsonModel>),
    Object(Seq<(Seq<char>, JsonModel)>),
}

/// What a document denotes.
pub open spec fn model_of(j: Json) -> JsonModel
    decreases j,
{
    match j {
        Json::Null => JsonModel::Null,
        Json::Bool(b) => JsonModel::Bool(b),
        Json::Number(n) => JsonModel::Number(n@),
        Json::Text(t) => JsonModel::Text(t@),
        Json::Array(items) => JsonModel::Array(models_of(items@)),
        Json::Object(members) => JsonModel::Object(member_models_of(members@)),
    }
}

/// What a list of documents denotes, element by element.
pub open spec fn models_of(s: Seq<Json>) -> Seq<JsonModel>
    decreases s,
{
    if s.len() == 0 {
        Seq::empty()
    } else {
        proof {
            vstd::seq::axiom_seq_subrange_decreases(s, 0, s.len() - 1);
        }
        models_of(s.drop_last()).push(model_of(s.last()))
    }
}

/// What a list of object members denotes, member by member.
pub open spec fn member_models_of(s: Seq<(String, Json)>) -> Seq<(Seq<char>, JsonModel)>
    decreases s,
{
    if s.len() == 0 {
        Seq::empty()
    } else {
        proof {
            vstd::seq::axiom_seq_subrange_decreases(s, 0, s.len() - 1);
        }
        member_models_of(s.drop_last()).push((s.last().0@, model_of(s.last().1)))
    }
}

impl View for Json {
    type V = JsonModel;

    open spec fn view(&self) -> JsonModel {
        model_of(*self)
    }
}

/// Whether some member of an object is called `k`.
pub open spec fn has_key(members: Seq<(Seq<char>, JsonModel)>, k: Seq<char>) -> bool {
    exists|i: int| 0 <= i < members.len() && (#[trigger] members[i]).0 == k
}

/// An object schema node that lists fields (`properties`) or elements
/// (`items`) and does not say whether other members are allowed.
pub open spec fn leaves_members_open(members: Seq<(Seq<char>, JsonModel)>) -> bool {
    &&& (has_key(members, "properties"@) || has_key(members, "items"@))
    &&& !has_key(members, "additionalProperties"@)
}

/// The schema with unknown members refused: every object node that lists
/// fields or elements and leaves `additionalProperties` unsaid gains
/// `"additionalProperties": false` as its last member; the values of every
/// object's members are treated the same way; everything else (members
/// already present, arrays and scalars) is kept as it is.
pub open spec fn strict(j: JsonModel) -> JsonModel
    decreases j,
{
    match j {
        JsonModel::Object(members) => {
            let walked = strict_members(members);
            if leaves_members_open(members) {
                JsonModel::Object(walked.push(("additionalProperties"@, JsonModel::Bool(false))))
            } else {
                JsonModel::Object(walked)
            }
        },
        _ => j,
    }
}

/// The members of an object, each value made strict.
pub open spec fn strict_members(members: Seq<(Seq<char>, JsonModel)>) -> Seq<
    (Seq<char>, JsonModel),
>
    decreases members,
{
    if members.len() == 0 {
        members
    } else {
        proof {
            vstd::seq::axiom_seq_subrange_decreases(members, 0, members.len() - 1);
        }
        strict_members(members.drop_last()).push(
            (members.last().0, strict(members.last().1)),
        )
    }
}

/// `i` is the first position of a member called `k`.
pub open spec fn first_key_at(members: Seq<(Seq<char>, JsonModel)>, k: Seq<char>, i: int) -> bool {
    &&& 0 <= i < members.len()
    &&& members[i].0 == k
    &&& forall|m: int| 0 <= m < i ==> (#[trigger] members[m]).0 != k
}

/// The members with `k` set to `v`: the first member called `k` takes the
/// new value in its place; with no such member, `(k, v)` comes last.
pub open spec fn set_member(members: Seq<(Seq<char>, JsonModel)>, k: Seq<char>, v: JsonModel) -> Seq<
    (Seq<char>, JsonModel),
> {
    if has_key(members, k) {
        members.update(choose|i: int| first_key_at(members, k, i), (k, v))
    } else {
        members.push((k, v))
    }
}

/// An object with member `k` set to `v`; any other document is unchanged.
pub open spec fn with_member(j: JsonModel, k: Seq<char>, v: JsonModel) -> JsonModel {
    match j {
        JsonModel::Object(members) => JsonModel::Object(set_member(members, k, v)),
        _ => j,
    }
}

/// The dialect the published schema declares.
pub const SCHEMA_DIALECT: &'static str = "https://json-schema.org/draft/2020-12/schema";

/// The published schema's title.
pub const SCHEMA_TITLE: &'static str = "UniDPP operator manifest (unidpp.org/v1)";

/// The published manifest schema made from the one derived from the model:
/// strict (see [`strict`]), then stamped with its dialect (`$schema`) and
/// its title.
pub open spec fn finished(s: JsonModel) -> JsonModel {
    with_member(
        with_member(strict(s), "$schema"@, JsonModel::Text(SCHEMA_DIALECT@)),
        "title"@,
        JsonModel::Text(SCHEMA_TITLE@),
    )
}

// ---------------------------------------------------------------------------
// Element-wise descriptions of the list models
// ---------------------------------------------------------------------------

proof fn lemma_member_models(s: Seq<(String, Json)>)
    ensures
        member_models_of(s).len() == s.len(),
        forall|m: int|
            0 <= m < s.len() ==> #[trigger] member_models_of(s)[m] == (s[m].0@, model_of(s[m].1)),
    decreases s.len(),
{
    if s.len() > 0 {
        lemma_member_models(s.drop_last());
    }
}

proof fn lemma_strict_members(ms: Seq<(Seq<char>, JsonModel)>)
    ensures
        strict_members(ms).len() == ms.len(),
        forall|m: int| 0 <= m < ms.len() ==> #[trigger] strict_members(ms)[m] == (ms[m].0, strict(ms[m].1)),
    decreases ms.len(),
{
    if ms.len() > 0 {
        lemma_strict_members(ms.drop_last());
    }
}

proof fn lemma_first_key_unique(ms: Seq<(Seq<char>, JsonModel)>, k: Seq<char>, i: int, j: int)
    requires
        first_key_at(ms, k, i),
        first_key_at(ms, k, j),
    ensures
        i == j,
{
    if i < j {
        assert(ms[i].0 != k);
    } else if j < i {
        assert(ms[j].0 != k);
    }
}

// ---------------------------------------------------------------------------
// Strictness, as a property of a whole schema
// ---------------------------------------------------------------------------

/// Every object node of the schema, and every node reached through the
/// members of one, says whether members beyond the ones it lists are
/// allowed, wherever it lists fields or items.
pub open spec fn closed_throughout(j: JsonModel) -> bool
    decreases j,
{
    match j {
        JsonModel::Object(members) => !leaves_members_open(members) && closed_members(members),
        _ => true,
    }
}

/// Every member value is [`closed_throughout`].
pub open spec fn closed_members(members: Seq<(Seq<char>, JsonModel)>) -> bool
    decreases members,
{
    if members.len() == 0 {
        true
    } else {
        proof {
            vstd::seq::axiom_seq_subrange_decreases(members, 0, members.len() - 1);
        }
        closed_members(members.drop_last()) && closed_throughout(members.last().1)
    }
}

proof fn lemma_closed_members(ms: Seq<(Seq<char>, JsonModel)>)
    ensures
        closed_members(ms) <==> forall|m: int| 0 <= m < ms.len() ==> closed_throughout(#[trigger] ms[m].1),
    decreases ms.len(),
{
    if ms.len() > 0 {
        let d = ms.drop_last();
        lemma_closed_members(d);
        if closed_members(ms) {
            assert forall|m: int| 0 <= m < ms.len() implies closed_throughout(#[trigger] ms[m].1) by {
                if m < d.len() {
                    assert(d[m] == ms[m]);
                }
            }
        }
        if forall|m: int| 0 <= m < ms.len() ==> closed_throughout(#[trigger] ms[m].1) {
            assert forall|m: int| 0 <= m < d.len() implies closed_throughout(#[trigger] d[m].1) by {
                assert(d[m] == ms[m]);
                assert(closed_throughout(ms[m].1));
            }
            assert(closed_throughout(ms[ms.len() - 1].1));
        }
    }
}

proof fn lemma_strict_keeps_keys(ms: Seq<(Seq<char>, JsonModel)>, k: Seq<char>)
    ensures
        has_key(strict_members(ms), k) == has_key(ms, k),
{
    lemma_strict_members(ms);
    let w = strict_members(ms);
    if has_key(ms, k) {
        let i = choose|i: int| 0 <= i < ms.len() && (#[trigger] ms[i]).0 == k;
        assert(w[i].0 == k);
    }
    if has_key(w, k) {
        let i = choose|i: int| 0 <= i < w.len() && (#[trigger] w[i]).0 == k;
        assert(ms[i].0 == k);
    }
}

proof fn lemma_strict_closes(j: JsonModel)
    ensures
        closed_throughout(strict(j)),
    decreases j,
{
    if let JsonModel::Object(ms) = j {
        lemma_strict_members(ms);
        let w = strict_members(ms);
        assert forall|m: int| 0 <= m < w.len() implies closed_throughout(#[trigger] w[m].1) by {
            assert(decreases_to!(j => ms));
            assert(decreases_to!(ms => ms[m]));
            lemma_strict_closes(ms[m].1);
        }
        lemma_strict_keeps_keys(ms, "properties"@);
        lemma_strict_keeps_keys(ms, "items"@);
        lemma_strict_keeps_keys(ms, "additionalProperties"@);
        if leaves_members_open(ms) {
            let closed = w.push(("additionalProperties"@, JsonModel::Bool(false)));
            assert(closed[w.len() as int].0 == "additionalProperties"@);
            assert forall|m: int| 0 <= m < closed.len() implies closed_throughout(#[trigger] closed[m].1) by {
                if m < w.len() {
                    assert(closed[m] == w[m]);
                }
            }
            lemma_closed_members(closed);
        } else {
            lemma_closed_members(w);
        }
    }
}

proof fn lemma_first_key_exists(ms: Seq<(Seq<char>, JsonModel)>, k: Seq<char>)
    requires
        has_key(ms, k),
    ensures
        exists|i: int| first_key_at(ms, k, i),
    decreases ms.len(),
{
    if ms[0].0 == k {
        assert(first_key_at(ms, k, 0));
    } else {
        let rest = ms.drop_first();
        let w = choose|w: int| 0 <= w < ms.len() && (#[trigger] ms[w]).0 == k;
        assert(rest[w - 1] == ms[w]);
        lemma_first_key_exists(rest, k);
        let i = choose|i: int| first_key_at(rest, k, i);
        assert forall|m: int| 0 <= m < i + 1 implies (#[trigger] ms[m]).0 != k by {
            if m > 0 {
                assert(ms[m] == rest[m - 1]);
            }
        }
        assert(first_key_at(ms, k, i + 1));
    }
}

proof fn lemma_set_member_closes(ms: Seq<(Seq<char>, JsonModel)>, k: Seq<char>, v: JsonModel)
    requires
        !leaves_members_open(ms),
        closed_members(ms),
        closed_throughout(v),
        k != "properties"@,
        k != "items"@,
        k != "additionalProperties"@,
    ensures
        !leaves_members_open(set_member(ms, k, v)),
        closed_members(set_member(ms, k, v)),
{
    lemma_closed_members(ms);
    let r = set_member(ms, k, v);
    let c = choose|i: int| first_key_at(ms, k, i);
    if has_key(ms, k) {
        lemma_first_key_exists(ms, k);
    }
    assert forall|m: int| 0 <= m < r.len() implies closed_throughout(#[trigger] r[m].1) by {
        if has_key(ms, k) {
            if m != c {
                assert(r[m] == ms[m]);
            }
        } else if m < ms.len() {
            assert(r[m] == ms[m]);
        }
    }
    lemma_closed_members(r);
    assert forall|name: Seq<char>| name != k && #[trigger] has_key(ms, name) implies has_key(r, name) by {
        let i = choose|i: int| 0 <= i < ms.len() && (#[trigger] ms[i]).0 == name;
        assert(r[i].0 == name);
    }
    assert forall|name: Seq<char>| name != k && #[trigger] has_key(r, name) implies has_key(ms, name) by {
        let i = choose|i: int| 0 <= i < r.len() && (#[trigger] r[i]).0 == name;
        assert(ms[i].0 == name);
    }
}

/// The published schema is as strict as loading a manifest: wherever it
/// describes an object's fields or an array's items, through any chain of
/// object members, it says whether other members are allowed (a node that
/// said nothing now says `false`).
pub proof fn lemma_published_schema_is_closed(s: JsonModel)
    ensures
        closed_throughout(finished(s)),
{
    lemma_strict_closes(s);
    reveal_strlit("$schema");
    reveal_strlit("title");
    reveal_strlit("properties");
    reveal_strlit("items");
    reveal_strlit("additionalProperties");
    assert("$schema"@.len() == 7 && "title"@.len() == 5);
    assert("properties"@.len() == 10 && "items"@.len() == 5 && "additionalProperties"@.len() == 20);
    assert("title"@[0] != "items"@[0]);
    let a = strict(s);
    if let JsonModel::Object(ms) = a {
        lemma_set_member_closes(ms, "$schema"@, JsonModel::Text(SCHEMA_DIALECT@));
        let b = set_member(ms, "$schema"@, JsonModel::Text(SCHEMA_DIALECT@));
        lemma_set_member_closes(b, "title"@, JsonModel::Text(SCHEMA_TITLE@));
    }
}

// ---------------------------------------------------------------------------
// Executable
// ---------------------------------------------------------------------------

/// Refuses unknown members throughout a schema (see [`strict`]).
pub fn deny_unknown(j: Json) -> (r: Json)
    ensures
        r@ == strict(j@),
    decreases j,
{
    let ghost whole = j;
    match j {
        Json::Object(members) => {
            let ghost orig = members@;
            let ghost held = members;
            proof {
                lemma_member_models(orig);
                assert(orig.len() == members.len());
            }
            let mut rest = members;
            let mut out: Vec<(String, Json)> = Vec::new();
            let mut properties = false;
            let mut items = false;
            let mut closed = false;
            let mut i: usize = 0;
            while rest.len() > 0
                invariant
                    orig.len() <= usize::MAX,
                    i + rest@.len() == orig.len(),
                    rest@ == orig.subrange(i as int, orig.len() as int),
                    whole == j,
                    whole == Json::Object(held),
                    held@ == orig,
                    out@.len() == i,
                    forall|m: int|
                        0 <= m < i ==> (#[trigger] out@[m]).0@ == orig[m].0@ && model_of(out@[m].1)
                            == strict(model_of(orig[m].1)),
                    properties == has_key(member_models_of(orig).subrange(0, i as int), "properties"@),
                    items == has_key(member_models_of(orig).subrange(0, i as int), "items"@),
                    closed == has_key(
                        member_models_of(orig).subrange(0, i as int),
                        "additionalProperties"@,
                    ),
                    member_models_of(orig).len() == orig.len(),
                    forall|m: int|
                        0 <= m < orig.len() ==> #[trigger] member_models_of(orig)[m] == (
                            orig[m].0@,
                            model_of(orig[m].1),
                        ),
                decreases rest@.len(),
            {
                let (k, v) = rest.remove(0);
                proof {
                    assert(rest@.len() + 1 == orig.len() - i);
                    assert((k, v) == orig[i as int]);
                    assert(decreases_to!(whole => whole->0));
                    assert(decreases_to!(held => held[i as int]));
                    assert(decreases_to!(whole => v));
                }
                let v = deny_unknown(v);
                let ghost before = member_models_of(orig).subrange(0, i as int);
                let ghost after = member_models_of(orig).subrange(0, i + 1);
                proof {
                    assert(after =~= before.push(member_models_of(orig)[i as int]));
                    assert forall|name: Seq<char>|
                        #[trigger] has_key(after, name) == (has_key(before, name) || k@ == name) by {
                        if has_key(after, name) {
                            let w = choose|w: int| 0 <= w < after.len() && (#[trigger] after[w]).0 == name;
                            if w < before.len() {
                                assert(before[w] == after[w]);
                            }
                        }
                        if has_key(before, name) {
                            let w = choose|w: int| 0 <= w < before.len() && (#[trigger] before[w]).0 == name;
                            assert(after[w] == before[w]);
                        }
                        if k@ == name {
                            assert(after[i as int].0 == name);
                        }
                    }
                }
                properties = properties || same_text(k.as_str(), "properties");
                items = items || same_text(k.as_str(), "items");
                closed = closed || same_text(k.as_str(), "additionalProperties");
                out.push((k, v));
                i = i + 1;
                proof {
                    assert(rest@ =~= orig.subrange(i as int, orig.len() as int));
                }
            }
            proof {
                assert(member_models_of(orig).subrange(0, i as int) =~= member_models_of(orig));
                lemma_strict_members(member_models_of(orig));
                lemma_member_models(out@);
            }
            let open = (properties || items) && !closed;
            if open {
                out.push((String::from_str("additionalProperties"), Json::Bool(false)));
            }
            proof {
                lemma_member_models(out@);
                let walked = strict_members(member_models_of(orig));
                if open {
                    assert(member_models_of(out@) =~= walked.push(
                        ("additionalProperties"@, JsonModel::Bool(false)),
                    ));
                } else {
                    assert(member_models_of(out@) =~= walked);
                }
            }
            Json::Object(out)
        },
        other => other,
    }
}

/// Sets member `k` of an object to `v` (see [`with_member`]); any other
/// document comes back as it was.
pub fn put_member(j: Json, k: &str, v: Json) -> (r: Json)
    ensures
        r@ == with_member(j@, k@, v@),
{
    match j {
        Json::Object(members) => {
            let ghost orig = members@;
            proof {
                lemma_member_models(orig);
            }
            let mut members = members;
            let mut i: usize = 0;
            while i < members.len()
                invariant
                    i <= members@.len(),
                    members@ == orig,
                    forall|m: int| 0 <= m < i ==> (#[trigger] members@[m]).0@ != k@,
                ensures
                    i <= members@.len(),
                    members@ == orig,
                    forall|m: int| 0 <= m < i ==> (#[trigger] members@[m]).0@ != k@,
                    i < members@.len() ==> members@[i as int].0@ == k@,
                decreases members@.len() - i,
            {
                if same_text(members[i].0.as_str(), k) {
                    break;
                }
                i = i + 1;
            }
            let ghost ms = member_models_of(orig);
            let ghost vm = v@;
            if i < members.len() {
                members.set(i, (String::from_str(k), v));
                proof {
                    assert(first_key_at(ms, k@, i as int));
                    assert(has_key(ms, k@));
                    let c = choose|c: int| first_key_at(ms, k@, c);
                    lemma_first_key_unique(ms, k@, i as int, c);
                    lemma_member_models(members@);
                    assert(member_models_of(members@) =~= ms.update(i as int, (k@, vm)));
                }
            } else {
                members.push((String::from_str(k), v));
                proof {
                    assert(!has_key(ms, k@)) by {
                        if has_key(ms, k@) {
                            let w = choose|w: int| 0 <= w < ms.len() && (#[trigger] ms[w]).0 == k@;
                            assert(orig[w].0@ != k@);
                        }
                    }
                    lemma_member_models(members@);
                    assert(member_models_of(members@) =~= ms.push((k@, vm)));
                }
            }
            Json::Object(members)
        },
        other => other,
    }
}

/// Finishes the schema derived from the manifest model: unknown members
/// refused on every object node, then the dialect and the title stamped
/// on (see [`finished`]).
pub fn finish_schema(schema: Json) -> (r: Json)
    ensures
        r@ == finished(schema@),
{
    let strict_schema = deny_unknown(schema);
    let dialect = Json::Text(String::from_str(SCHEMA_DIALECT));
    let with_dialect = put_member(strict_schema, "$schema", dialect);
    let title = Json::Text(String::from_str(SCHEMA_TITLE));
    put_member(with_dialect, "title", title)
}

} // verus!
