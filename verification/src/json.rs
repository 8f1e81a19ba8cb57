//! A small typed document model for the generated configuration files.
//!
//! Objects keep their entries in insertion order and never need to hold
//! a key twice.  A `Raw` node carries a bare code reference (an
//! identifier that must appear unquoted in the emitted source), which a
//! plain JSON value cannot express.

use vstd::prelude::*;

verus! {

/// A document value as the executable code builds it.
pub enum Json {
    Null,
    Bool(bool),
    Num(u64),
    Str(String),
    /// A bare code reference: emitted without quotes and never escaped.
    Raw(String),
    Arr(Vec<Json>),
    Obj(Vec<(String, Json)>),
}

/// The mathematical shape of a document value.
#[verifier::ext_equal]
pub enum JsonV {
    Null,
    Bool(bool),
    Num(u64),
    Str(Seq<char>),
    Raw(Seq<char>),
    Arr(Seq<JsonV>),
    Obj(Seq<(Seq<char>, JsonV)>),
}

impl Json {
    pub open spec fn view(self) -> JsonV
        decreases self,
    {
        match self {
            Json::Null => JsonV::Null,
            Json::Bool(b) => JsonV::Bool(b),
            Json::Num(n) => JsonV::Num(n),
            Json::Str(s) => JsonV::Str(s@),
            Json::Raw(s) => JsonV::Raw(s@),
            Json::Arr(items) => JsonV::Arr(view_items(items@)),
            Json::Obj(entries) => JsonV::Obj(view_entries(entries@)),
        }
    }
}

pub open spec fn view_items(s: Seq<Json>) -> Seq<JsonV>
    decreases s,
{
    if s.len() == 0 {
        Seq::empty()
    } else {
        seq![s[0].view()] + view_items(s.drop_first())
    }
}

pub open spec fn view_entries(s: Seq<(String, Json)>) -> Seq<(Seq<char>, JsonV)>
    decreases s,
{
    if s.len() == 0 {
        Seq::empty()
    } else {
        seq![(s[0].0@, s[0].1.view())] + view_entries(s.drop_first())
    }
}

/// The view of an item list is the item-wise view.
pub proof fn lemma_view_items(s: Seq<Json>)
    ensures
        view_items(s).len() == s.len(),
        forall|i: int| 0 <= i < s.len() ==> view_items(s)[i] == s[i].view(),
    decreases s,
{
    if s.len() > 0 {
        lemma_view_items(s.drop_first());
    }
}

/// The view of an entry list is the entry-wise view.
pub proof fn lemma_view_entries(s: Seq<(String, Json)>)
    ensures
        view_entries(s).len() == s.len(),
        forall|i: int| 0 <= i < s.len() ==> view_entries(s)[i] == (s[i].0@, s[i].1.view()),
    decreases s,
{
    if s.len() > 0 {
        lemma_view_entries(s.drop_first());
    }
}

/// The entry views of two appended lists are the appended entry
/// views.
pub proof fn lemma_view_entries_concat(a: Seq<(String, Json)>, b: Seq<(String, Json)>)
    ensures
        view_entries(a + b) == view_entries(a) + view_entries(b),
    decreases a,
{
    if a.len() == 0 {
        assert(a + b =~= b);
        assert(view_entries(a) =~= Seq::<(Seq<char>, JsonV)>::empty());
        assert(view_entries(a) + view_entries(b) =~= view_entries(b));
    } else {
        assert((a + b)[0] == a[0]);
        assert((a + b).drop_first() =~= a.drop_first() + b);
        lemma_view_entries_concat(a.drop_first(), b);
        assert(view_entries(a + b) =~= view_entries(a) + view_entries(b));
    }
}

/// Appending an entry appends its view.
pub broadcast proof fn lemma_view_entries_push(s: Seq<(String, Json)>, e: (String, Json))
    ensures
        #[trigger] view_entries(s.push(e)) == view_entries(s).push((e.0@, e.1.view())),
{
    assert(s.push(e) =~= s + seq![e]);
    lemma_view_entries_concat(s, seq![e]);
    assert(view_entries(Seq::<(String, Json)>::empty()) == Seq::<(Seq<char>, JsonV)>::empty());
    assert(view_entries(seq![e]) =~= seq![(e.0@, e.1.view())]) by {
        assert(seq![e].drop_first() =~= Seq::<(String, Json)>::empty());
    }
    assert(view_entries(s) + seq![(e.0@, e.1.view())] =~= view_entries(s).push(
        (e.0@, e.1.view()),
    ));
}

/// Appending an item appends its view.
pub broadcast proof fn lemma_view_items_push(s: Seq<Json>, e: Json)
    ensures
        #[trigger] view_items(s.push(e)) == view_items(s).push(e.view()),
    decreases s,
{
    assert(view_items(Seq::<Json>::empty()) == Seq::<JsonV>::empty());
    if s.len() == 0 {
        assert(s =~= Seq::<Json>::empty());
        assert(s.push(e).drop_first() =~= Seq::<Json>::empty());
        assert(s.push(e)[0] == e);
        assert(view_items(s.push(e)) =~= view_items(s).push(e.view()));
    } else {
        assert(s.push(e)[0] == s[0]);
        assert(s.push(e).drop_first() =~= s.drop_first().push(e));
        lemma_view_items_push(s.drop_first(), e);
        assert(view_items(s.push(e)) =~= view_items(s).push(e.view()));
    }
}

/// Whether some entry of the table carries the given key.
pub open spec fn has_key<V>(s: Seq<(Seq<char>, V)>, k: Seq<char>) -> bool {
    exists|i: int| 0 <= i < s.len() && s[i].0 == k
}

/// The value stored under the given key (the first match counts).
pub open spec fn lookup<V>(s: Seq<(Seq<char>, V)>, k: Seq<char>) -> Option<V>
    decreases s,
{
    if s.len() == 0 {
        None
    } else if s[0].0 == k {
        Some(s[0].1)
    } else {
        lookup(s.drop_first(), k)
    }
}

/// No key appears on two different entries.
pub open spec fn keys_unique<V>(s: Seq<(Seq<char>, V)>) -> bool {
    forall|i: int, j: int| 0 <= i < j < s.len() ==> s[i].0 != s[j].0
}

/// Every object of the document has pairwise distinct keys.
pub open spec fn wf(v: JsonV) -> bool
    decreases v,
{
    match v {
        JsonV::Arr(s) => forall|i: int| 0 <= i < s.len() ==> wf(#[trigger] s[i]),
        JsonV::Obj(s) => keys_unique(s) && (forall|i: int|
            0 <= i < s.len() ==> wf((#[trigger] s[i]).1)),
        _ => true,
    }
}

/// Stores `v` under `k`: an entry already carrying `k` keeps its place
/// and has its value replaced; otherwise the pair is appended.
pub open spec fn obj_insert<V>(
    s: Seq<(Seq<char>, V)>,
    k: Seq<char>,
    v: V,
) -> Seq<(Seq<char>, V)>
    decreases s,
{
    if s.len() == 0 {
        seq![(k, v)]
    } else if s[0].0 == k {
        seq![(k, v)] + s.drop_first()
    } else {
        seq![s[0]] + obj_insert(s.drop_first(), k, v)
    }
}

/// Stores every entry of `other` into `base`, in order.
pub open spec fn obj_merge<V>(
    base: Seq<(Seq<char>, V)>,
    other: Seq<(Seq<char>, V)>,
) -> Seq<(Seq<char>, V)>
    decreases other,
{
    if other.len() == 0 {
        base
    } else {
        obj_merge(obj_insert(base, other[0].0, other[0].1), other.drop_first())
    }
}

/// A non-empty object carries a key exactly when its head does or its
/// tail does.
pub proof fn lemma_has_key_unfold<V>(s: Seq<(Seq<char>, V)>, k: Seq<char>)
    requires
        s.len() > 0,
    ensures
        has_key(s, k) <==> (s[0].0 == k || has_key(s.drop_first(), k)),
{
    if has_key(s, k) {
        let i = choose|i: int| 0 <= i < s.len() && s[i].0 == k;
        if i > 0 {
            assert(s.drop_first()[i - 1].0 == k);
        }
    }
    if s[0].0 == k {
        assert(s[0].0 == k);
        assert(has_key(s, k));
    }
    if has_key(s.drop_first(), k) {
        let j = choose|j: int| 0 <= j < s.drop_first().len() && s.drop_first()[j].0 == k;
        assert(s[j + 1].0 == k);
    }
}

/// A key list with a distinct head stays duplicate-free exactly when
/// its tail does.
pub proof fn lemma_keys_unique_unfold<V>(s: Seq<(Seq<char>, V)>)
    requires
        s.len() > 0,
    ensures
        keys_unique(s) <==> (!has_key(s.drop_first(), s[0].0) && keys_unique(s.drop_first())),
{
    lemma_has_key_unfold(s, s[0].0);
    if !has_key(s.drop_first(), s[0].0) && keys_unique(s.drop_first()) {
        assert forall|i: int, j: int| 0 <= i < j < s.len() implies s[i].0 != s[j].0 by {
            if i == 0 {
                if s[j].0 == s[0].0 {
                    assert(s.drop_first()[j - 1].0 == s[0].0);
                    assert(has_key(s.drop_first(), s[0].0));
                }
            } else {
                assert(s.drop_first()[i - 1].0 == s[i].0);
                assert(s.drop_first()[j - 1].0 == s[j].0);
            }
        }
    }
    if keys_unique(s) {
        if has_key(s.drop_first(), s[0].0) {
            let j = choose|j: int| 0 <= j < s.drop_first().len() && s.drop_first()[j].0
                == s[0].0;
            assert(s[j + 1].0 == s[0].0);
            assert(s[0].0 != s[j + 1].0);
        }
        assert forall|i: int, j: int|
            0 <= i < j < s.drop_first().len()
            implies s.drop_first()[i].0 != s.drop_first()[j].0 by {
            assert(s[i + 1].0 != s[j + 1].0);
        }
    }
}

/// What `obj_insert` does to keys and values.
pub proof fn lemma_obj_insert<V>(s: Seq<(Seq<char>, V)>, k: Seq<char>, v: V)
    ensures
        forall|k2: Seq<char>|
            has_key(obj_insert(s, k, v), k2) <==> (k2 == k || #[trigger] has_key(s, k2)),
        lookup(obj_insert(s, k, v), k) == Some(v),
        forall|k2: Seq<char>|
            k2 != k ==> #[trigger] lookup(obj_insert(s, k, v), k2) == lookup(s, k2),
        keys_unique(s) ==> keys_unique(obj_insert(s, k, v)),
        !has_key(s, k) ==> obj_insert(s, k, v) == s.push((k, v)),
        has_key(s, k) ==> obj_insert(s, k, v).len() == s.len(),
    decreases s,
{
    let r = obj_insert(s, k, v);
    if s.len() == 0 {
        assert(r == seq![(k, v)]);
        assert forall|k2: Seq<char>|
            has_key(r, k2) <==> (k2 == k || #[trigger] has_key(s, k2)) by {
            lemma_has_key_unfold(r, k2);
            assert(!has_key(r.drop_first(), k2));
            assert(!has_key(s, k2));
        }
        assert forall|k2: Seq<char>|
            k2 != k implies #[trigger] lookup(r, k2) == lookup(s, k2) by {
            assert(r.drop_first() =~= Seq::<(Seq<char>, V)>::empty());
            assert(lookup(r, k2) == lookup(r.drop_first(), k2));
            assert(lookup(r.drop_first(), k2) == None::<V>);
        }
        assert(r =~= s.push((k, v)));
        assert(keys_unique(r));
    } else if s[0].0 == k {
        assert(r == seq![(k, v)] + s.drop_first());
        assert(r.drop_first() =~= s.drop_first());
        assert forall|k2: Seq<char>|
            has_key(r, k2) <==> (k2 == k || #[trigger] has_key(s, k2)) by {
            lemma_has_key_unfold(r, k2);
            lemma_has_key_unfold(s, k2);
        }
        assert(has_key(s, k)) by {
            lemma_has_key_unfold(s, k);
        }
        assert forall|k2: Seq<char>|
            k2 != k implies #[trigger] lookup(r, k2) == lookup(s, k2) by {
            assert(lookup(r, k2) == lookup(r.drop_first(), k2));
            assert(lookup(s, k2) == lookup(s.drop_first(), k2));
        }
        if keys_unique(s) {
            lemma_keys_unique_unfold(s);
            lemma_keys_unique_unfold(r);
        }
    } else {
        lemma_obj_insert(s.drop_first(), k, v);
        let rt = obj_insert(s.drop_first(), k, v);
        assert(r == seq![s[0]] + rt);
        assert(r.drop_first() =~= rt);
        assert(r[0] == s[0]);
        assert forall|k2: Seq<char>|
            has_key(r, k2) <==> (k2 == k || #[trigger] has_key(s, k2)) by {
            lemma_has_key_unfold(r, k2);
            lemma_has_key_unfold(s, k2);
        }
        assert forall|k2: Seq<char>|
            k2 != k implies #[trigger] lookup(r, k2) == lookup(s, k2) by {
            if s[0].0 != k2 {
                assert(lookup(r, k2) == lookup(r.drop_first(), k2));
                assert(lookup(rt, k2) == lookup(s.drop_first(), k2));
                assert(lookup(s, k2) == lookup(s.drop_first(), k2));
            }
        }
        lemma_has_key_unfold(s, k);
        if !has_key(s, k) {
            assert(rt == s.drop_first().push((k, v)));
            assert(r =~= s.push((k, v)));
        }
        if keys_unique(s) {
            lemma_keys_unique_unfold(s);
            assert(keys_unique(rt));
            lemma_keys_unique_unfold(r);
            assert(!has_key(rt, s[0].0)) by {
                assert(s[0].0 != k);
            }
        }
    }
}

/// The table read as a map: under each key the value of the last entry
/// carrying it.
pub open spec fn entries_map<V>(s: Seq<(Seq<char>, V)>) -> Map<Seq<char>, V>
    decreases s,
{
    if s.len() == 0 {
        Map::empty()
    } else {
        entries_map(s.drop_last()).insert(s.last().0, s.last().1)
    }
}

/// Every entry of an inserted table is the inserted pair or one of the
/// old entries.
pub proof fn lemma_obj_insert_members<V>(s: Seq<(Seq<char>, V)>, k: Seq<char>, v: V)
    ensures
        forall|m: int|
            0 <= m < obj_insert(s, k, v).len() ==> (obj_insert(s, k, v)[m] == (k, v)
                || s.contains(#[trigger] obj_insert(s, k, v)[m])),
    decreases s,
{
    let r = obj_insert(s, k, v);
    if s.len() == 0 {
    } else if s[0].0 == k {
        assert forall|m: int| 0 <= m < r.len() implies (r[m] == (k, v) || s.contains(
            #[trigger] r[m],
        )) by {
            if m > 0 {
                assert(r[m] == s[m]);
            }
        }
    } else {
        lemma_obj_insert_members(s.drop_first(), k, v);
        let rt = obj_insert(s.drop_first(), k, v);
        assert forall|m: int| 0 <= m < r.len() implies (r[m] == (k, v) || s.contains(
            #[trigger] r[m],
        )) by {
            if m == 0 {
                assert(r[0] == s[0]);
            } else {
                assert(r[m] == rt[m - 1]);
                if rt[m - 1] != (k, v) {
                    let j = choose|j: int| 0 <= j < s.drop_first().len() && s.drop_first()[j]
                        == rt[m - 1];
                    assert(s[j + 1] == rt[m - 1]);
                }
            }
        }
    }
}

/// Replacing the value at a key of a duplicate-free table updates the
/// map it denotes.
proof fn lemma_entries_map_update<V>(s: Seq<(Seq<char>, V)>, i: int, k: Seq<char>, v: V)
    requires
        0 <= i < s.len(),
        s[i].0 == k,
        keys_unique(s),
    ensures
        entries_map(s.update(i, (k, v))) == entries_map(s).insert(k, v),
    decreases s,
{
    let u = s.update(i, (k, v));
    if i == s.len() - 1 {
        assert(u.drop_last() =~= s.drop_last());
        assert(u.last() == (k, v));
        assert(s.last().0 == k);
        assert(entries_map(u) == entries_map(s.drop_last()).insert(k, v));
        assert(entries_map(s).insert(k, v) =~= entries_map(s.drop_last()).insert(
            s.last().0,
            s.last().1,
        ).insert(k, v));
        assert(entries_map(s.drop_last()).insert(s.last().0, s.last().1).insert(k, v)
            =~= entries_map(s.drop_last()).insert(k, v));
    } else {
        assert(u.drop_last() =~= s.drop_last().update(i, (k, v)));
        assert(u.last() == s.last());
        assert(keys_unique(s.drop_last())) by {
            assert forall|a: int, b: int|
                0 <= a < b < s.drop_last().len()
                implies s.drop_last()[a].0 != s.drop_last()[b].0 by {
                assert(s[a].0 != s[b].0);
            }
        }
        assert(s.drop_last()[i].0 == k) by {
            assert(s.drop_last()[i] == s[i]);
        }
        lemma_entries_map_update(s.drop_last(), i, k, v);
        assert(s.last().0 != k) by {
            assert(s[i].0 != s[s.len() - 1].0);
        }
        assert(entries_map(u) == entries_map(s.drop_last()).insert(k, v).insert(
            s.last().0,
            s.last().1,
        ));
        assert(entries_map(s.drop_last()).insert(k, v).insert(s.last().0, s.last().1)
            =~= entries_map(s.drop_last()).insert(s.last().0, s.last().1).insert(k, v));
    }
}

/// Inserting into a duplicate-free table inserts into the map it
/// denotes.
pub proof fn lemma_entries_map_insert<V>(s: Seq<(Seq<char>, V)>, k: Seq<char>, v: V)
    requires
        keys_unique(s),
    ensures
        entries_map(obj_insert(s, k, v)) == entries_map(s).insert(k, v),
{
    lemma_obj_insert(s, k, v);
    if has_key(s, k) {
        let i = choose|i: int| 0 <= i < s.len() && s[i].0 == k;
        assert forall|j: int| 0 <= j < i implies (#[trigger] s[j]).0 != k by {
            assert(s[j].0 != s[i].0);
        }
        lemma_obj_insert_found(s, k, v, i);
        lemma_entries_map_update(s, i, k, v);
    } else {
        assert(obj_insert(s, k, v) == s.push((k, v)));
        assert(s.push((k, v)).drop_last() =~= s);
        assert(entries_map(s.push((k, v))) == entries_map(s).insert(k, v));
    }
}

/// What `json_merge` yields: the entry-wise merge where both sides are
/// objects, and `Null` anywhere else.
pub open spec fn spec_json_merge(a: JsonV, b: JsonV) -> JsonV {
    match (a, b) {
        (JsonV::Obj(x), JsonV::Obj(y)) => JsonV::Obj(obj_merge(x, y)),
        _ => JsonV::Null,
    }
}

/// Stores `value` under `field` when `json` is an object; any other
/// value is left untouched.  An entry already carrying `field` keeps
/// its place and has its value replaced; otherwise the pair is
/// appended.
pub fn json_insert(json: &mut Json, field: &str, value: Json)
    ensures
        old(json)@ matches JsonV::Obj(es) ==> final(json)@ == JsonV::Obj(
            obj_insert(es, field@, value@),
        ),
        !(old(json)@ matches JsonV::Obj(_)) ==> final(json)@ == old(json)@,
{
    match json {
        Json::Obj(entries) => {
            obj_set(entries, field, value);
        },
        _ => {},
    }
}

/// Stores `value` under `field`, replacing in place or appending.
fn obj_set(entries: &mut Vec<(String, Json)>, field: &str, value: Json)
    ensures
        view_entries(final(entries)@) == obj_insert(view_entries(old(entries)@), field@, value@),
{
    let ghost s0 = view_entries(old(entries)@);
    proof {
        lemma_view_entries(old(entries)@);
    }
    let n = entries.len();
    for i in 0..n
        invariant
            n == entries@.len(),
            entries@ == old(entries)@,
            s0 == view_entries(entries@),
            s0.len() == n,
            forall|j: int| 0 <= j < n ==> s0[j] == ((#[trigger] entries@[j]).0@, entries@[j].1@),
            forall|j: int| 0 <= j < i ==> (#[trigger] s0[j]).0 != field@,
    {
        if crate::text::str_eq(entries[i].0.as_str(), field) {
            proof {
                assert(s0[i as int].0 == field@);
            }
            let key = field.to_owned();
            entries[i] = (key, value);
            proof {
                lemma_view_entries(entries@);
                lemma_obj_insert_found(s0, field@, value@, i as int);
                assert(view_entries(entries@) =~= s0.update(i as int, (field@, value@)));
            }
            return ;
        }
    }
    let key = field.to_owned();
    entries.push((key, value));
    proof {
        assert(!has_key(s0, field@)) by {
            if has_key(s0, field@) {
                let i = choose|i: int| 0 <= i < s0.len() && s0[i].0 == field@;
                assert(s0[i].0 != field@);
            }
        }
        lemma_obj_insert(s0, field@, value@);
        lemma_view_entries(entries@);
        assert(view_entries(entries@) =~= s0.push((field@, value@)));
    }
}

/// Replacing the first entry that carries `k` is an in-place update.
pub proof fn lemma_obj_insert_found<V>(s: Seq<(Seq<char>, V)>, k: Seq<char>, v: V, i: int)
    requires
        0 <= i < s.len(),
        s[i].0 == k,
        forall|j: int| 0 <= j < i ==> (#[trigger] s[j]).0 != k,
    ensures
        obj_insert(s, k, v) == s.update(i, (k, v)),
    decreases s,
{
    if i == 0 {
        assert(obj_insert(s, k, v) =~= s.update(0, (k, v)));
    } else {
        assert(s.drop_first()[i - 1].0 == k);
        assert forall|j: int| 0 <= j < i - 1 implies (#[trigger] s.drop_first()[j]).0 != k by {
            assert(s[j + 1].0 != k);
        }
        lemma_obj_insert_found(s.drop_first(), k, v, i - 1);
        assert(obj_insert(s, k, v) =~= s.update(i, (k, v)));
    }
}

/// Merges two objects, later entries replacing earlier values key by
/// key; anything but a pair of objects merges to `Null`.
pub fn json_merge(json1: Json, json2: Json) -> (r: Json)
    ensures
        r@ == spec_json_merge(json1@, json2@),
{
    match (json1, json2) {
        (Json::Obj(base), Json::Obj(other)) => Json::Obj(merge_json_objects(base, other)),
        _ => Json::Null,
    }
}

/// Stores every entry of `other` into `base`, in order.
pub fn merge_json_objects(
    base: Vec<(String, Json)>,
    other: Vec<(String, Json)>,
) -> (r: Vec<(String, Json)>)
    ensures
        view_entries(r@) == obj_merge(view_entries(base@), view_entries(other@)),
{
    let ghost b0 = view_entries(base@);
    let ghost o0 = view_entries(other@);
    let mut cur = Json::Obj(base);
    let mut rest = other;
    proof {
        lemma_view_entries(rest@);
    }
    while rest.len() > 0
        invariant
            cur@ matches JsonV::Obj(c) && obj_merge(b0, o0) == obj_merge(c, view_entries(rest@)),
        decreases rest.len(),
    {
        let ghost cpre = match cur@ {
            JsonV::Obj(c) => c,
            _ => Seq::empty(),
        };
        let ghost rpre = view_entries(rest@);
        let (key, value) = rest.remove(0);
        proof {
            lemma_view_entries(rest@);
            assert(view_entries(rest@) =~= rpre.drop_first()) by {
                lemma_view_entries(rest@);
            }
        }
        json_insert(&mut cur, key.as_str(), value);
    }
    match cur {
        Json::Obj(entries) => {
            proof {
                assert(view_entries(rest@) =~= Seq::empty());
            }
            entries
        },
        _ => {
            proof {
                assert(false);
            }
            Vec::new()
        },
    }
}

} // verus!
