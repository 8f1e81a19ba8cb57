//! The Selector: filters the bundled asset store down to the requested
//! groups and computes each asset's destination-relative path.
//!
//! An asset belongs to the group named by the first segment of its
//! store path; its destination-relative path is the remainder.  When
//! two requested groups hold the same relative path, the group
//! standing later in the requested list wins.

use vstd::prelude::*;

use crate::json::{
    entries_map, has_key, keys_unique, lemma_entries_map_insert, lemma_obj_insert,
    lemma_obj_insert_found, lemma_obj_insert_members, obj_insert,
};
use crate::text::str_eq;

verus! {

/// The position of the first separator, or the length when there is
/// none.
pub open spec fn first_slash(p: Seq<char>) -> int
    decreases p,
{
    if p.len() == 0 {
        0
    } else if (p[0] as u32) == 47 {
        0
    } else {
        1 + first_slash(p.drop_first())
    }
}

/// Where the first separator stands: nothing before it is one, and it
/// is one unless the path has none at all.
pub proof fn lemma_first_slash(p: Seq<char>)
    ensures
        0 <= first_slash(p) <= p.len(),
        first_slash(p) < p.len() ==> (p[first_slash(p)] as u32) == 47,
        forall|i: int| 0 <= i < first_slash(p) ==> (#[trigger] p[i] as u32) != 47,
    decreases p,
{
    if p.len() > 0 && (p[0] as u32) != 47 {
        lemma_first_slash(p.drop_first());
        assert forall|i: int| 0 <= i < first_slash(p) implies (#[trigger] p[i] as u32) != 47 by {
            if i > 0 {
                assert(p.drop_first()[i - 1] as u32 != 47);
            }
        }
    }
}

/// Only one position can be the first separator.
proof fn lemma_first_slash_at(p: Seq<char>, k: int)
    requires
        0 <= k <= p.len(),
        k < p.len() ==> (p[k] as u32) == 47,
        k == p.len() ==> forall|i: int| 0 <= i < p.len() ==> (#[trigger] p[i] as u32) != 47,
        forall|i: int| 0 <= i < k ==> (#[trigger] p[i] as u32) != 47,
    ensures
        first_slash(p) == k,
    decreases p,
{
    if p.len() > 0 && (p[0] as u32) != 47 {
        assert(k > 0);
        assert forall|i: int| 0 <= i < k - 1 implies (#[trigger] p.drop_first()[i] as u32)
            != 47 by {
            assert(p[i + 1] as u32 != 47);
        }
        if k == p.len() {
            assert forall|i: int|
                0 <= i < p.drop_first().len() implies (#[trigger] p.drop_first()[i] as u32)
                != 47 by {
                assert(p[i + 1] as u32 != 47);
            }
        } else {
            assert(p.drop_first()[k - 1] as u32 == 47);
        }
        lemma_first_slash_at(p.drop_first(), k - 1);
    }
}

/// The group a store path belongs to: everything before the first
/// separator.
pub open spec fn first_seg(p: Seq<char>) -> Seq<char> {
    p.take(first_slash(p))
}

/// The destination-relative path of a store path: everything behind
/// the first separator, or nothing when there is none.
pub open spec fn rest_after_seg(p: Seq<char>) -> Seq<char> {
    if first_slash(p) == p.len() {
        Seq::empty()
    } else {
        p.skip(first_slash(p) + 1)
    }
}

/// The assets of one group, in store order: each as its
/// (destination-relative path, store path) pair.
pub open spec fn group_assets(store: Seq<Seq<char>>, g: Seq<char>) -> Seq<(Seq<char>, Seq<char>)>
    decreases store,
{
    if store.len() == 0 {
        Seq::empty()
    } else {
        (if first_seg(store[0]) == g {
            seq![(rest_after_seg(store[0]), store[0])]
        } else {
            Seq::empty()
        }) + group_assets(store.drop_first(), g)
    }
}

/// One more store path contributes one more pair, or none.
proof fn lemma_group_assets_snoc(store: Seq<Seq<char>>, p: Seq<char>, g: Seq<char>)
    ensures
        group_assets(store.push(p), g) == if first_seg(p) == g {
            group_assets(store, g).push((rest_after_seg(p), p))
        } else {
            group_assets(store, g)
        },
    decreases store,
{
    let s = store.push(p);
    if store.len() == 0 {
        assert(s[0] == p);
        assert(s.drop_first() =~= Seq::<Seq<char>>::empty());
        assert(group_assets(s.drop_first(), g) =~= Seq::<(Seq<char>, Seq<char>)>::empty());
        if first_seg(p) == g {
            assert(group_assets(s, g) =~= group_assets(store, g).push((rest_after_seg(p), p)));
        } else {
            assert(group_assets(s, g) =~= group_assets(store, g));
        }
    } else {
        assert(s[0] == store[0]);
        assert(s.drop_first() =~= store.drop_first().push(p));
        lemma_group_assets_snoc(store.drop_first(), p, g);
        if first_seg(p) == g {
            assert(group_assets(s, g) =~= group_assets(store, g).push((rest_after_seg(p), p)));
        } else {
            assert(group_assets(s, g) =~= group_assets(store, g));
        }
    }
}

/// The selection: group by group in requested order, each group's
/// assets layered over what the earlier groups produced.
pub open spec fn selected_map(store: Seq<Seq<char>>, groups: Seq<Seq<char>>) -> Map<
    Seq<char>,
    Seq<char>,
>
    decreases groups,
{
    if groups.len() == 0 {
        Map::empty()
    } else {
        selected_map(store, groups.drop_last()).union_prefer_right(
            entries_map(group_assets(store, groups.last())),
        )
    }
}

/// The views of a list of (relative path, store path) pairs.
pub open spec fn pairs_view(s: Seq<(String, String)>) -> Seq<(Seq<char>, Seq<char>)> {
    s.map_values(|p: (String, String)| (p.0@, p.1@))
}

/// The views of a list of names.
pub open spec fn names_view(s: Seq<String>) -> Seq<Seq<char>> {
    s.map_values(|n: String| n@)
}

/// Inserting on the right side first is the same as inserting into the
/// union.
proof fn lemma_union_insert(
    a: Map<Seq<char>, Seq<char>>,
    b: Map<Seq<char>, Seq<char>>,
    k: Seq<char>,
    v: Seq<char>,
)
    ensures
        a.union_prefer_right(b).insert(k, v) == a.union_prefer_right(b.insert(k, v)),
{
    assert(a.union_prefer_right(b).insert(k, v) =~= a.union_prefer_right(b.insert(k, v)));
}

/// Whether a `..` component stands at position `i` of the path.
pub open spec fn dotdot_at(p: Seq<char>, i: int) -> bool {
    &&& 0 <= i
    &&& i + 2 <= p.len()
    &&& (p[i] as u32) == 46
    &&& (p[i + 1] as u32) == 46
    &&& (i == 0 || (p[i - 1] as u32) == 47)
    &&& (i + 2 == p.len() || (p[i + 2] as u32) == 47)
}

/// A path escapes its root when it is absolute or climbs out through
/// a `..` component.
pub open spec fn path_escapes(p: Seq<char>) -> bool {
    crate::file::is_absolute(p) || (exists|i: int| dotdot_at(p, i))
}

/// A sound store path: non-empty, relative, without empty components
/// and without `..` components.
pub open spec fn store_path_ok(p: Seq<char>) -> bool {
    &&& p.len() > 0
    &&& (p[0] as u32) != 47
    &&& (forall|i: int|
        0 <= i < p.len() - 1 ==> !((#[trigger] p[i] as u32) == 47 && (p[i + 1] as u32) == 47))
    &&& !(exists|i: int| dotdot_at(p, i))
}

/// The destination-relative path of a sound store path cannot escape
/// the destination root.
pub proof fn lemma_rest_no_escape(p: Seq<char>)
    requires
        store_path_ok(p),
    ensures
        !path_escapes(rest_after_seg(p)),
{
    lemma_first_slash(p);
    let k = first_slash(p);
    let rel = rest_after_seg(p);
    if k == p.len() {
        assert(rel.len() == 0);
        assert(!crate::file::is_absolute(rel));
        assert(!(exists|i: int| dotdot_at(rel, i))) by {
            if exists|i: int| dotdot_at(rel, i) {
                let i = choose|i: int| dotdot_at(rel, i);
            }
        }
    } else {
        assert((p[k] as u32) == 47);
        assert(rel =~= p.skip(k + 1));
        if rel.len() > 0 {
            assert(rel[0] == p[k + 1]);
            assert((p[k] as u32) == 47 && k < p.len() - 1 ==> (p[k + 1] as u32) != 47);
            assert(!crate::file::is_absolute(rel));
        }
        assert(!(exists|i: int| dotdot_at(rel, i))) by {
            if exists|i: int| dotdot_at(rel, i) {
                let i = choose|i: int| dotdot_at(rel, i);
                assert(rel[i] == p[i + k + 1]);
                assert(rel[i + 1] == p[i + k + 2]);
                assert(dotdot_at(p, i + k + 1)) by {
                    if i == 0 {
                        assert((p[k] as u32) == 47);
                    } else {
                        assert(rel[i - 1] == p[i + k]);
                    }
                    if i + 2 < rel.len() {
                        assert(rel[i + 2] == p[i + k + 3]);
                    }
                }
            }
        }
    }
}

/// No destination-relative path the Selector returns escapes the
/// destination root, whatever groups were requested, as long as every
/// store path is sound.
pub proof fn lemma_selector_no_escape(
    store: Seq<Seq<char>>,
    groups: Seq<Seq<char>>,
    sel: Seq<(Seq<char>, Seq<char>)>,
)
    requires
        forall|j: int| 0 <= j < store.len() ==> store_path_ok(#[trigger] store[j]),
        forall|i: int|
            0 <= i < sel.len() ==> exists|j: int|
                0 <= j < store.len() && (#[trigger] sel[i]) == (
                    rest_after_seg(store[j]),
                    store[j],
                ) && groups.contains(first_seg(store[j])),
    ensures
        forall|i: int| 0 <= i < sel.len() ==> !path_escapes((#[trigger] sel[i]).0),
{
    assert forall|i: int| 0 <= i < sel.len() implies !path_escapes((#[trigger] sel[i]).0) by {
        let j = choose|j: int|
            0 <= j < store.len() && sel[i] == (rest_after_seg(store[j]), store[j])
                && groups.contains(first_seg(store[j]));
        lemma_rest_no_escape(store[j]);
    }
}

/// No two requested groups hold an asset at the same
/// destination-relative path.
pub open spec fn groups_disjoint(store: Seq<Seq<char>>, groups: Seq<Seq<char>>) -> bool {
    forall|g1: Seq<char>, g2: Seq<char>, rel: Seq<char>|
        groups.contains(g1) && groups.contains(g2) && g1 != g2 && #[trigger] entries_map(
            group_assets(store, g1),
        ).contains_key(rel) ==> !(#[trigger] entries_map(group_assets(store, g2)).contains_key(
            rel,
        ))
}

/// With collision-free groups, what the Selector yields is determined
/// group by group: a relative path is selected exactly when one of the
/// requested groups holds it, and its source is that group's asset.
proof fn lemma_selected_characterized(store: Seq<Seq<char>>, groups: Seq<Seq<char>>)
    requires
        groups_disjoint(store, groups),
    ensures
        forall|rel: Seq<char>|
            #[trigger] selected_map(store, groups).contains_key(rel) <==> exists|g: Seq<char>|
                groups.contains(g) && #[trigger] entries_map(group_assets(store, g)).contains_key(
                    rel,
                ),
        forall|g: Seq<char>, rel: Seq<char>|
            groups.contains(g) && #[trigger] entries_map(group_assets(store, g)).contains_key(rel)
                ==> selected_map(store, groups)[rel] == entries_map(group_assets(store, g))[rel],
    decreases groups,
{
    if groups.len() == 0 {
        assert forall|rel: Seq<char>|
            #[trigger] selected_map(store, groups).contains_key(rel) <==> exists|g: Seq<char>|
                groups.contains(g) && #[trigger] entries_map(group_assets(store, g)).contains_key(
                    rel,
                ) by {
            assert(!selected_map(store, groups).contains_key(rel));
            if exists|g: Seq<char>|
                groups.contains(g) && #[trigger] entries_map(group_assets(store, g)).contains_key(
                    rel,
                ) {
                let g = choose|g: Seq<char>|
                    groups.contains(g) && #[trigger] entries_map(
                        group_assets(store, g),
                    ).contains_key(rel);
            }
        }
    } else {
        let pre = groups.drop_last();
        let gl = groups.last();
        assert(groups_disjoint(store, pre)) by {
            assert(forall|g: Seq<char>| pre.contains(g) ==> #[trigger] groups.contains(g)) by {
                assert forall|g: Seq<char>| pre.contains(g) implies #[trigger] groups.contains(
                    g,
                ) by {
                    let i = choose|i: int| 0 <= i < pre.len() && pre[i] == g;
                    assert(groups[i] == g);
                }
            }
        }
        lemma_selected_characterized(store, pre);
        assert(groups.contains(gl)) by {
            assert(groups[groups.len() - 1] == gl);
        }
        assert(forall|g: Seq<char>| pre.contains(g) ==> #[trigger] groups.contains(g)) by {
            assert forall|g: Seq<char>| pre.contains(g) implies #[trigger] groups.contains(g) by {
                let i = choose|i: int| 0 <= i < pre.len() && pre[i] == g;
                assert(groups[i] == g);
            }
        }
        assert forall|rel: Seq<char>|
            #[trigger] selected_map(store, groups).contains_key(rel) <==> exists|g: Seq<char>|
                groups.contains(g) && #[trigger] entries_map(group_assets(store, g)).contains_key(
                    rel,
                ) by {
            if selected_map(store, groups).contains_key(rel) {
                if entries_map(group_assets(store, gl)).contains_key(rel) {
                    assert(groups.contains(gl) && entries_map(
                        group_assets(store, gl),
                    ).contains_key(rel));
                } else {
                    assert(selected_map(store, pre).contains_key(rel));
                    let g = choose|g: Seq<char>|
                        pre.contains(g) && #[trigger] entries_map(
                            group_assets(store, g),
                        ).contains_key(rel);
                    assert(groups.contains(g));
                }
            }
            if exists|g: Seq<char>|
                groups.contains(g) && #[trigger] entries_map(group_assets(store, g)).contains_key(
                    rel,
                ) {
                let g = choose|g: Seq<char>|
                    groups.contains(g) && #[trigger] entries_map(
                        group_assets(store, g),
                    ).contains_key(rel);
                let i = choose|i: int| 0 <= i < groups.len() && groups[i] == g;
                if i < groups.len() - 1 {
                    assert(pre[i] == g);
                    assert(pre.contains(g));
                    assert(selected_map(store, pre).contains_key(rel));
                } else {
                    assert(g == gl);
                }
            }
        }
        assert forall|g: Seq<char>, rel: Seq<char>|
            groups.contains(g) && #[trigger] entries_map(group_assets(store, g)).contains_key(rel)
            implies selected_map(store, groups)[rel] == entries_map(group_assets(store, g))[rel] by {
            let i = choose|i: int| 0 <= i < groups.len() && groups[i] == g;
            if g == gl {
                assert(selected_map(store, groups)[rel] == entries_map(
                    group_assets(store, gl),
                )[rel]);
            } else {
                assert(i < groups.len() - 1) by {
                    if i == groups.len() - 1 {
                        assert(groups[i] == gl);
                    }
                }
                assert(pre[i] == g);
                assert(pre.contains(g));
                assert(selected_map(store, pre)[rel] == entries_map(group_assets(store, g))[rel]);
                assert(!entries_map(group_assets(store, gl)).contains_key(rel));
            }
        }
    }
}

/// With collision-free groups, reordering the requested list leaves
/// the selection unchanged: only which groups are requested matters.
pub proof fn lemma_selector_order_irrelevant(
    store: Seq<Seq<char>>,
    groups1: Seq<Seq<char>>,
    groups2: Seq<Seq<char>>,
)
    requires
        groups1.to_multiset() == groups2.to_multiset(),
        groups_disjoint(store, groups1),
    ensures
        selected_map(store, groups1) == selected_map(store, groups2),
{
    assert forall|g: Seq<char>| groups1.contains(g) <==> #[trigger] groups2.contains(g) by {
        broadcast use vstd::seq_lib::group_to_multiset_ensures;

        assert(groups1.contains(g) <==> groups1.to_multiset().count(g) > 0);
        assert(groups2.contains(g) <==> groups2.to_multiset().count(g) > 0);
        assert(groups1.to_multiset().count(g) == groups2.to_multiset().count(g));
    }
    assert(groups_disjoint(store, groups2));
    lemma_selected_characterized(store, groups1);
    lemma_selected_characterized(store, groups2);
    let m1 = selected_map(store, groups1);
    let m2 = selected_map(store, groups2);
    assert forall|rel: Seq<char>| #[trigger] m1.contains_key(rel) implies m2.contains_key(rel)
        && m1[rel] == m2[rel] by {
        let g = choose|g: Seq<char>|
            groups1.contains(g) && #[trigger] entries_map(group_assets(store, g)).contains_key(
                rel,
            );
        assert(groups2.contains(g));
    }
    assert forall|rel: Seq<char>| #[trigger] m2.contains_key(rel) implies m1.contains_key(rel) by {
        let g = choose|g: Seq<char>|
            groups2.contains(g) && #[trigger] entries_map(group_assets(store, g)).contains_key(
                rel,
            );
        assert(groups1.contains(g));
    }
    assert(m1 =~= m2);
}

/// Every asset of a group carries that group as its first segment.
proof fn lemma_group_assets_members(store: Seq<Seq<char>>, g: Seq<char>)
    ensures
        forall|i: int|
            0 <= i < group_assets(store, g).len() ==> first_seg(
                (#[trigger] group_assets(store, g)[i]).1,
            ) == g,
    decreases store,
{
    if store.len() > 0 {
        lemma_group_assets_members(store.drop_first(), g);
        let ga = group_assets(store, g);
        let gt = group_assets(store.drop_first(), g);
        assert forall|i: int| 0 <= i < ga.len() implies first_seg((#[trigger] ga[i]).1) == g by {
            if first_seg(store[0]) == g {
                if i > 0 {
                    assert(ga[i] == gt[i - 1]);
                }
            } else {
                assert(ga[i] == gt[i]);
            }
        }
    }
}

/// The value a table's map holds under a key is the value of one of
/// its entries.
proof fn lemma_entries_map_some(s: Seq<(Seq<char>, Seq<char>)>, k: Seq<char>)
    requires
        entries_map(s).contains_key(k),
    ensures
        exists|i: int| 0 <= i < s.len() && #[trigger] s[i] == (k, entries_map(s)[k]),
    decreases s,
{
    if s.len() > 0 {
        if k == s.last().0 {
            assert(s[s.len() - 1] == (k, entries_map(s)[k]));
        } else {
            lemma_entries_map_some(s.drop_last(), k);
            let i = choose|i: int|
                0 <= i < s.drop_last().len() && #[trigger] s.drop_last()[i] == (
                    k,
                    entries_map(s.drop_last())[k],
                );
            assert(s[i] == (k, entries_map(s)[k]));
        }
    }
}

/// When two groups both hold an asset at the same relative path, the
/// group standing later in the requested list supplies the selected
/// source; swapping the two groups swaps the winner, so the two
/// orders select different trees.
pub proof fn lemma_selector_last_group_wins(
    store: Seq<Seq<char>>,
    g1: Seq<char>,
    g2: Seq<char>,
    rel: Seq<char>,
)
    requires
        g1 != g2,
        entries_map(group_assets(store, g1)).contains_key(rel),
        entries_map(group_assets(store, g2)).contains_key(rel),
    ensures
        selected_map(store, seq![g1, g2])[rel] == entries_map(group_assets(store, g2))[rel],
        selected_map(store, seq![g2, g1])[rel] == entries_map(group_assets(store, g1))[rel],
        selected_map(store, seq![g1, g2]) != selected_map(store, seq![g2, g1]),
{
    let l12 = seq![g1, g2];
    let l21 = seq![g2, g1];
    assert(l12.drop_last() =~= seq![g1]);
    assert(l21.drop_last() =~= seq![g2]);
    assert(seq![g1].drop_last() =~= Seq::<Seq<char>>::empty());
    assert(seq![g2].drop_last() =~= Seq::<Seq<char>>::empty());
    assert(selected_map(store, Seq::<Seq<char>>::empty()) == Map::<Seq<char>, Seq<char>>::empty());
    assert(selected_map(store, l12)[rel] == entries_map(group_assets(store, g2))[rel]);
    assert(selected_map(store, l21)[rel] == entries_map(group_assets(store, g1))[rel]);
    let v1 = entries_map(group_assets(store, g1))[rel];
    let v2 = entries_map(group_assets(store, g2))[rel];
    assert(v1 != v2) by {
        lemma_group_assets_members(store, g1);
        lemma_group_assets_members(store, g2);
        lemma_entries_map_some(group_assets(store, g1), rel);
        lemma_entries_map_some(group_assets(store, g2), rel);
        let i1 = choose|i: int|
            0 <= i < group_assets(store, g1).len() && #[trigger] group_assets(store, g1)[i] == (
                rel,
                v1,
            );
        let i2 = choose|i: int|
            0 <= i < group_assets(store, g2).len() && #[trigger] group_assets(store, g2)[i] == (
                rel,
                v2,
            );
        assert(first_seg(v1) == g1);
        assert(first_seg(v2) == g2);
    }
    assert(selected_map(store, l12).contains_key(rel));
    assert(selected_map(store, l21).contains_key(rel));
}
fn split_path(p: &str) -> (r: (String, String))
    ensures
        r.0@ == first_seg(p@),
        r.1@ == rest_after_seg(p@),
{
    let n = p.unicode_len();
    let mut k: usize = 0;
    while k < n && (p.get_char(k) as u32) != 47
        invariant
            n == p@.len(),
            0 <= k <= n,
            forall|i: int| 0 <= i < k ==> (#[trigger] p@[i] as u32) != 47,
        decreases n - k,
    {
        k += 1;
    }
    proof {
        lemma_first_slash_at(p@, k as int);
    }
    let seg = p.substring_char(0, k).to_owned();
    proof {
        assert(seg@ =~= first_seg(p@));
    }
    if k >= n {
        let empty_rest = "".to_owned();
        proof {
            reveal_strlit("");
            assert(empty_rest@ =~= rest_after_seg(p@));
        }
        (seg, empty_rest)
    } else {
        let rest = p.substring_char(k + 1, n).to_owned();
        proof {
            assert(rest@ =~= rest_after_seg(p@));
        }
        (seg, rest)
    }
}

/// Stores `value` under `key`, replacing in place or appending.
fn upsert(entries: &mut Vec<(String, String)>, key: String, value: String)
    ensures
        pairs_view(final(entries)@) == obj_insert(pairs_view(old(entries)@), key@, value@),
{
    let ghost s0 = pairs_view(old(entries)@);
    let n = entries.len();
    for i in 0..n
        invariant
            n == entries@.len(),
            entries@ == old(entries)@,
            s0 == pairs_view(entries@),
            forall|j: int| 0 <= j < i ==> (#[trigger] s0[j]).0 != key@,
    {
        proof {
            assert(s0[i as int] == (entries@[i as int].0@, entries@[i as int].1@));
        }
        if str_eq(entries[i].0.as_str(), key.as_str()) {
            entries[i] = (key, value);
            proof {
                lemma_obj_insert_found(s0, entries@[i as int].0@, entries@[i as int].1@, i as int);
                assert(pairs_view(entries@) =~= s0.update(
                    i as int,
                    (entries@[i as int].0@, entries@[i as int].1@),
                ));
            }
            return ;
        }
    }
    entries.push((key, value));
    proof {
        assert(!has_key(s0, key@)) by {
            if has_key(s0, key@) {
                let i = choose|i: int| 0 <= i < s0.len() && s0[i].0 == key@;
                assert(s0[i].0 != key@);
            }
        }
        lemma_obj_insert(s0, key@, value@);
        assert(pairs_view(entries@) =~= s0.push((key@, value@)));
    }
}

/// Selects the assets of the requested groups out of the store
/// listing.
///
/// The result pairs each destination-relative path with the store path
/// whose content belongs there; every relative path appears once, and
/// where several requested groups carry the same relative path the
/// group standing latest in `template` wins.  A requested name that
/// matches no store path contributes nothing.
#[verifier::loop_isolation(false)]
pub fn copy(template: Vec<String>, paths: &Vec<String>) -> (r: Vec<(String, String)>)
    ensures
        keys_unique(pairs_view(r@)),
        entries_map(pairs_view(r@)) == selected_map(names_view(paths@), names_view(template@)),
        forall|i: int|
            0 <= i < r@.len() ==> exists|j: int|
                0 <= j < paths@.len() && (#[trigger] pairs_view(r@)[i]) == (
                    rest_after_seg(names_view(paths@)[j]),
                    names_view(paths@)[j],
                ) && names_view(template@).contains(first_seg(names_view(paths@)[j])),
{
    let ghost sv = names_view(paths@);
    let ghost gv = names_view(template@);
    let mut out: Vec<(String, String)> = Vec::new();
    proof {
        assert(pairs_view(out@) =~= Seq::<(Seq<char>, Seq<char>)>::empty());
        assert(gv.take(0) =~= Seq::<Seq<char>>::empty());
        assert(entries_map(pairs_view(out@)) =~= selected_map(sv, gv.take(0)));
    }
    let gn = template.len();
    for gi in 0..gn
        invariant
            keys_unique(pairs_view(out@)),
            entries_map(pairs_view(out@)) == selected_map(sv, gv.take(gi as int)),
            forall|i: int|
                0 <= i < out@.len() ==> exists|j: int|
                    0 <= j < paths@.len() && (#[trigger] pairs_view(out@)[i]) == (
                        rest_after_seg(sv[j]),
                        sv[j],
                    ) && gv.contains(first_seg(sv[j])),
    {
        let g = &template[gi];
        let pn = paths.len();
        proof {
            assert(sv.take(0) =~= Seq::<Seq<char>>::empty());
            assert(group_assets(sv.take(0), gv[gi as int]) =~= Seq::<(Seq<char>, Seq<char>)>::empty());
        }
        for pi in 0..pn
            invariant
                keys_unique(pairs_view(out@)),
                entries_map(pairs_view(out@)) == selected_map(sv, gv.take(gi as int))
                    .union_prefer_right(
                    entries_map(group_assets(sv.take(pi as int), gv[gi as int])),
                ),
                forall|i: int|
                    0 <= i < out@.len() ==> exists|j: int|
                        0 <= j < paths@.len() && (#[trigger] pairs_view(out@)[i]) == (
                            rest_after_seg(sv[j]),
                            sv[j],
                        ) && gv.contains(first_seg(sv[j])),
        {
            let (seg, rel) = split_path(paths[pi].as_str());
            let ghost ga_pre = group_assets(sv.take(pi as int), gv[gi as int]);
            proof {
                assert(sv.take(pi + 1) =~= sv.take(pi as int).push(sv[pi as int]));
                lemma_group_assets_snoc(sv.take(pi as int), sv[pi as int], gv[gi as int]);
            }
            if str_eq(seg.as_str(), g.as_str()) {
                let ghost out_pre = pairs_view(out@);
                let full = paths[pi].clone();
                upsert(&mut out, rel, full);
                proof {
                    lemma_obj_insert(out_pre, rest_after_seg(sv[pi as int]), sv[pi as int]);
                    lemma_entries_map_insert(out_pre, rest_after_seg(sv[pi as int]), sv[pi as int]);
                    lemma_union_insert(
                        selected_map(sv, gv.take(gi as int)),
                        entries_map(ga_pre),
                        rest_after_seg(sv[pi as int]),
                        sv[pi as int],
                    );
                    let ghost e = (rest_after_seg(sv[pi as int]), sv[pi as int]);
                    assert(first_seg(sv[pi as int]) == gv[gi as int]);
                    assert(group_assets(sv.take(pi + 1), gv[gi as int]) == ga_pre.push(e));
                    assert(ga_pre.push(e).drop_last() =~= ga_pre);
                    assert(ga_pre.push(e).last() == e);
                    assert(entries_map(group_assets(sv.take(pi + 1), gv[gi as int]))
                        == entries_map(ga_pre).insert(rest_after_seg(sv[pi as int]), sv[pi as int]));
                    lemma_obj_insert_members(out_pre, rest_after_seg(sv[pi as int]), sv[pi as int]);
                    assert(gv.contains(first_seg(sv[pi as int]))) by {
                        assert(gv[gi as int] == first_seg(sv[pi as int]));
                    }
                    assert forall|i: int| 0 <= i < out@.len() implies exists|j: int|
                        0 <= j < paths@.len() && (#[trigger] pairs_view(out@)[i]) == (
                            rest_after_seg(sv[j]),
                            sv[j],
                        ) && gv.contains(first_seg(sv[j])) by {
                        if pairs_view(out@)[i] == (
                            rest_after_seg(sv[pi as int]),
                            sv[pi as int],
                        ) {
                            assert(0 <= pi < paths@.len() && pairs_view(out@)[i] == (
                                rest_after_seg(sv[pi as int]),
                                sv[pi as int],
                            ) && gv.contains(first_seg(sv[pi as int])));
                        } else {
                            assert(out_pre.contains(pairs_view(out@)[i]));
                            let m = choose|m: int| 0 <= m < out_pre.len() && out_pre[m]
                                == pairs_view(out@)[i];
                        }
                    }
                }
            } else {
                proof {
                    assert(group_assets(sv.take(pi + 1), gv[gi as int]) == ga_pre);
                }
            }
        }
        proof {
            assert(sv.take(pn as int) =~= sv);
            assert(gv.take(gi + 1).drop_last() =~= gv.take(gi as int));
            assert(gv.take(gi + 1).last() == gv[gi as int]);
        }
    }
    proof {
        assert(gv.take(gn as int) =~= gv);
    }
    out
}

} // verus!
