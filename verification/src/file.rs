//! Destination-path arithmetic, on plain strings.

use vstd::prelude::*;

use crate::text::{push_char, push_str};

verus! {

/// Whether a path begins at the filesystem root.
pub open spec fn is_absolute(p: Seq<char>) -> bool {
    p.len() > 0 && (p[0] as u32) == 47
}

/// `base` extended by one component: a separator is added unless
/// `base` is empty or already ends with one.
pub open spec fn join_path(base: Seq<char>, rel: Seq<char>) -> Seq<char> {
    if base.len() == 0 {
        rel
    } else if (base[base.len() - 1] as u32) == 47 {
        base + rel
    } else {
        base + seq!['/'] + rel
    }
}

/// An absolute `relative` stands alone; anything else is joined onto
/// `base`.
pub open spec fn resolved_path(base: Seq<char>, relative: Seq<char>) -> Seq<char> {
    if is_absolute(relative) {
        relative
    } else {
        join_path(base, relative)
    }
}

/// Resolves `relative` against `base`: an absolute `relative` wins,
/// anything else is appended behind a single separator.
pub fn resolve_path(base: &str, relative: &str) -> (r: String)
    ensures
        r@ == resolved_path(base@, relative@),
{
    let rn = relative.unicode_len();
    if rn > 0 && (relative.get_char(0) as u32) == 47 {
        return relative.to_owned();
    }
    let bn = base.unicode_len();
    let mut out = base.to_owned();
    if bn > 0 && (base.get_char(bn - 1) as u32) != 47 {
        push_char(&mut out, '/');
        proof {
            assert(base@.push('/') =~= base@ + seq!['/']);
        }
    }
    push_str(&mut out, relative);
    proof {
        if bn == 0 {
            assert(base@ =~= Seq::<char>::empty());
            assert(base@ + relative@ =~= relative@);
        }
    }
    out
}

} // verus!
