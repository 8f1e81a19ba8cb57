//! Package identity and the npm package-name validity rule.

use vstd::prelude::*;

verus! {

/// The name and version of this tool, as its own package manifest
/// states them.
pub struct Package {
    pub name: String,
    pub version: String,
}

/// A character allowed to open the scope segment (between `@` and `/`):
/// a lowercase ASCII letter, a digit, `-`, `*` or `~`.
pub open spec fn scope_open_char(c: char) -> bool {
    let u = c as u32;
    (97 <= u <= 122) || (48 <= u <= 57) || u == 45 || u == 42 || u == 126
}

/// A character allowed after the first one in the scope segment: the
/// opening characters plus `.` and `_`.
pub open spec fn scope_tail_char(c: char) -> bool {
    scope_open_char(c) || (c as u32) == 46 || (c as u32) == 95
}

/// A character allowed to open the name segment: a lowercase ASCII
/// letter, a digit, `-` or `~`.
pub open spec fn name_open_char(c: char) -> bool {
    let u = c as u32;
    (97 <= u <= 122) || (48 <= u <= 57) || u == 45 || u == 126
}

/// A character allowed after the first one in the name segment: the
/// opening characters plus `.` and `_`.
pub open spec fn name_tail_char(c: char) -> bool {
    name_open_char(c) || (c as u32) == 46 || (c as u32) == 95
}

/// A well-formed name segment: non-empty, opened and continued by the
/// characters the npm name grammar allows there.
pub open spec fn name_span(s: Seq<char>) -> bool {
    s.len() >= 1 && name_open_char(s[0]) && (forall|i: int|
        1 <= i < s.len() ==> name_tail_char(#[trigger] s[i]))
}

/// A well-formed scoped name: `@`, a non-empty scope segment, `/`, and
/// a well-formed name segment.  `k` is the position of the slash.
pub open spec fn scoped_span(s: Seq<char>, k: int) -> bool {
    &&& 2 <= k < s.len()
    &&& (s[0] as u32) == 64
    &&& s[k] as u32 == 47
    &&& scope_open_char(s[1])
    &&& (forall|j: int| 2 <= j < k ==> scope_tail_char(#[trigger] s[j]))
    &&& name_span(s.skip(k + 1))
}

/// Whether `s` is a valid npm package name: either a plain name
/// segment, or a scoped one.
pub open spec fn valid_package_name(s: Seq<char>) -> bool {
    name_span(s) || (exists|k: int| scoped_span(s, k))
}

fn scope_open_exec(c: char) -> (r: bool)
    ensures
        r == scope_open_char(c),
{
    let u = c as u32;
    (97 <= u && u <= 122) || (48 <= u && u <= 57) || u == 45 || u == 42 || u == 126
}

fn scope_tail_exec(c: char) -> (r: bool)
    ensures
        r == scope_tail_char(c),
{
    scope_open_exec(c) || (c as u32) == 46 || (c as u32) == 95
}

fn name_open_exec(c: char) -> (r: bool)
    ensures
        r == name_open_char(c),
{
    let u = c as u32;
    (97 <= u && u <= 122) || (48 <= u && u <= 57) || u == 45 || u == 126
}

fn name_tail_exec(c: char) -> (r: bool)
    ensures
        r == name_tail_char(c),
{
    name_open_exec(c) || (c as u32) == 46 || (c as u32) == 95
}

/// Checks the name segment standing at `[from, n)` of `s`.
fn check_name_span(s: &str, from: usize) -> (r: bool)
    requires
        from <= s@.len(),
    ensures
        r == name_span(s@.skip(from as int)),
{
    let n = s.unicode_len();
    let ghost t = s@.skip(from as int);
    if from >= n {
        assert(t.len() == 0);
        return false;
    }
    let c0 = s.get_char(from);
    proof {
        assert(t[0] == s@[from as int]);
    }
    if !name_open_exec(c0) {
        return false;
    }
    for i in from + 1..n
        invariant
            n == s@.len(),
            from < n,
            t == s@.skip(from as int),
            name_open_char(t[0]),
            forall|j: int| 1 <= j < i - from ==> name_tail_char(#[trigger] t[j]),
    {
        let c = s.get_char(i);
        proof {
            assert(t[i - from] == s@[i as int]);
        }
        if !name_tail_exec(c) {
            proof {
                assert(!name_tail_char(t[i - from]));
            }
            return false;
        }
    }
    true
}

/// Whether the given string is a valid npm package name, plain or
/// scoped: the same rule the npm registry applies,
/// `^(?:@[a-z0-9-*~][a-z0-9-*._~]*/)?[a-z0-9-~][a-z0-9-._~]*$`.
#[verifier::loop_isolation(false)]
pub fn is_valid_package_name(name: &str) -> (r: bool)
    ensures
        r == valid_package_name(name@),
{
    let n = name.unicode_len();
    if n == 0 {
        proof {
            assert(!name_span(name@));
            assert forall|k: int| !scoped_span(name@, k) by {}
        }
        return false;
    }
    let c0 = name.get_char(0);
    if (c0 as u32) == 64 {
        // A scoped name.  A plain name segment can never open with `@`.
        proof {
            assert(!name_open_char(name@[0]));
            assert(!name_span(name@));
        }
        // Find the slash closing the scope segment; no scope character
        // is a slash, so only the first slash can close it.
        let mut k: usize = 1;
        while k < n && (name.get_char(k) as u32) != 47
            invariant
                n == name@.len(),
                1 <= k <= n,
                forall|j: int| 1 <= j < k ==> (#[trigger] name@[j] as u32) != 47,
            decreases n - k,
        {
            k += 1;
        }
        if k >= n {
            // No slash at all: no scoped form can hold.
            proof {
                assert forall|m: int| !scoped_span(name@, m) by {
                    if 2 <= m < name@.len() {
                        assert(name@[m] as u32 != 47);
                    }
                }
            }
            return false;
        }
        let ghost kk = k as int;
        proof {
            assert(name@[kk] as u32 == 47);
            assert forall|m: int| m != kk implies !scoped_span(name@, m) by {
                if 2 <= m < name@.len() {
                    if m < kk {
                        assert(name@[m] as u32 != 47);
                    } else if m > kk {
                        // The slash at `kk` would then sit inside the
                        // scope segment, which admits no slash.
                        if scoped_span(name@, m) {
                            assert(scope_tail_char(name@[kk]));
                        }
                    }
                }
            }
        }
        if k < 2 {
            proof {
                assert(!scoped_span(name@, kk));
            }
            return false;
        }
        let c1 = name.get_char(1);
        if !scope_open_exec(c1) {
            proof {
                assert(!scoped_span(name@, kk));
            }
            return false;
        }
        for j in 2..k
            invariant
                n == name@.len(),
                2 <= k < n,
                forall|m: int| 2 <= m < j ==> scope_tail_char(#[trigger] name@[m]),
        {
            let c = name.get_char(j);
            if !scope_tail_exec(c) {
                proof {
                    assert(!scope_tail_char(name@[j as int]));
                    assert(!scoped_span(name@, kk));
                }
                return false;
            }
        }
        let tail_ok = check_name_span(name, k + 1);
        proof {
            if tail_ok {
                assert(scoped_span(name@, kk));
            } else {
                assert(!scoped_span(name@, kk));
            }
        }
        tail_ok
    } else {
        // A plain name; the scoped form is ruled out by its first
        // character.
        proof {
            assert forall|m: int| !scoped_span(name@, m) by {
                if scoped_span(name@, m) {
                    assert(name@[0] as u32 == 64);
                }
            }
        }
        let r = check_name_span(name, 0);
        proof {
            assert(name@.skip(0) =~= name@);
        }
        r
    }
}

} // verus!
