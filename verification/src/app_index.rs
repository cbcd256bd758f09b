//! The installed-application index searched by the overview: the Start
//! Menu shortcuts found on disk, ordered by name case-insensitively (a
//! stable sort on the lowercased names, so shortcuts whose names lowercase
//! alike keep the order they were found in), with consecutive names that
//! are equal up to ASCII case collapsed to their first occurrence (the same
//! app shortcut installed per-user and for all users).

use vstd::prelude::*;
use crate::search::SearchApp;
use crate::text::{chars_of, lowercase_of, to_lowercase};

verus! {

/// Lexicographic order by code point (the order of `String`'s `Ord`).
pub open spec fn lex_le(a: Seq<char>, b: Seq<char>) -> bool
    decreases a.len(),
{
    if a.len() == 0 {
        true
    } else if b.len() == 0 {
        false
    } else if (a[0] as u32) < (b[0] as u32) {
        true
    } else if (a[0] as u32) > (b[0] as u32) {
        false
    } else {
        lex_le(a.drop_first(), b.drop_first())
    }
}

/// Any two sequences are ordered one way or the other.
pub proof fn lemma_lex_total(a: Seq<char>, b: Seq<char>)
    ensures
        lex_le(a, b) || lex_le(b, a),
    decreases a.len(),
{
    if a.len() > 0 && b.len() > 0 && a[0] as u32 == b[0] as u32 {
        lemma_lex_total(a.drop_first(), b.drop_first());
    }
}

/// The order is transitive.
pub proof fn lemma_lex_transitive(a: Seq<char>, b: Seq<char>, c: Seq<char>)
    requires
        lex_le(a, b),
        lex_le(b, c),
    ensures
        lex_le(a, c),
    decreases a.len(),
{
    if a.len() > 0 && b.len() > 0 && c.len() > 0 && a[0] as u32 == b[0] as u32 && b[0] as u32 == c[0] as u32 {
        lemma_lex_transitive(a.drop_first(), b.drop_first(), c.drop_first());
    }
}

/// `lex_le` on characters already collected into vectors.
fn lex_le_exec(a: &Vec<char>, b: &Vec<char>) -> (r: bool)
    ensures
        r == lex_le(a@, b@),
{
    let mut i: usize = 0;
    assert(a@.subrange(0, a@.len() as int) =~= a@);
    assert(b@.subrange(0, b@.len() as int) =~= b@);
    loop
        invariant
            i <= a@.len(),
            i <= b@.len(),
            lex_le(a@, b@) == lex_le(a@.subrange(i as int, a@.len() as int), b@.subrange(i as int, b@.len() as int)),
        decreases a@.len() - i,
    {
        let ghost sa = a@.subrange(i as int, a@.len() as int);
        let ghost sb = b@.subrange(i as int, b@.len() as int);
        if i == a.len() {
            return true;
        }
        if i == b.len() {
            return false;
        }
        let ca = a[i] as u32;
        let cb = b[i] as u32;
        if ca < cb {
            return true;
        }
        if ca > cb {
            return false;
        }
        assert(sa.drop_first() =~= a@.subrange(i + 1, a@.len() as int));
        assert(sb.drop_first() =~= b@.subrange(i + 1, b@.len() as int));
        i += 1;
    }
}

/// The sort key of an app: its lowercased name.
pub open spec fn key_of(a: SearchApp) -> Seq<char> {
    lowercase_of(a.name@)
}

/// Whether `order` lists every index of `apps` exactly once, sorted by key,
/// with apps of equal keys in the order they were given.
pub open spec fn stable_order(apps: Seq<SearchApp>, order: Seq<usize>) -> bool {
    &&& order.len() == apps.len()
    &&& order.no_duplicates()
    &&& forall|k: int| 0 <= k < order.len() ==> #[trigger] order[k] < apps.len()
    &&& forall|k1: int, k2: int|
        0 <= k1 < k2 < order.len() ==> lex_le(key_of(apps[order[k1] as int]), key_of(apps[order[k2] as int]))
    &&& forall|k1: int, k2: int|
        0 <= k1 < k2 < order.len() && lex_le(key_of(apps[order[k2] as int]), key_of(apps[order[k1] as int]))
            ==> order[k1] < order[k2]
}

/// The order that sorts `apps` stably by key (computed on the lowercased
/// names in `keys`).
fn stable_sort_order(apps: &Vec<SearchApp>, keys: &Vec<Vec<char>>) -> (order: Vec<usize>)
    requires
        keys@.len() == apps@.len(),
        forall|i: int| 0 <= i < keys@.len() ==> #[trigger] keys@[i]@ == key_of(apps@[i]),
    ensures
        stable_order(apps@, order@),
{
    let n = apps.len();
    let mut order: Vec<usize> = Vec::new();
    let mut i: usize = 0;
    while i < n
        invariant
            n == apps@.len(),
            keys@.len() == apps@.len(),
            forall|m: int| 0 <= m < keys@.len() ==> #[trigger] keys@[m]@ == key_of(apps@[m]),
            i <= n,
            order@.len() == i,
            order@.no_duplicates(),
            forall|k: int| 0 <= k < order@.len() ==> #[trigger] order@[k] < i,
            forall|k1: int, k2: int|
                0 <= k1 < k2 < order@.len() ==> lex_le(
                    key_of(apps@[order@[k1] as int]),
                    key_of(apps@[order@[k2] as int]),
                ),
            forall|k1: int, k2: int|
                0 <= k1 < k2 < order@.len() && lex_le(
                    key_of(apps@[order@[k2] as int]),
                    key_of(apps@[order@[k1] as int]),
                ) ==> order@[k1] < order@[k2],
        decreases n - i,
    {
        let ghost ki = key_of(apps@[i as int]);
        let mut j: usize = order.len();
        while j > 0 && !lex_le_exec(&keys[order[j - 1]], &keys[i])
            invariant
                n == apps@.len(),
                keys@.len() == apps@.len(),
                forall|m: int| 0 <= m < keys@.len() ==> #[trigger] keys@[m]@ == key_of(apps@[m]),
                i < n,
                ki == key_of(apps@[i as int]),
                j <= order@.len(),
                order@.len() == i,
                forall|k: int| 0 <= k < order@.len() ==> #[trigger] order@[k] < i,
                forall|k: int| j <= k < order@.len() ==> !lex_le(key_of(apps@[#[trigger] order@[k] as int]), ki),
            decreases j,
        {
            j -= 1;
        }
        let ghost before = order@;
        proof {
            if j > 0 {
                assert(lex_le(key_of(apps@[before[j - 1] as int]), ki));
                assert forall|k: int| 0 <= k < j implies lex_le(key_of(apps@[#[trigger] before[k] as int]), ki) by {
                    if k < j - 1 {
                        lemma_lex_transitive(
                            key_of(apps@[before[k] as int]),
                            key_of(apps@[before[j - 1] as int]),
                            ki,
                        );
                    }
                }
            }
            assert forall|k: int| j <= k < before.len() implies lex_le(ki, key_of(apps@[#[trigger] before[k] as int]))
                by {
                lemma_lex_total(ki, key_of(apps@[before[k] as int]));
            }
        }
        order.insert(j, i);
        proof {
            let after = order@;
            assert(after == before.insert(j as int, i));
            assert forall|k: int| 0 <= k < after.len() implies #[trigger] after[k] < i + 1 by {
                if k < j {
                    assert(after[k] == before[k]);
                } else if k > j {
                    assert(after[k] == before[k - 1]);
                }
            }
            assert forall|a: int, b: int| 0 <= a < b < after.len() implies after[a] != after[b] by {
                if a < j && b > j {
                    assert(after[b] == before[b - 1]);
                } else if a > j {
                    assert(after[a] == before[a - 1]);
                    assert(after[b] == before[b - 1]);
                }
            }
            assert forall|k1: int, k2: int| 0 <= k1 < k2 < after.len() implies lex_le(
                key_of(apps@[after[k1] as int]),
                key_of(apps@[after[k2] as int]),
            ) by {
                if k1 < j && k2 < j {
                } else if k1 < j && k2 == j {
                    assert(lex_le(key_of(apps@[before[k1] as int]), ki));
                } else if k1 < j && k2 > j {
                    assert(after[k2] == before[k2 - 1]);
                    assert(k1 < k2 - 1);
                } else if k1 == j {
                    assert(after[k2] == before[k2 - 1]);
                    assert(lex_le(ki, key_of(apps@[before[k2 - 1] as int])));
                } else {
                    assert(after[k1] == before[k1 - 1]);
                    assert(after[k2] == before[k2 - 1]);
                }
            }
            assert forall|k1: int, k2: int|
                0 <= k1 < k2 < after.len() && lex_le(
                    key_of(apps@[after[k2] as int]),
                    key_of(apps@[after[k1] as int]),
                ) implies after[k1] < after[k2] by {
                if k1 < j && k2 < j {
                } else if k1 < j && k2 == j {
                    assert(before[k1] < i);
                } else if k1 < j && k2 > j {
                    assert(after[k2] == before[k2 - 1]);
                } else if k1 == j {
                    assert(after[k2] == before[k2 - 1]);
                    assert(!lex_le(key_of(apps@[before[k2 - 1] as int]), ki));
                } else {
                    assert(after[k1] == before[k1 - 1]);
                    assert(after[k2] == before[k2 - 1]);
                }
            }
        }
        i += 1;
    }
    order
}

/// A character's ASCII-lowercase code (other characters unchanged).
pub open spec fn ascii_fold(c: char) -> u32 {
    if 65 <= (c as u32) <= 90 {
        (c as u32 + 32) as u32
    } else {
        c as u32
    }
}

/// Whether two names are equal ignoring ASCII case (`str::eq_ignore_ascii_case`).
pub open spec fn eq_ignore_ascii_case(a: Seq<char>, b: Seq<char>) -> bool {
    a.len() == b.len() && forall|i: int| 0 <= i < a.len() ==> #[trigger] ascii_fold(a[i]) == ascii_fold(b[i])
}

fn ascii_fold_exec(c: char) -> (r: u32)
    ensures
        r == ascii_fold(c),
{
    let v = c as u32;
    if 65 <= v && v <= 90 {
        v + 32
    } else {
        v
    }
}

fn eq_ignore_ascii_case_exec(a: &str, b: &str) -> (r: bool)
    ensures
        r == eq_ignore_ascii_case(a@, b@),
{
    let ca = chars_of(a);
    let cb = chars_of(b);
    if ca.len() != cb.len() {
        return false;
    }
    let mut i: usize = 0;
    while i < ca.len()
        invariant
            ca@ == a@,
            cb@ == b@,
            ca@.len() == cb@.len(),
            i <= ca@.len(),
            forall|k: int| 0 <= k < i ==> #[trigger] ascii_fold(ca@[k]) == ascii_fold(cb@[k]),
        decreases ca.len() - i,
    {
        if ascii_fold_exec(ca[i]) != ascii_fold_exec(cb[i]) {
            return false;
        }
        i += 1;
    }
    true
}

/// `s` with every entry whose name equals (ignoring ASCII case) the last
/// entry kept before it removed: `Vec::dedup_by` on the names.
pub open spec fn dedup_names(s: Seq<SearchApp>) -> Seq<SearchApp>
    decreases s.len(),
{
    if s.len() == 0 {
        s
    } else {
        let rest = dedup_names(s.drop_last());
        if rest.len() > 0 && eq_ignore_ascii_case(rest.last().name@, s.last().name@) {
            rest
        } else {
            rest.push(s.last())
        }
    }
}

/// `apps` taken in `order`.
pub open spec fn in_order(apps: Seq<SearchApp>, order: Seq<usize>) -> Seq<SearchApp> {
    Seq::new(order.len(), |k: int| apps[order[k] as int])
}

/// Builds the index from the shortcuts found on disk: sorted stably by
/// lowercased name, then consecutive names equal up to ASCII case
/// collapsed to the first.
pub fn build_app_index(apps: Vec<SearchApp>) -> (r: Vec<SearchApp>)
    ensures
        exists|order: Seq<usize>| #[trigger] stable_order(apps@, order) && r@ == dedup_names(in_order(apps@, order)),
{
    let n = apps.len();
    let mut keys: Vec<Vec<char>> = Vec::new();
    let mut i: usize = 0;
    while i < n
        invariant
            n == apps@.len(),
            i <= n,
            keys@.len() == i,
            forall|m: int| 0 <= m < i ==> #[trigger] keys@[m]@ == key_of(apps@[m]),
        decreases n - i,
    {
        let lowered = to_lowercase(apps[i].name.as_str());
        keys.push(chars_of(lowered.as_str()));
        i += 1;
    }
    let order = stable_sort_order(&apps, &keys);
    let ghost sorted = in_order(apps@, order@);
    let mut r: Vec<SearchApp> = Vec::new();
    let mut k: usize = 0;
    while k < order.len()
        invariant
            stable_order(apps@, order@),
            sorted == in_order(apps@, order@),
            k <= order@.len(),
            r@ == dedup_names(sorted.subrange(0, k as int)),
        decreases order.len() - k,
    {
        assert(sorted.subrange(0, k + 1).drop_last() =~= sorted.subrange(0, k as int));
        let idx = order[k];
        let keep = if r.len() == 0 {
            true
        } else {
            let last = r.len() - 1;
            !eq_ignore_ascii_case_exec(r[last].name.as_str(), apps[idx].name.as_str())
        };
        if keep {
            let name = apps[idx].name.clone();
            let path = apps[idx].path.clone();
            r.push(SearchApp { name, path });
            assert(r@.last() == sorted.subrange(0, k + 1).last());
        }
        k += 1;
    }
    assert(sorted.subrange(0, order@.len() as int) =~= sorted);
    r
}

} // verus!
