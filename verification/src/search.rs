//! Type-to-search in the Activities overview: open windows whose title or
//! executable name contains the query (case-insensitively), then installed
//! apps whose name does — windows first, since switching beats launching a
//! duplicate — capped at `SEARCH_MAX_RESULTS`.

use vstd::prelude::*;
use crate::geometry::Rect;
use crate::overview::SEARCH_MAX_RESULTS;
use crate::text::{chars_of, lowercase_of, to_lowercase};

verus! {

/// Whether `needle` occurs as a contiguous run in `hay`.
pub open spec fn is_substring(needle: Seq<char>, hay: Seq<char>) -> bool {
    exists|i: int| 0 <= i && i + needle.len() <= hay.len() && #[trigger] hay.subrange(i, i + needle.len()) == needle
}

/// Whether `needle` occurs in `hay` starting at `at`.
fn occurs_at(hay: &Vec<char>, needle: &Vec<char>, at: usize) -> (r: bool)
    requires
        at + needle@.len() <= hay@.len(),
    ensures
        r == (hay@.subrange(at as int, at + needle@.len()) == needle@),
{
    let mut k: usize = 0;
    while k < needle.len()
        invariant
            k <= needle@.len(),
            at + needle.len() <= hay.len(),
            forall|j: int| 0 <= j < k ==> hay@[at + j] == needle@[j],
        decreases needle.len() - k,
    {
        if hay[at + k] != needle[k] {
            assert(hay@.subrange(at as int, at + needle@.len())[k as int] != needle@[k as int]);
            return false;
        }
        k += 1;
    }
    assert(hay@.subrange(at as int, at + needle@.len()) =~= needle@);
    true
}

/// Whether `needle` occurs in `hay` (a plain substring test; both are
/// already in the case the caller wants compared).
pub fn contains_text(hay: &str, needle: &str) -> (r: bool)
    ensures
        r == is_substring(needle@, hay@),
{
    let h = chars_of(hay);
    let n = chars_of(needle);
    if n.len() > h.len() {
        return false;
    }
    let last: usize = h.len() - n.len();
    let mut at: usize = 0;
    loop
        invariant
            at <= last,
            last + n@.len() == h@.len(),
            h@ == hay@,
            n@ == needle@,
            forall|j: int| 0 <= j < at ==> #[trigger] h@.subrange(j, j + n@.len()) != n@,
        decreases last - at,
    {
        if occurs_at(&h, &n, at) {
            return true;
        }
        if at == last {
            return false;
        }
        at += 1;
    }
}

/// Whether `text`, lowercased, contains `query_lower`.
pub fn text_matches(text: &str, query_lower: &str) -> (r: bool)
    ensures
        r == is_substring(query_lower@, lowercase_of(text@)),
{
    let lowered = to_lowercase(text);
    contains_text(lowered.as_str(), query_lower)
}

/// An open window as the search sees it.
#[derive(Debug)]
pub struct SearchWindow {
    pub hwnd: isize,
    pub title: String,
    pub exe_name: Option<String>,
}

/// An installed app (a Start Menu shortcut): display name and path.
#[derive(Debug)]
pub struct SearchApp {
    pub name: String,
    pub path: String,
}

/// One search hit.
#[derive(Debug, PartialEq, Eq)]
pub enum SearchResult {
    /// An open window: activating switches to its workspace and focuses it.
    Window { hwnd: isize, title: String },
    /// An installed app: activating launches it.
    App { name: String, path: String },
}

/// Whether window `w` matches the lowercased query `q`.
pub open spec fn window_hit(w: SearchWindow, q: Seq<char>) -> bool {
    is_substring(q, lowercase_of(w.title@)) || (w.exe_name is Some && is_substring(
        q,
        lowercase_of(w.exe_name->0@),
    ))
}

/// Whether app `a` matches the lowercased query `q`.
pub open spec fn app_hit(a: SearchApp, q: Seq<char>) -> bool {
    is_substring(q, lowercase_of(a.name@))
}

/// Indices of the matching windows among the first `n`, in order.
pub open spec fn window_hits(ws: Seq<SearchWindow>, q: Seq<char>, n: int) -> Seq<int>
    decreases n,
{
    if n <= 0 {
        Seq::empty()
    } else if window_hit(ws[n - 1], q) {
        window_hits(ws, q, n - 1).push(n - 1)
    } else {
        window_hits(ws, q, n - 1)
    }
}

/// Indices of the matching apps among the first `n`, in order.
pub open spec fn app_hits(apps: Seq<SearchApp>, q: Seq<char>, n: int) -> Seq<int>
    decreases n,
{
    if n <= 0 {
        Seq::empty()
    } else if app_hit(apps[n - 1], q) {
        app_hits(apps, q, n - 1).push(n - 1)
    } else {
        app_hits(apps, q, n - 1)
    }
}

/// `a`, at most `cap`.
pub open spec fn capped(a: int, cap: int) -> int {
    if a < cap { a } else { cap }
}

/// How many windows the results show for query `q`.
pub open spec fn shown_windows(ws: Seq<SearchWindow>, q: Seq<char>) -> int {
    capped(window_hits(ws, q, ws.len() as int).len() as int, SEARCH_MAX_RESULTS as int)
}

/// How many apps the results show for query `q`.
pub open spec fn shown_apps(ws: Seq<SearchWindow>, apps: Seq<SearchApp>, q: Seq<char>) -> int {
    capped(app_hits(apps, q, apps.len() as int).len() as int, SEARCH_MAX_RESULTS - shown_windows(ws, q))
}

proof fn lemma_window_hits_prefix(ws: Seq<SearchWindow>, q: Seq<char>, i: int, n: int)
    requires
        0 <= i <= n,
    ensures
        window_hits(ws, q, i).len() <= window_hits(ws, q, n).len(),
        forall|k: int|
            0 <= k < window_hits(ws, q, i).len() ==> window_hits(ws, q, n)[k] == window_hits(ws, q, i)[k],
        forall|k: int| 0 <= k < window_hits(ws, q, n).len() ==> 0 <= #[trigger] window_hits(ws, q, n)[k] < n,
    decreases n,
{
    if n > 0 {
        lemma_window_hits_prefix(ws, q, if i < n { i } else { n - 1 }, n - 1);
    }
}

proof fn lemma_app_hits_prefix(apps: Seq<SearchApp>, q: Seq<char>, i: int, n: int)
    requires
        0 <= i <= n,
    ensures
        app_hits(apps, q, i).len() <= app_hits(apps, q, n).len(),
        forall|k: int| 0 <= k < app_hits(apps, q, i).len() ==> app_hits(apps, q, n)[k] == app_hits(apps, q, i)[k],
        forall|k: int| 0 <= k < app_hits(apps, q, n).len() ==> 0 <= #[trigger] app_hits(apps, q, n)[k] < n,
    decreases n,
{
    if n > 0 {
        lemma_app_hits_prefix(apps, q, if i < n { i } else { n - 1 }, n - 1);
    }
}

/// Whether `window` matches the lowercased query (see [`window_hit`]).
fn window_matches(window: &SearchWindow, query_lower: &str) -> (r: bool)
    ensures
        r == window_hit(*window, query_lower@),
{
    if text_matches(window.title.as_str(), query_lower) {
        return true;
    }
    match &window.exe_name {
        Some(exe) => text_matches(exe.as_str(), query_lower),
        None => false,
    }
}

/// The search results for `query` over the open `windows` (in workspace
/// order) and the installed `apps` (in index order): the matching windows,
/// then the matching apps, at most `SEARCH_MAX_RESULTS` in all, windows
/// first.
pub fn search_results(windows: &[SearchWindow], apps: &[SearchApp], query: &str) -> (r: Vec<SearchResult>)
    ensures
        ({
            let q = lowercase_of(query@);
            let nw = shown_windows(windows@, q);
            let na = shown_apps(windows@, apps@, q);
            &&& r@.len() == nw + na
            &&& forall|k: int|
                #![trigger r@[k]]
                0 <= k < nw ==> {
                    let w = windows@[window_hits(windows@, q, windows@.len() as int)[k]];
                    r@[k] matches SearchResult::Window { hwnd, title } && hwnd == w.hwnd && title@
                        == w.title@
                }
            &&& forall|k: int|
                #![trigger r@[nw + k]]
                0 <= k < na ==> {
                    let a = apps@[app_hits(apps@, q, apps@.len() as int)[k]];
                    r@[nw + k] matches SearchResult::App { name, path } && name@ == a.name@ && path@
                        == a.path@
                }
        }),
{
    let q = to_lowercase(query);
    let ghost qs = q@;
    let mut results: Vec<SearchResult> = Vec::new();
    let mut i: usize = 0;
    proof {
        lemma_window_hits_prefix(windows@, qs, 0, windows@.len() as int);
    }
    while i < windows.len() && results.len() < SEARCH_MAX_RESULTS
        invariant
            i <= windows@.len(),
            qs == lowercase_of(query@),
            q@ == qs,
            results@.len() == window_hits(windows@, qs, i as int).len(),
            results@.len() <= SEARCH_MAX_RESULTS,
            forall|k: int|
                #![trigger results@[k]]
                0 <= k < results@.len() ==> {
                    let w = windows@[window_hits(windows@, qs, i as int)[k]];
                    results@[k] matches SearchResult::Window { hwnd, title } && hwnd == w.hwnd
                        && title@ == w.title@
                },
        decreases windows.len() - i,
    {
        proof {
            lemma_window_hits_prefix(windows@, qs, i as int, i as int);
        }
        if window_matches(&windows[i], q.as_str()) {
            let title = windows[i].title.clone();
            results.push(SearchResult::Window { hwnd: windows[i].hwnd, title });
        }
        i += 1;
    }
    let ghost nw = results@.len() as int;
    proof {
        lemma_window_hits_prefix(windows@, qs, i as int, windows@.len() as int);
        assert(nw == shown_windows(windows@, qs));
    }
    let mut j: usize = 0;
    let mut taken: usize = 0;
    let room: usize = SEARCH_MAX_RESULTS - results.len();
    while j < apps.len() && taken < room
        invariant
            j <= apps@.len(),
            qs == lowercase_of(query@),
            q@ == qs,
            room == SEARCH_MAX_RESULTS - nw,
            0 <= nw <= SEARCH_MAX_RESULTS,
            nw == shown_windows(windows@, qs),
            taken == app_hits(apps@, qs, j as int).len(),
            taken <= room,
            results@.len() == nw + taken,
            forall|k: int|
                #![trigger results@[k]]
                0 <= k < nw ==> {
                    let w = windows@[window_hits(windows@, qs, windows@.len() as int)[k]];
                    results@[k] matches SearchResult::Window { hwnd, title } && hwnd == w.hwnd
                        && title@ == w.title@
                },
            forall|k: int|
                #![trigger results@[nw + k]]
                0 <= k < taken ==> {
                    let a = apps@[app_hits(apps@, qs, j as int)[k]];
                    results@[nw + k] matches SearchResult::App { name, path } && name@ == a.name@
                        && path@ == a.path@
                },
        decreases apps.len() - j,
    {
        proof {
            lemma_app_hits_prefix(apps@, qs, j as int, j as int);
        }
        if text_matches(apps[j].name.as_str(), q.as_str()) {
            let name = apps[j].name.clone();
            let path = apps[j].path.clone();
            results.push(SearchResult::App { name, path });
            taken += 1;
        }
        j += 1;
    }
    proof {
        lemma_app_hits_prefix(apps@, qs, j as int, apps@.len() as int);
    }
    results
}

/// Whether result row `i` (row `i + 1` of the panel; row 0 is the query
/// header) is the first result row holding `(x, y)`.
pub open spec fn first_row_hit(rows: Seq<Rect>, x: int, y: int, i: int) -> bool {
    &&& 0 <= i && i + 1 < rows.len()
    &&& rows[i + 1].has_point(x, y)
    &&& forall|j: int| 1 <= j < i + 1 ==> !rows[j].has_point(x, y)
}

/// A click while searching: the result whose row holds `(x, y)` (counted
/// from the first result row), or `None` — which dismisses the search.
pub fn search_row_hit(rows: &[Rect], x: i32, y: i32) -> (r: Option<usize>)
    ensures
        r matches Some(i) ==> first_row_hit(rows@, x as int, y as int, i as int),
        r is None ==> forall|j: int| 1 <= j < rows@.len() ==> !rows@[j].has_point(x as int, y as int),
{
    let mut j: usize = 1;
    while j < rows.len()
        invariant
            1 <= j,
            j <= rows@.len() || rows@.len() == 0,
            forall|k: int| 1 <= k < j ==> !rows@[k].has_point(x as int, y as int),
        decreases rows.len() - j,
    {
        if rows[j].contains(x, y) {
            return Some(j - 1);
        }
        j += 1;
    }
    None
}

} // verus!
