//! GroveShell's own persisted pinned-dock-app list: pure list operations
//! (reordering), the `dock_pins.json` format (a JSON array of launch
//! paths, parsed and written with `serde_json`) and the "load, or seed and
//! save" decision. Reading and writing the file's bytes is the front end's
//! job.

use vstd::prelude::*;

verus! {

/// `s` with the entry at `from` moved so it ends up at `to`; out-of-range
/// indices or `from == to` leave `s` as it is.
pub open spec fn reorder_spec<A>(s: Seq<A>, from: int, to: int) -> Seq<A> {
    if from < 0 || to < 0 || from >= s.len() || to >= s.len() || from == to {
        s
    } else {
        s.remove(from).insert(to, s[from])
    }
}

/// Reorders `pins` so the entry at `from` ends up at `to`. Out-of-range
/// indices or `from == to` return `pins` unchanged (cloned) rather than
/// panicking, so a stale index from a drag racing a rebuild is harmless.
pub fn reorder(pins: &[String], from: usize, to: usize) -> (result: Vec<String>)
    ensures
        result@ == reorder_spec(pins@, from as int, to as int),
{
    let mut result: Vec<String> = Vec::new();
    let mut i: usize = 0;
    while i < pins.len()
        invariant
            i <= pins.len(),
            result@ == pins@.subrange(0, i as int),
        decreases pins.len() - i,
    {
        result.push(pins[i].clone());
        i += 1;
    }
    assert(result@ =~= pins@);
    if from >= pins.len() || to >= pins.len() || from == to {
        return result;
    }
    let item = result.remove(from);
    result.insert(to, item);
    result
}

/// What `load_or_seed` decided: the list to use, and whether it has to be
/// written out (it was freshly seeded rather than loaded).
pub struct LoadedPins {
    pub pins: Vec<String>,
    pub needs_save: bool,
}

/// Uses the persisted list when one was read; otherwise takes `seed` as the
/// starting point and asks for it to be persisted, after which the file is
/// authoritative.
pub fn load_or_seed(loaded: Option<Vec<String>>, seed: Vec<String>) -> (result: LoadedPins)
    ensures
        match loaded {
            Some(p) => result.pins@ == p@ && !result.needs_save,
            None => result.pins@ == seed@ && result.needs_save,
        },
{
    match loaded {
        Some(pins) => LoadedPins { pins, needs_save: false },
        None => LoadedPins { pins: seed, needs_save: true },
    }
}

/// Reordering never adds, drops or duplicates an entry: the result holds
/// exactly the entries of the input, each as many times as before.
pub proof fn lemma_reorder_is_permutation<A>(s: Seq<A>, from: int, to: int)
    ensures
        reorder_spec(s, from, to).len() == s.len(),
        reorder_spec(s, from, to).to_multiset() =~= s.to_multiset(),
{
    broadcast use vstd::seq_lib::group_to_multiset_ensures;

    if !(from < 0 || to < 0 || from >= s.len() || to >= s.len() || from == to) {
        let r = s.remove(from);
        let x = s[from];
        let t = r.insert(to, x);
        r.insert_ensures(to, x);
        assert(t.remove(to) =~= r);
        assert(t.to_multiset().count(x) > 0) by {
            assert(t.contains(x)) by {
                assert(t[to] == x);
            }
        }
        assert(r.to_multiset() =~= t.to_multiset().remove(x));
        assert(r.to_multiset() =~= s.to_multiset().remove(x));
        assert(s.to_multiset().count(x) > 0) by {
            assert(s.contains(x));
        }
        assert(t.to_multiset() =~= s.to_multiset()) by {
            assert forall|a: A| t.to_multiset().count(a) == s.to_multiset().count(a) by {
                if a == x {
                } else {
                }
            }
        }
    }
}

/// The moved entry lands exactly at `to`, for in-range indices.
pub proof fn lemma_reorder_places_entry<A>(s: Seq<A>, from: int, to: int)
    requires
        0 <= from < s.len(),
        0 <= to < s.len(),
    ensures
        reorder_spec(s, from, to)[to] == s[from],
{
    if from != to {
        s.remove(from).insert_ensures(to, s[from]);
    }
}

/// Moving an entry back where it came from undoes a reorder.
pub proof fn lemma_reorder_round_trip<A>(s: Seq<A>, from: int, to: int)
    requires
        0 <= from < s.len(),
        0 <= to < s.len(),
    ensures
        reorder_spec(reorder_spec(s, from, to), to, from) =~= s,
{
    if from != to {
        let r = s.remove(from);
        let x = s[from];
        let t = r.insert(to, x);
        r.insert_ensures(to, x);
        assert(t.len() == s.len());
        assert(t[to] == x);
        assert(t.remove(to) =~= r);
        let u = r.insert(from, x);
        r.insert_ensures(from, x);
        assert(u =~= s);
    }
}

/// The strings of `v`, each by its characters.
pub open spec fn string_views(v: Seq<String>) -> Seq<Seq<char>> {
    v.map_values(|p: String| p@)
}

/// What `serde_json::from_str::<Vec<String>>` makes of `data`: the array's
/// strings when `data` is a JSON array of strings, `None` for any other text.
pub uninterp spec fn json_path_list(data: Seq<char>) -> Option<Seq<Seq<char>>>;

/// What `serde_json::to_string_pretty` writes for a slice of strings.
pub uninterp spec fn json_pretty_path_list(pins: Seq<Seq<char>>) -> Seq<char>;

/// `serde_json::from_str` into a list of strings; the contract says only
/// that the result is the named parse of `data` (`None` where serde_json
/// returns an error).
#[verifier::external_body]
fn parse_pin_list(data: &str) -> (r: Option<Vec<String>>)
    ensures
        match json_path_list(data@) {
            Some(s) => r matches Some(v) && string_views(v@) == s,
            None => r is None,
        },
{
    serde_json::from_str(data).ok()
}

/// `serde_json::to_string_pretty` on a slice of strings. The contract
/// claims it succeeds: serde_json fails only where a `Serialize` impl
/// fails or a map has non-string keys, and strings do neither.
#[verifier::external_body]
fn serialize_pin_list(pins: &[String]) -> (r: Option<String>)
    ensures
        r is Some,
        r is Some ==> r->0@ == json_pretty_path_list(string_views(pins@)),
{
    serde_json::to_string_pretty(pins).ok()
}

/// The persisted list, from the file's text (`None` when the file could not
/// be read). `None` when there is no file or it does not parse: both mean
/// nothing was persisted yet.
pub fn load(file_text: Option<String>) -> (r: Option<Vec<String>>)
    ensures
        match file_text {
            None => r is None,
            Some(t) => match json_path_list(t@) {
                Some(s) => r matches Some(v) && string_views(v@) == s,
                None => r is None,
            },
        },
{
    match file_text {
        None => None,
        Some(t) => parse_pin_list(t.as_str()),
    }
}

/// The text `dock_pins.json` holds for `pins`: a pretty-printed JSON array.
pub fn save_text(pins: &[String]) -> (r: String)
    ensures
        r@ == json_pretty_path_list(string_views(pins@)),
{
    match serialize_pin_list(pins) {
        Some(text) => text,
        None => String::new(),
    }
}

/// What startup does with the pin file: the persisted list when the file
/// held one, and nothing to write; otherwise `seed`, which is written out
/// (`save` holds the file's new text), after which the file is
/// authoritative.
pub struct PinsFromFile {
    pub pins: Vec<String>,
    pub save: Option<String>,
}

/// Loads the persisted list from the file's text, or seeds it and asks for
/// the seed to be written.
pub fn load_or_seed_file(file_text: Option<String>, seed: Vec<String>) -> (r: PinsFromFile)
    ensures
        ({
            let parsed = match file_text {
                Some(t) => json_path_list(t@),
                None => None,
            };
            match parsed {
                Some(s) => string_views(r.pins@) == s && r.save is None,
                None => r.pins@ == seed@ && r.save is Some && r.save->0@ == json_pretty_path_list(
                    string_views(seed@),
                ),
            }
        }),
{
    let loaded = load(file_text);
    let decided = load_or_seed(loaded, seed);
    if decided.needs_save {
        let text = save_text(decided.pins.as_slice());
        PinsFromFile { pins: decided.pins, save: Some(text) }
    } else {
        PinsFromFile { pins: decided.pins, save: None }
    }
}

} // verus!
