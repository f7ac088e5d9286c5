//! Path helpers and the similarity ranking of collected results.
use vstd::prelude::*;
use vstd::string::StringExecFns;

verus! {

/// The final component of a path, if it has one.
pub uninterp spec fn file_name_of(path: Seq<char>) -> Option<Seq<char>>;

/// The lower-case form of a string.
pub uninterp spec fn lower_of(s: Seq<char>) -> Seq<char>;

/// The Jaro-Winkler similarity of two strings, as the bit pattern of the
/// score; a larger key is a closer match.
pub uninterp spec fn similarity_key(a: Seq<char>, b: Seq<char>) -> u64;

/// What remains of a path after a leading `~` component, if it has one.
pub uninterp spec fn tilde_rest(path: Seq<char>) -> Option<Seq<char>>;

/// A path extended by another one, as on Unix: an absolute `rest` replaces
/// `base`; otherwise a `/` goes between them unless `base` is empty or
/// already ends in one.
pub open spec fn joined(base: Seq<char>, rest: Seq<char>) -> Seq<char> {
    if rest.len() > 0 && rest[0] == '/' {
        rest
    } else if base.len() == 0 || base.last() == '/' {
        base + rest
    } else {
        base + seq!['/'] + rest
    }
}

/// The view of an optional string.
pub open spec fn opt_string_view(s: Option<String>) -> Option<Seq<char>> {
    match s {
        Some(s) => Some(s@),
        None => None,
    }
}

/// Relies on `std::path::Path::file_name`: the last component of the path,
/// `None` when it ends in `..` or is a root.
#[verifier::external_body]
fn path_file_name(path: &str) -> (r: Option<String>)
    ensures
        opt_string_view(r) == file_name_of(path@),
{
    match std::path::Path::new(path).file_name() {
        Some(n) => Some(n.to_string_lossy().into_owned()),
        None => None,
    }
}

/// Relies on `str::to_lowercase`: the result depends on the characters alone.
#[verifier::external_body]
fn lowercase(s: &str) -> (r: String)
    ensures
        r@ == lower_of(s@),
{
    s.to_lowercase()
}

/// Relies on `strsim::jaro_winkler`, whose scores lie in `[0, 1]` and are
/// never NaN; for such numbers the IEEE-754 bit pattern orders as the number
/// does, so the key orders as the score.
#[verifier::external_body]
fn jaro_winkler_key(a: &str, b: &str) -> (r: u64)
    ensures
        r == similarity_key(a@, b@),
{
    strsim::jaro_winkler(a, b).to_bits()
}

/// Relies on `std::path::Path::strip_prefix` with the base `~`: the rest of
/// the path when its first component is `~`.
#[verifier::external_body]
fn strip_tilde(path: &str) -> (r: Option<String>)
    ensures
        opt_string_view(r) == tilde_rest(path@),
{
    match std::path::Path::new(path).strip_prefix("~") {
        Ok(rest) => Some(rest.to_string_lossy().into_owned()),
        Err(_) => None,
    }
}

/// Relies on `std::path::Path::join` on Unix, where a path is absolute when
/// it starts with `/`: an absolute `rest` replaces `base`, and otherwise a
/// separator is pushed only when `base` is non-empty and does not end in one.
#[verifier::external_body]
fn join_path(base: &str, rest: &str) -> (r: String)
    ensures
        r@ == joined(base@, rest@),
{
    std::path::Path::new(base).join(rest).to_string_lossy().into_owned()
}

/// Relies on `dirs::home_dir`: the current user's home directory, if it can
/// be found and is valid Unicode. It depends on the environment, so nothing
/// is promised of it.
#[verifier::external_body]
fn home_dir() -> (r: Option<String>) {
    match dirs::home_dir() {
        Some(p) => p.into_os_string().into_string().ok(),
        None => None,
    }
}

/// Whether a path has a final component: one that ends in `..`, a root
/// and the empty path have none.
pub fn has_file_name(path: &str) -> (r: bool)
    ensures
        r == file_name_of(path@) is Some,
{
    path_file_name(path).is_some()
}

/// The base filename of a path that has one.
pub fn file_name_from_path(path: &str) -> (r: String)
    requires
        file_name_of(path@) is Some,
    ensures
        Some(r@) == file_name_of(path@),
{
    match path_file_name(path) {
        Some(n) => n,
        None => String::new(),
    }
}

/// A path with a leading `~` component replaced by `home`; any other path,
/// or any path when no home is known, unchanged.
pub fn expand_tilde(path: &str, home: Option<&str>) -> (r: String)
    ensures
        r@ == match (tilde_rest(path@), home) {
            (Some(rest), Some(h)) => joined(h@, rest),
            _ => path@,
        },
{
    match strip_tilde(path) {
        Some(rest) => match home {
            Some(h) => join_path(h, rest.as_str()),
            None => String::from_str(path),
        },
        None => String::from_str(path),
    }
}

/// Replaces a leading `~` component with the user's home directory, where
/// it can be found.
pub fn replace_tilde_with_home_dir(path: &str) -> (r: String)
    ensures
        tilde_rest(path@) is None ==> r@ == path@,
        tilde_rest(path@) is Some ==> (r@ == path@ || exists|h: Seq<char>|
            r@ == joined(h, tilde_rest(path@)->0)),
{
    let home = home_dir();
    match home {
        Some(h) => expand_tilde(path, Some(h.as_str())),
        None => expand_tilde(path, None),
    }
}

/// How closely a path's filename resembles the query, both compared in
/// lower case.
pub open spec fn score(path: Seq<char>, query: Seq<char>) -> u64 {
    similarity_key(lower_of(file_name_of(path)->0), lower_of(query))
}

/// Every path has a final component.
pub open spec fn all_named(paths: Seq<String>) -> bool {
    forall|k: int| 0 <= k < paths.len() ==> (#[trigger] file_name_of(paths[k]@)) is Some
}

/// `perm` lists each index below `n` exactly once.
pub open spec fn is_perm(perm: Seq<int>, n: int) -> bool {
    &&& perm.len() == n
    &&& forall|k: int| 0 <= k < n ==> 0 <= #[trigger] perm[k] < n
    &&& forall|k: int, l: int| 0 <= k < n && 0 <= l < n && k != l ==> perm[k] != perm[l]
}

/// `after` holds the elements of `before` in the order `perm` gives.
pub open spec fn reordered<T>(after: Seq<T>, before: Seq<T>, perm: Seq<int>) -> bool {
    &&& after.len() == before.len()
    &&& is_perm(perm, before.len() as int)
    &&& forall|k: int| 0 <= k < after.len() ==> #[trigger] after[k] == before[perm[k]]
}

/// The keys do not increase from left to right.
pub open spec fn descending(keys: Seq<u64>) -> bool {
    forall|k: int, l: int| 0 <= k < l < keys.len() ==> keys[k] >= keys[l]
}

/// The paths are in descending order of similarity to the query.
pub open spec fn ranked(paths: Seq<String>, query: Seq<char>) -> bool {
    forall|k: int, l: int| 0 <= k < l < paths.len() ==> score(paths[k]@, query) >= score(paths[l]@, query)
}

/// Reorders `items` by descending `scores`, where `scores[k]` belongs to
/// `items[k]`. The sort is stable, so items already in descending order
/// of score stay where they are.
pub fn sort_by_scores(items: &mut Vec<String>, scores: &Vec<u64>)
    requires
        old(items).len() == scores.len(),
    ensures
        exists|perm: Seq<int>|
            {
                &&& reordered(final(items)@, old(items)@, perm)
                &&& forall|k: int, l: int|
                    0 <= k < l < perm.len() ==> scores@[perm[k]] >= scores@[perm[l]]
            },
        descending(scores@) ==> final(items)@ == old(items)@,
{
    let n = items.len();
    let mut out: Vec<String> = Vec::new();
    let mut keys: Vec<u64> = Vec::new();
    let ghost mut perm: Seq<int> = Seq::empty();
    let mut i: usize = 0;
    while i < n
        invariant
            n == items.len(),
            n == scores.len(),
            i <= n,
            out@.len() == i,
            keys@.len() == i,
            is_perm(perm, i as int),
            forall|k: int| 0 <= k < i ==> #[trigger] out@[k] == items@[perm[k]],
            forall|k: int| 0 <= k < i ==> #[trigger] keys@[k] == scores@[perm[k]],
            descending(keys@),
            descending(scores@) ==> forall|k: int| 0 <= k < i ==> #[trigger] perm[k] == k,
        decreases n - i,
    {
        let item = items[i].clone();
        let key = scores[i];
        let mut p: usize = 0;
        while p < keys.len() && keys[p] >= key
            invariant
                p <= keys@.len(),
                forall|q: int| 0 <= q < p ==> #[trigger] keys@[q] >= key,
            decreases keys@.len() - p,
        {
            p = p + 1;
        }
        proof {
            if descending(scores@) && p < i {
                assert(perm[p as int] == p);
                assert(scores@[p as int] >= scores@[i as int]);
            }
        }
        let ghost old_keys = keys@;
        let ghost old_perm = perm;
        out.insert(p, item);
        keys.insert(p, key);
        proof {
            perm = perm.insert(p as int, i as int);
            assert forall|k: int, l: int| 0 <= k < l < keys@.len() implies keys@[k] >= keys@[l] by {
                if l < p {
                } else if k < p && l == p {
                } else if k < p {
                    assert(keys@[l] == old_keys[l - 1]);
                } else if k == p {
                    assert(keys@[l] == old_keys[l - 1]);
                    assert(p < old_keys.len());
                    assert(old_keys[p as int] < key);
                } else {
                    assert(keys@[k] == old_keys[k - 1]);
                    assert(keys@[l] == old_keys[l - 1]);
                }
            }
            assert forall|k: int| 0 <= k < i + 1 implies 0 <= #[trigger] perm[k] < i + 1 by {
                if k > p {
                    assert(perm[k] == old_perm[k - 1]);
                }
            }
            assert forall|k: int, l: int| 0 <= k < i + 1 && 0 <= l < i + 1 && k != l implies perm[k] != perm[l] by {
                if k != p && l != p {
                    let k0 = if k < p { k } else { k - 1 };
                    let l0 = if l < p { l } else { l - 1 };
                    assert(perm[k] == old_perm[k0]);
                    assert(perm[l] == old_perm[l0]);
                } else if k == p {
                    let l0 = if l < p { l } else { l - 1 };
                    assert(perm[l] == old_perm[l0]);
                } else {
                    let k0 = if k < p { k } else { k - 1 };
                    assert(perm[k] == old_perm[k0]);
                }
            }
            assert forall|k: int| 0 <= k < i + 1 implies #[trigger] out@[k] == items@[perm[k]] by {
                if k > p {
                    assert(perm[k] == old_perm[k - 1]);
                }
            }
            assert forall|k: int| 0 <= k < i + 1 implies #[trigger] keys@[k] == scores@[perm[k]] by {
                if k > p {
                    assert(perm[k] == old_perm[k - 1]);
                }
            }
            if descending(scores@) {
                assert(p == i);
                assert forall|k: int| 0 <= k < i + 1 implies #[trigger] perm[k] == k by {
                    if k < i {
                        assert(perm[k] == old_perm[k]);
                    }
                }
            }
        }
        i = i + 1;
    }
    proof {
        assert forall|k: int, l: int| 0 <= k < l < perm.len() implies scores@[perm[k]] >= scores@[perm[l]] by {
            assert(keys@[k] == scores@[perm[k]]);
            assert(keys@[l] == scores@[perm[l]]);
        }
        if descending(scores@) {
            assert(out@ =~= items@);
        }
    }
    let ghost before = items@;
    *items = out;
    assert(reordered(items@, before, perm));
}

/// Sorts paths in place by descending similarity of their filenames to
/// `input`, compared in lower case. A sequence already in that order is
/// left as it is.
pub fn similarity_sort(vector: &mut Vec<String>, input: &str)
    requires
        all_named(old(vector)@),
    ensures
        exists|perm: Seq<int>| reordered(final(vector)@, old(vector)@, perm),
        ranked(final(vector)@, input@),
        ranked(old(vector)@, input@) ==> final(vector)@ == old(vector)@,
{
    let query = lowercase(input);
    let mut scores: Vec<u64> = Vec::new();
    let mut i: usize = 0;
    while i < vector.len()
        invariant
            i <= vector.len(),
            query@ == lower_of(input@),
            all_named(vector@),
            scores@.len() == i,
            forall|k: int| 0 <= k < i ==> #[trigger] scores@[k] == score(vector@[k]@, input@),
        decreases vector.len() - i,
    {
        assert(file_name_of(vector@[i as int]@) is Some);
        let name = file_name_from_path(vector[i].as_str());
        let lower = lowercase(name.as_str());
        let key = jaro_winkler_key(lower.as_str(), query.as_str());
        scores.push(key);
        i = i + 1;
    }
    let ghost before = vector@;
    proof {
        if ranked(before, input@) {
            assert forall|k: int, l: int| 0 <= k < l < scores@.len() implies scores@[k] >= scores@[l] by {
                assert(scores@[k] == score(before[k]@, input@));
                assert(scores@[l] == score(before[l]@, input@));
            }
        }
    }
    sort_by_scores(vector, &scores);
    proof {
        let perm = choose|perm: Seq<int>|
            {
                &&& reordered(vector@, before, perm)
                &&& forall|k: int, l: int|
                    0 <= k < l < perm.len() ==> scores@[perm[k]] >= scores@[perm[l]]
            };
        assert forall|k: int, l: int| 0 <= k < l < vector@.len() implies score(vector@[k]@, input@) >= score(vector@[l]@, input@) by {
            assert(vector@[k] == before[perm[k]]);
            assert(vector@[l] == before[perm[l]]);
            assert(scores@[perm[k]] == score(before[perm[k]]@, input@));
            assert(scores@[perm[l]] == score(before[perm[l]]@, input@));
        }
    }
}

/// Sorts paths by similarity as `similarity_sort` does when every path has
/// a filename, and returns `true`; otherwise leaves them as they are and
/// returns `false`.
pub fn try_similarity_sort(vector: &mut Vec<String>, input: &str) -> (r: bool)
    ensures
        r == all_named(old(vector)@),
        r ==> exists|perm: Seq<int>| reordered(final(vector)@, old(vector)@, perm),
        r ==> ranked(final(vector)@, input@),
        r && ranked(old(vector)@, input@) ==> final(vector)@ == old(vector)@,
        !r ==> final(vector)@ == old(vector)@,
{
    let mut i: usize = 0;
    while i < vector.len()
        invariant
            i <= vector.len(),
            forall|k: int| 0 <= k < i ==> (#[trigger] file_name_of(vector@[k]@)) is Some,
        decreases vector.len() - i,
    {
        if !has_file_name(vector[i].as_str()) {
            return false;
        }
        i = i + 1;
    }
    similarity_sort(vector, input);
    true
}

} // verus!
