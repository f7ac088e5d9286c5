//! The traversal coordinator's decisions and the result stream.
//!
//! The walker threads themselves run outside the verified library: for each
//! visited entry they read its metadata and name, ask `select_entry` whether
//! to emit it, send its path, and ask `after_send` whether to keep walking.
//! The consumer pulls the paths from a `Search`.
use vstd::prelude::*;

use crate::filter::{apply_filters, cannot_fail, chain_admits, may_pass, EntryMeta, FilterType};
use crate::matcher::{regex_finds, NameMatcher};

verus! {

/// The most walker threads a search starts, whatever the machine offers.
pub const MAX_THREADS: usize = 12;

/// Relies on `num_cpus::get`: the parallelism the platform reports, which
/// its documentation promises is at least one.
#[verifier::external_body]
fn available_cpus() -> (r: usize)
    ensures
        r >= 1,
{
    num_cpus::get()
}

/// The size of the worker pool for a machine that reports `cpus` logical
/// cores: at most `MAX_THREADS`.
pub fn worker_count(cpus: usize) -> (r: usize)
    ensures
        r == if cpus < MAX_THREADS { cpus } else { MAX_THREADS },
{
    if cpus < MAX_THREADS {
        cpus
    } else {
        MAX_THREADS
    }
}

/// The size of the worker pool on this machine: between one and
/// `MAX_THREADS`.
pub fn default_worker_count() -> (r: usize)
    ensures
        1 <= r <= MAX_THREADS,
{
    worker_count(available_cpus())
}

/// Everything the tree walker is asked to do for one search.
pub struct WalkPlan {
    /// The roots, the primary one first.
    pub roots: Vec<String>,
    /// Whether hidden entries are left out.
    pub skip_hidden: bool,
    /// Whether version-control ignore files are honoured.
    pub git_ignore: bool,
    /// The depth limit, counted from each root separately.
    pub max_depth: Option<usize>,
    /// The number of walker threads.
    pub threads: usize,
}

/// The roots of a search: the primary one, then the additional ones.
pub open spec fn roots_of(location: Seq<char>, more: Option<Seq<String>>) -> Seq<Seq<char>> {
    match more {
        Some(m) => seq![location] + m.map_values(|s: String| s@),
        None => seq![location],
    }
}

/// The views of a list of strings.
pub open spec fn views(v: Seq<String>) -> Seq<Seq<char>> {
    v.map_values(|s: String| s@)
}

/// Plans the walk of a search: the roots in order, hidden entries left out
/// unless `with_hidden`, ignore files honoured, the depth limit per root.
pub fn plan_walk(
    location: &String,
    more_locations: &Option<Vec<String>>,
    depth: Option<usize>,
    with_hidden: bool,
    threads: usize,
) -> (r: WalkPlan)
    ensures
        views(r.roots@) == roots_of(
            location@,
            match more_locations {
                Some(m) => Some(m@),
                None => None,
            },
        ),
        r.skip_hidden == !with_hidden,
        r.git_ignore,
        r.max_depth == depth,
        r.threads == threads,
{
    let mut roots: Vec<String> = Vec::new();
    roots.push(location.clone());
    match more_locations {
        Some(m) => {
            let mut i: usize = 0;
            while i < m.len()
                invariant
                    i <= m.len(),
                    roots@.len() == i + 1,
                    roots@[0]@ == location@,
                    forall|j: int| 0 <= j < i ==> #[trigger] roots@[j + 1]@ == m@[j]@,
                decreases m.len() - i,
            {
                roots.push(m[i].clone());
                i = i + 1;
            }
            assert forall|j: int| 0 <= j < roots@.len() implies #[trigger] views(roots@)[j] == (seq![location@] + views(m@))[j] by {
                if j > 0 {
                    assert(roots@[(j - 1) + 1]@ == m@[j - 1]@);
                }
            }
            assert(views(roots@) =~= seq![location@] + views(m@));
        },
        None => {
            assert(views(roots@) =~= seq![location@]);
        },
    }
    WalkPlan { roots, skip_hidden: !with_hidden, git_ignore: true, max_depth: depth, threads }
}

/// The paths a plan's walk can reach, where `walk(root)` is what the walker
/// finds under one root with the plan's shared settings: roots are walked
/// independently, none takes priority and none is dropped.
pub open spec fn reachable(roots: Seq<Seq<char>>, walk: spec_fn(Seq<char>) -> Set<Seq<char>>) -> Set<
    Seq<char>,
> {
    Set::new(|p: Seq<char>| exists|i: int| 0 <= i < roots.len() && #[trigger] walk(roots[i]).contains(p))
}

/// Searching from root `a` with the additional roots `more` reaches exactly
/// what searching from `a` alone and from each additional root alone reaches.
pub proof fn lemma_roots_merge(a: Seq<char>, more: Seq<String>, walk: spec_fn(Seq<char>) -> Set<Seq<char>>)
    ensures
        reachable(roots_of(a, Some(more)), walk) == reachable(roots_of(a, None), walk).union(
            Set::new(|p: Seq<char>| exists|j: int| 0 <= j < more.len() && #[trigger] reachable(roots_of(more[j]@, None), walk).contains(p)),
        ),
{
    let merged = roots_of(a, Some(more));
    let rest = Set::new(|p: Seq<char>| exists|j: int| 0 <= j < more.len() && #[trigger] reachable(roots_of(more[j]@, None), walk).contains(p));
    assert forall|p: Seq<char>| reachable(merged, walk).contains(p) implies reachable(roots_of(a, None), walk).union(rest).contains(p) by {
        let i = choose|i: int| 0 <= i < merged.len() && #[trigger] walk(merged[i]).contains(p);
        if i == 0 {
            assert(walk(roots_of(a, None)[0]).contains(p));
        } else {
            assert(merged[i] == more[i - 1]@);
            assert(walk(roots_of(more[i - 1]@, None)[0]).contains(p));
            assert(reachable(roots_of(more[i - 1]@, None), walk).contains(p));
        }
    }
    assert forall|p: Seq<char>| reachable(roots_of(a, None), walk).union(rest).contains(p) implies reachable(merged, walk).contains(p) by {
        if reachable(roots_of(a, None), walk).contains(p) {
            let i = choose|i: int| 0 <= i < 1 && #[trigger] walk(roots_of(a, None)[i]).contains(p);
            assert(walk(merged[0]).contains(p));
        } else {
            let j = choose|j: int| 0 <= j < more.len() && #[trigger] reachable(roots_of(more[j]@, None), walk).contains(p);
            let single = roots_of(more[j]@, None);
            let k = choose|k: int| 0 <= k < single.len() && #[trigger] walk(single[k]).contains(p);
            assert(merged[j + 1] == more[j]@);
            assert(walk(merged[j + 1]).contains(p));
        }
    }
    assert(reachable(merged, walk) =~= reachable(roots_of(a, None), walk).union(rest));
}

/// Whether a visited entry is a result: it is not a directory left out of
/// the results, every filter admits it, and its base name (`None`: the path
/// has none) matches the pattern.
pub open spec fn selected<F>(
    pattern: Seq<char>,
    filters: Seq<FilterType<F>>,
    dirs: bool,
    meta: Option<EntryMeta>,
    file_name: Option<Seq<char>>,
    verdict: spec_fn(F) -> bool,
) -> bool {
    &&& !(!dirs && meta is Some && meta->0.is_dir)
    &&& chain_admits(filters, meta, dirs, verdict)
    &&& file_name is Some
    &&& regex_finds(pattern, file_name->0)
}

/// Decides whether a visited entry is emitted. Directories are always
/// descended into, whatever this answers.
pub fn select_entry<F, P: Fn(&F) -> bool>(
    matcher: &NameMatcher,
    filters: &Vec<FilterType<F>>,
    dirs: bool,
    meta: Option<EntryMeta>,
    file_name: Option<&str>,
    custom: &P,
) -> (r: bool)
    requires
        forall|c: &F| custom.requires((c,)),
    ensures
        r ==> selected(
            matcher@,
            filters@,
            dirs,
            meta,
            match file_name {
                Some(n) => Some(n@),
                None => None,
            },
            may_pass(*custom),
        ),
        !r ==> !selected(
            matcher@,
            filters@,
            dirs,
            meta,
            match file_name {
                Some(n) => Some(n@),
                None => None,
            },
            cannot_fail(*custom),
        ),
{
    if !dirs {
        if let Some(m) = meta {
            if m.is_dir {
                return false;
            }
        }
    }
    if !apply_filters(filters, meta, dirs, custom) {
        return false;
    }
    match file_name {
        Some(n) => matcher.is_match(n),
        None => false,
    }
}

/// Adding a filter to a search never adds a result: for the same entries,
/// what the longer chain selects the shorter one selects too.
pub proof fn lemma_filter_narrows_results<F>(
    pattern: Seq<char>,
    filters: Seq<FilterType<F>>,
    extra: FilterType<F>,
    dirs: bool,
    meta: Option<EntryMeta>,
    file_name: Option<Seq<char>>,
    verdict: spec_fn(F) -> bool,
)
    ensures
        selected(pattern, filters.push(extra), dirs, meta, file_name, verdict) ==> selected(
            pattern,
            filters,
            dirs,
            meta,
            file_name,
            verdict,
        ),
{
    crate::filter::lemma_chain_narrows(filters, extra, meta, dirs, verdict);
}

/// What a walker thread does after trying to send a match: with `sent`
/// false the consumer is gone and the thread stops; otherwise, with a limit,
/// it keeps walking while it has delivered at most `limit` matches, and
/// returns its new count. `delivered` counts this thread's earlier
/// deliveries; without a limit it is not advanced.
pub fn after_send(sent: bool, limit: Option<usize>, delivered: usize) -> (r: Option<usize>)
    ensures
        r == if !sent {
            None
        } else {
            match limit {
                None => Some(delivered),
                Some(n) => if delivered < n {
                    Some((delivered + 1) as usize)
                } else {
                    None
                },
            }
        },
{
    if !sent {
        return None;
    }
    match limit {
        None => Some(delivered),
        Some(n) => if delivered < n {
            Some(delivered + 1)
        } else {
            None
        },
    }
}

#[verifier::external_type_specification]
#[verifier::external_body]
#[verifier::reject_recursive_types(T)]
pub struct ExReceiver<T>(std::sync::mpsc::Receiver<T>);

/// Relies on `std::sync::mpsc::Receiver::recv`: blocks for the next path;
/// `None` once every sender is gone and the channel is drained.
#[verifier::external_body]
fn receive(rx: &std::sync::mpsc::Receiver<String>) -> (r: Option<String>) {
    rx.recv().ok()
}

/// The result stream: a single-pass, pull-based sequence of matched paths,
/// cut at the search's limit.
pub struct Search {
    rx: std::sync::mpsc::Receiver<String>,
    remaining: Option<usize>,
    finished: bool,
    limit: Ghost<Option<usize>>,
    yielded: Ghost<nat>,
}

impl Search {
    /// The limit the stream was made with.
    pub closed spec fn limit(&self) -> Option<usize> {
        self.limit@
    }

    /// How many paths the stream has handed out.
    pub closed spec fn yielded(&self) -> nat {
        self.yielded@
    }

    /// Whether the stream has ended; it then stays ended.
    pub closed spec fn finished(&self) -> bool {
        self.finished
    }

    /// The stream's bookkeeping is consistent with its limit.
    pub closed spec fn wf(&self) -> bool {
        match self.limit@ {
            Some(n) => self.remaining == Some((n - self.yielded@) as usize) && self.yielded@ <= n,
            None => self.remaining is None,
        }
    }

    /// A stream over the paths that arrive on `rx`, at most `limit` of them.
    pub fn from_receiver(rx: std::sync::mpsc::Receiver<String>, limit: Option<usize>) -> (r: Search)
        ensures
            r.wf(),
            r.limit() == limit,
            r.yielded() == 0,
            !r.finished(),
    {
        Search { rx, remaining: limit, finished: false, limit: Ghost(limit), yielded: Ghost(0) }
    }

    /// The next path, or `None` at the end of the stream: once the limit has
    /// been handed out, or once every walker is done and all paths are taken.
    /// The stream is single-pass: after the first `None` every call returns
    /// `None`.
    pub fn next(&mut self) -> (r: Option<String>)
        requires
            old(self).wf(),
        ensures
            final(self).wf(),
            final(self).limit() == old(self).limit(),
            r is Some ==> final(self).yielded() == old(self).yielded() + 1,
            r is None ==> final(self).yielded() == old(self).yielded(),
            old(self).limit() == Some(old(self).yielded() as usize) ==> r is None,
            old(self).finished() ==> r is None,
            r is None ==> final(self).finished(),
    {
        if self.finished {
            return None;
        }
        let r = match self.remaining {
            Some(0) => None,
            Some(k) => {
                let r = receive(&self.rx);
                if r.is_some() {
                    self.remaining = Some(k - 1);
                    self.yielded = Ghost(self.yielded@ + 1);
                }
                r
            },
            None => {
                let r = receive(&self.rx);
                if r.is_some() {
                    self.yielded = Ghost(self.yielded@ + 1);
                }
                r
            },
        };
        if r.is_none() {
            self.finished = true;
        }
        r
    }
}

/// A stream made with limit `n` never hands out more than `n` paths, however
/// many matches the walkers produce.
pub proof fn lemma_limit_bounds_stream(s: &Search)
    requires
        s.wf(),
        s.limit() is Some,
    ensures
        s.yielded() <= s.limit()->0,
{
}

} // verus!
