//! Metadata predicates on visited entries, combined with AND semantics.
use vstd::prelude::*;

verus! {

/// Relies on `Clone` for `std::cmp::Ordering`, a `Copy` enum: the clone is
/// the same variant.
pub assume_specification[ <std::cmp::Ordering as Clone>::clone ](o: &std::cmp::Ordering) -> (r: std::cmp::Ordering)
    ensures
        r == *o,
;

/// A point in time, as signed nanoseconds since the Unix epoch.
#[derive(Debug, Clone, Copy, PartialEq, Eq, Structural)]
pub struct Timestamp {
    pub nanos: i128,
}

/// What a filter may read of an entry's metadata.
#[derive(Debug, Clone, Copy, PartialEq, Eq, Structural)]
pub struct EntryMeta {
    /// Whether the entry is a directory.
    pub is_dir: bool,
    /// Creation time, where the platform reports it.
    pub created: Option<Timestamp>,
    /// Last modification time, where the platform reports it.
    pub modified: Option<Timestamp>,
    /// Size in bytes.
    pub len: u64,
}

/// One predicate of the filter chain. `F` is the type of a custom predicate,
/// which the caller evaluates on the raw entry.
#[derive(Debug, Clone, Copy)]
pub enum FilterType<F> {
    /// The creation time compares to the given time as the ordering says.
    Created(std::cmp::Ordering, Timestamp),
    /// The modification time compares to the given time as the ordering says.
    Modified(std::cmp::Ordering, Timestamp),
    /// The size compares to the given byte count as the ordering says.
    FileSize(std::cmp::Ordering, u64),
    /// A predicate of the caller's.
    Custom(F),
}

/// How `a` compares to `b` under the usual total order.
pub open spec fn ordering_of(a: int, b: int) -> std::cmp::Ordering {
    if a < b {
        std::cmp::Ordering::Less
    } else if a == b {
        std::cmp::Ordering::Equal
    } else {
        std::cmp::Ordering::Greater
    }
}

/// Whether an optional time is present and compares to `t` as `o` says.
pub open spec fn time_holds(field: Option<Timestamp>, o: std::cmp::Ordering, t: Timestamp) -> bool {
    match field {
        Some(x) => ordering_of(x.nanos as int, t.nanos as int) == o,
        None => false,
    }
}

/// Whether filter `f` admits an entry with metadata `meta` (`None`: the
/// metadata could not be read), where `verdict` gives what each custom
/// predicate answers for this entry. Unreadable metadata or a missing field
/// fails the filter; a directory passes unread when filters do not apply to
/// directories.
pub open spec fn admits<F>(
    f: FilterType<F>,
    meta: Option<EntryMeta>,
    filter_dirs: bool,
    verdict: spec_fn(F) -> bool,
) -> bool {
    match meta {
        None => false,
        Some(m) => if !filter_dirs && m.is_dir {
            true
        } else {
            match f {
                FilterType::Created(o, t) => time_holds(m.created, o, t),
                FilterType::Modified(o, t) => time_holds(m.modified, o, t),
                FilterType::FileSize(o, s) => ordering_of(m.len as int, s as int) == o,
                FilterType::Custom(c) => verdict(c),
            }
        },
    }
}

/// Whether every filter of the chain admits the entry.
pub open spec fn chain_admits<F>(
    filters: Seq<FilterType<F>>,
    meta: Option<EntryMeta>,
    filter_dirs: bool,
    verdict: spec_fn(F) -> bool,
) -> bool {
    forall|i: int| 0 <= i < filters.len() ==> #[trigger] admits(filters[i], meta, filter_dirs, verdict)
}

/// Custom predicates read as: "may answer true".
pub open spec fn may_pass<F, P: Fn(&F) -> bool>(custom: P) -> spec_fn(F) -> bool {
    |c: F| custom.ensures((&c,), true)
}

/// Custom predicates read as: "cannot answer false".
pub open spec fn cannot_fail<F, P: Fn(&F) -> bool>(custom: P) -> spec_fn(F) -> bool {
    |c: F| !custom.ensures((&c,), false)
}

/// Compares two timestamps.
fn compare_time(a: Timestamp, b: Timestamp) -> (r: std::cmp::Ordering)
    ensures
        r == ordering_of(a.nanos as int, b.nanos as int),
{
    if a.nanos < b.nanos {
        std::cmp::Ordering::Less
    } else if a.nanos == b.nanos {
        std::cmp::Ordering::Equal
    } else {
        std::cmp::Ordering::Greater
    }
}

/// Compares two byte counts.
fn compare_size(a: u64, b: u64) -> (r: std::cmp::Ordering)
    ensures
        r == ordering_of(a as int, b as int),
{
    if a < b {
        std::cmp::Ordering::Less
    } else if a == b {
        std::cmp::Ordering::Equal
    } else {
        std::cmp::Ordering::Greater
    }
}

/// Whether two orderings are the same.
fn same_ordering(a: std::cmp::Ordering, b: std::cmp::Ordering) -> (r: bool)
    ensures
        r == (a == b),
{
    match (a, b) {
        (std::cmp::Ordering::Less, std::cmp::Ordering::Less) => true,
        (std::cmp::Ordering::Equal, std::cmp::Ordering::Equal) => true,
        (std::cmp::Ordering::Greater, std::cmp::Ordering::Greater) => true,
        _ => false,
    }
}

/// Whether an optional time is present and compares to `t` as `o` says.
fn time_matches(field: Option<Timestamp>, o: std::cmp::Ordering, t: Timestamp) -> (r: bool)
    ensures
        r == time_holds(field, o, t),
{
    match field {
        Some(x) => same_ordering(compare_time(x, t), o),
        None => false,
    }
}

impl<F> FilterType<F> {
    /// Evaluates this filter on an entry's metadata; a custom predicate is
    /// answered by `custom`, which is called only when the metadata was read
    /// and the entry is not a directory passed through unread.
    pub fn apply<P: Fn(&F) -> bool>(&self, meta: Option<EntryMeta>, filter_dirs: bool, custom: &P) -> (r: bool)
        requires
            forall|c: &F| custom.requires((c,)),
        ensures
            r ==> admits(*self, meta, filter_dirs, may_pass(*custom)),
            !r ==> !admits(*self, meta, filter_dirs, cannot_fail(*custom)),
    {
        match meta {
            None => false,
            Some(m) => {
                if !filter_dirs && m.is_dir {
                    return true;
                }
                match self {
                    FilterType::Created(o, t) => time_matches(m.created, *o, *t),
                    FilterType::Modified(o, t) => time_matches(m.modified, *o, *t),
                    FilterType::FileSize(o, s) => same_ordering(compare_size(m.len, *s), *o),
                    FilterType::Custom(c) => custom(c),
                }
            },
        }
    }
}

/// Evaluates the filter chain in order and stops at the first filter that
/// rejects the entry.
pub fn apply_filters<F, P: Fn(&F) -> bool>(
    filters: &Vec<FilterType<F>>,
    meta: Option<EntryMeta>,
    filter_dirs: bool,
    custom: &P,
) -> (r: bool)
    requires
        forall|c: &F| custom.requires((c,)),
    ensures
        r ==> chain_admits(filters@, meta, filter_dirs, may_pass(*custom)),
        !r ==> !chain_admits(filters@, meta, filter_dirs, cannot_fail(*custom)),
{
    let mut i: usize = 0;
    while i < filters.len()
        invariant
            i <= filters.len(),
            forall|c: &F| custom.requires((c,)),
            forall|j: int| 0 <= j < i ==> #[trigger] admits(filters@[j], meta, filter_dirs, may_pass(*custom)),
        decreases filters.len() - i,
    {
        if !filters[i].apply(meta, filter_dirs, custom) {
            assert(!admits(filters@[i as int], meta, filter_dirs, cannot_fail(*custom)));
            return false;
        }
        i = i + 1;
    }
    true
}

/// Adding a filter to a chain never admits an entry that the chain alone
/// rejected: the chain is a conjunction.
pub proof fn lemma_chain_narrows<F>(
    filters: Seq<FilterType<F>>,
    extra: FilterType<F>,
    meta: Option<EntryMeta>,
    filter_dirs: bool,
    verdict: spec_fn(F) -> bool,
)
    ensures
        chain_admits(filters.push(extra), meta, filter_dirs, verdict) ==> chain_admits(filters, meta, filter_dirs, verdict),
        chain_admits(filters.push(extra), meta, filter_dirs, verdict) == (chain_admits(filters, meta, filter_dirs, verdict)
            && admits(extra, meta, filter_dirs, verdict)),
{
    let longer = filters.push(extra);
    if chain_admits(longer, meta, filter_dirs, verdict) {
        assert forall|i: int| 0 <= i < filters.len() implies #[trigger] admits(filters[i], meta, filter_dirs, verdict) by {
            assert(longer[i] == filters[i]);
        }
        assert(longer[filters.len() as int] == extra);
    }
    if chain_admits(filters, meta, filter_dirs, verdict) && admits(extra, meta, filter_dirs, verdict) {
        assert forall|i: int| 0 <= i < longer.len() implies #[trigger] admits(longer[i], meta, filter_dirs, verdict) by {
            if i < filters.len() {
                assert(longer[i] == filters[i]);
            }
        }
    }
}

} // verus!
