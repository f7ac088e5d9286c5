//! The search configuration and its fluent builder.
use vstd::prelude::*;
use vstd::string::{StrSliceExecFns, StringExecFns};

use crate::filter::{FilterType, Timestamp};
use crate::matcher::{build_regex_search_input, regex_compiles, search_pattern, NameMatcher, SearchError};
use crate::search::{default_worker_count, plan_walk, roots_of, views, WalkPlan, MAX_THREADS};
use crate::utils::{joined, replace_tilde_with_home_dir, tilde_rest};

verus! {

/// The settings of a search, as plain values.
pub struct SearchConfig<F> {
    pub location: Seq<char>,
    pub more_locations: Option<Seq<String>>,
    pub search_input: Option<Seq<char>>,
    pub file_ext: Option<Seq<char>>,
    pub depth: Option<usize>,
    pub limit: Option<usize>,
    pub strict: bool,
    pub ignore_case: bool,
    pub hidden: bool,
    pub filters: Seq<FilterType<F>>,
    pub dirs: bool,
}

/// Builder for a search. `F` is the type of the caller's custom filters.
pub struct SearchBuilder<F> {
    search_location: String,
    more_locations: Option<Vec<String>>,
    search_input: Option<String>,
    file_ext: Option<String>,
    depth: Option<usize>,
    limit: Option<usize>,
    strict: bool,
    ignore_case: bool,
    hidden: bool,
    filters: Vec<FilterType<F>>,
    dirs: bool,
}

impl<F> View for SearchBuilder<F> {
    type V = SearchConfig<F>;

    closed spec fn view(&self) -> SearchConfig<F> {
        SearchConfig {
            location: self.search_location@,
            more_locations: match self.more_locations {
                Some(m) => Some(m@),
                None => None,
            },
            search_input: match self.search_input {
                Some(s) => Some(s@),
                None => None,
            },
            file_ext: match self.file_ext {
                Some(s) => Some(s@),
                None => None,
            },
            depth: self.depth,
            limit: self.limit,
            strict: self.strict,
            ignore_case: self.ignore_case,
            hidden: self.hidden,
            filters: self.filters@,
            dirs: self.dirs,
        }
    }
}

/// What a location becomes once a leading `~` is expanded: itself, or the
/// rest of it joined to some home directory.
pub open spec fn expanded_from(r: Seq<char>, location: Seq<char>) -> bool {
    match tilde_rest(location) {
        None => r == location,
        Some(rest) => r == location || exists|h: Seq<char>| r == joined(h, rest),
    }
}

/// An extension without its leading dot, if it has one.
pub open spec fn strip_dot(ext: Seq<char>) -> Seq<char> {
    if ext.len() > 0 && ext[0] == '.' {
        ext.subrange(1, ext.len() as int)
    } else {
        ext
    }
}

/// A compiled search, ready for the walker threads.
pub struct SearchPlan {
    /// The filename matcher.
    pub matcher: NameMatcher,
    /// What the tree walker is asked to do.
    pub walk: WalkPlan,
    /// The most results the stream hands out.
    pub limit: Option<usize>,
    /// Whether directories are results and filters apply to them.
    pub dirs: bool,
}

impl<F> Default for SearchBuilder<F> {
    /// A search for every entry under the current directory `.`, with
    /// hidden entries left out and directories included.
    fn default() -> (r: Self)
        ensures
            r@ == (SearchConfig::<F> {
                location: "."@,
                more_locations: None,
                search_input: None,
                file_ext: None,
                depth: None,
                limit: None,
                strict: false,
                ignore_case: false,
                hidden: false,
                filters: Seq::empty(),
                dirs: true,
            }),
    {
        let r = SearchBuilder {
            search_location: String::from_str("."),
            more_locations: None,
            search_input: None,
            file_ext: None,
            depth: None,
            limit: None,
            strict: false,
            ignore_case: false,
            hidden: false,
            filters: Vec::new(),
            dirs: true,
        };
        assert(r@.filters =~= Seq::<FilterType<F>>::empty());
        r
    }
}

impl<F> SearchBuilder<F> {
    /// Compiles the filename pattern and plans the walk. Fails, before any
    /// traversal, exactly when the pattern is not a valid regular expression.
    pub fn build(&self) -> (r: Result<SearchPlan, SearchError>)
        ensures
            ({
                let c = self@;
                let p = search_pattern(c.search_input, c.file_ext, c.strict, c.ignore_case);
                match r {
                    Ok(plan) => {
                        &&& regex_compiles(p)
                        &&& plan.matcher@ == p
                        &&& views(plan.walk.roots@) == roots_of(c.location, c.more_locations)
                        &&& plan.walk.skip_hidden == !c.hidden
                        &&& plan.walk.git_ignore
                        &&& plan.walk.max_depth == c.depth
                        &&& 1 <= plan.walk.threads <= MAX_THREADS
                        &&& plan.limit == c.limit
                        &&& plan.dirs == c.dirs
                    },
                    Err(SearchError::InvalidPattern(q)) => !regex_compiles(p) && q@ == p,
                }
            }),
    {
        let term: Option<&str> = match &self.search_input {
            Some(s) => Some(s.as_str()),
            None => None,
        };
        let ext: Option<&str> = match &self.file_ext {
            Some(s) => Some(s.as_str()),
            None => None,
        };
        let matcher = match build_regex_search_input(term, ext, self.strict, self.ignore_case) {
            Ok(m) => m,
            Err(e) => return Err(e),
        };
        let walk = plan_walk(&self.search_location, &self.more_locations, self.depth, self.hidden, default_worker_count());
        Ok(SearchPlan { matcher, walk, limit: self.limit, dirs: self.dirs })
    }

    /// The filter chain, in the order the filters were added.
    pub fn filters(&self) -> (r: &Vec<FilterType<F>>)
        ensures
            r@ == self@.filters,
    {
        &self.filters
    }

    /// Sets the location to search in; a leading `~` stands for the home
    /// directory.
    pub fn location(self, location: &str) -> (r: Self)
        ensures
            expanded_from(r@.location, location@),
            (SearchConfig { location: r@.location, ..self@ }) == r@,
    {
        SearchBuilder { search_location: replace_tilde_with_home_dir(location), ..self }
    }

    /// Sets the search term.
    pub fn search_input(self, input: &str) -> (r: Self)
        ensures
            r@ == (SearchConfig { search_input: Some(input@), ..self@ }),
    {
        SearchBuilder { search_input: Some(String::from_str(input)), ..self }
    }

    /// Sets the extension to search for; a leading dot is dropped.
    pub fn ext(self, ext: &str) -> (r: Self)
        ensures
            r@ == (SearchConfig { file_ext: Some(strip_dot(ext@)), ..self@ }),
    {
        let n = ext.unicode_len();
        let e = if n > 0 && ext.get_char(0) == '.' {
            String::from_str(ext.substring_char(1, n))
        } else {
            String::from_str(ext)
        };
        SearchBuilder { file_ext: Some(e), ..self }
    }

    /// Adds a filter to the chain.
    pub fn filter(self, filter: FilterType<F>) -> (r: Self)
        ensures
            r@ == (SearchConfig { filters: self@.filters.push(filter), ..self@ }),
    {
        let mut s = self;
        s.filters.push(filter);
        s
    }

    /// Sets how many levels below each root are searched.
    pub fn depth(self, depth: usize) -> (r: Self)
        ensures
            r@ == (SearchConfig { depth: Some(depth), ..self@ }),
    {
        SearchBuilder { depth: Some(depth), ..self }
    }

    /// Sets the most results the search returns.
    pub fn limit(self, limit: usize) -> (r: Self)
        ensures
            r@ == (SearchConfig { limit: Some(limit), ..self@ }),
    {
        SearchBuilder { limit: Some(limit), ..self }
    }

    /// Asks for names that are exactly the term and the extension.
    pub fn strict(self) -> (r: Self)
        ensures
            r@ == (SearchConfig { strict: true, ..self@ }),
    {
        SearchBuilder { strict: true, ..self }
    }

    /// Compares names without regard to case.
    pub fn ignore_case(self) -> (r: Self)
        ensures
            r@ == (SearchConfig { ignore_case: true, ..self@ }),
    {
        SearchBuilder { ignore_case: true, ..self }
    }

    /// Includes hidden entries.
    pub fn hidden(self) -> (r: Self)
        ensures
            r@ == (SearchConfig { hidden: true, ..self@ }),
    {
        SearchBuilder { hidden: true, ..self }
    }

    /// Adds locations to search besides the main one; a leading `~` in each
    /// stands for the home directory.
    pub fn more_locations(self, more_locations: Vec<&str>) -> (r: Self)
        ensures
            r@.more_locations is Some,
            r@.more_locations->0.len() == more_locations@.len(),
            forall|i: int|
                0 <= i < more_locations@.len() ==> expanded_from(
                    #[trigger] r@.more_locations->0[i]@,
                    more_locations@[i]@,
                ),
            (SearchConfig { more_locations: r@.more_locations, ..self@ }) == r@,
    {
        let mut locs: Vec<String> = Vec::new();
        let mut i: usize = 0;
        while i < more_locations.len()
            invariant
                i <= more_locations@.len(),
                locs@.len() == i,
                forall|j: int| 0 <= j < i ==> expanded_from(#[trigger] locs@[j]@, more_locations@[j]@),
            decreases more_locations@.len() - i,
        {
            locs.push(replace_tilde_with_home_dir(more_locations[i]));
            i = i + 1;
        }
        SearchBuilder { more_locations: Some(locs), ..self }
    }

    /// Chooses whether directories are results and whether filters apply
    /// to them.
    pub fn dirs(self, value: bool) -> (r: Self)
        ensures
            r@ == (SearchConfig { dirs: value, ..self@ }),
    {
        SearchBuilder { dirs: value, ..self }
    }

    /// Keeps entries created before `t`.
    pub fn created_before(self, t: Timestamp) -> (r: Self)
        ensures
            r@ == (SearchConfig { filters: self@.filters.push(FilterType::Created(std::cmp::Ordering::Less, t)), ..self@ }),
    {
        self.filter(FilterType::Created(std::cmp::Ordering::Less, t))
    }

    /// Keeps entries created at exactly `t`.
    pub fn created_at(self, t: Timestamp) -> (r: Self)
        ensures
            r@ == (SearchConfig { filters: self@.filters.push(FilterType::Created(std::cmp::Ordering::Equal, t)), ..self@ }),
    {
        self.filter(FilterType::Created(std::cmp::Ordering::Equal, t))
    }

    /// Keeps entries created after `t`.
    pub fn created_after(self, t: Timestamp) -> (r: Self)
        ensures
            r@ == (SearchConfig { filters: self@.filters.push(FilterType::Created(std::cmp::Ordering::Greater, t)), ..self@ }),
    {
        self.filter(FilterType::Created(std::cmp::Ordering::Greater, t))
    }

    /// Keeps entries modified before `t`.
    pub fn modified_before(self, t: Timestamp) -> (r: Self)
        ensures
            r@ == (SearchConfig { filters: self@.filters.push(FilterType::Modified(std::cmp::Ordering::Less, t)), ..self@ }),
    {
        self.filter(FilterType::Modified(std::cmp::Ordering::Less, t))
    }

    /// Keeps entries modified at exactly `t`.
    pub fn modified_at(self, t: Timestamp) -> (r: Self)
        ensures
            r@ == (SearchConfig { filters: self@.filters.push(FilterType::Modified(std::cmp::Ordering::Equal, t)), ..self@ }),
    {
        self.filter(FilterType::Modified(std::cmp::Ordering::Equal, t))
    }

    /// Keeps entries modified after `t`.
    pub fn modified_after(self, t: Timestamp) -> (r: Self)
        ensures
            r@ == (SearchConfig { filters: self@.filters.push(FilterType::Modified(std::cmp::Ordering::Greater, t)), ..self@ }),
    {
        self.filter(FilterType::Modified(std::cmp::Ordering::Greater, t))
    }

    /// Keeps entries smaller than `size` bytes.
    pub fn file_size_smaller(self, size: u64) -> (r: Self)
        ensures
            r@ == (SearchConfig { filters: self@.filters.push(FilterType::FileSize(std::cmp::Ordering::Less, size)), ..self@ }),
    {
        self.filter(FilterType::FileSize(std::cmp::Ordering::Less, size))
    }

    /// Keeps entries of exactly `size` bytes.
    pub fn file_size_equal(self, size: u64) -> (r: Self)
        ensures
            r@ == (SearchConfig { filters: self@.filters.push(FilterType::FileSize(std::cmp::Ordering::Equal, size)), ..self@ }),
    {
        self.filter(FilterType::FileSize(std::cmp::Ordering::Equal, size))
    }

    /// Keeps entries larger than `size` bytes.
    pub fn file_size_greater(self, size: u64) -> (r: Self)
        ensures
            r@ == (SearchConfig { filters: self@.filters.push(FilterType::FileSize(std::cmp::Ordering::Greater, size)), ..self@ }),
    {
        self.filter(FilterType::FileSize(std::cmp::Ordering::Greater, size))
    }

    /// Keeps entries that the caller's predicate accepts.
    pub fn custom_filter(self, f: F) -> (r: Self)
        ensures
            r@ == (SearchConfig { filters: self@.filters.push(FilterType::Custom(f)), ..self@ }),
    {
        self.filter(FilterType::Custom(f))
    }
}

} // verus!
