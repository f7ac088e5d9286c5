//! Locate files and directories whose names match a pattern, under one or
//! more roots, with metadata filters, a result limit and similarity ranking.
pub mod builder;
pub mod filter;
pub mod matcher;
pub mod search;
pub mod utils;

pub use builder::{SearchBuilder, SearchConfig, SearchPlan};
pub use filter::{apply_filters, EntryMeta, FilterType, Timestamp};
pub use matcher::{build_regex_search_input, set_case_insensitive, NameMatcher, SearchError};
pub use search::{after_send, plan_walk, select_entry, worker_count, Search, WalkPlan};
pub use utils::{
    expand_tilde, file_name_from_path, has_file_name, replace_tilde_with_home_dir, similarity_sort, sort_by_scores,
    try_similarity_sort,
};
