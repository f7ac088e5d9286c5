use rust_search::{
    after_send, apply_filters, build_regex_search_input, plan_walk, select_entry, worker_count, EntryMeta,
    FilterType, SearchBuilder, Timestamp,
};
use std::cmp::Ordering;

fn file(len: u64) -> EntryMeta {
    EntryMeta {
        is_dir: false,
        created: Some(Timestamp { nanos: 1_000 }),
        modified: Some(Timestamp { nanos: 2_000 }),
        len,
    }
}

fn dir() -> EntryMeta {
    EntryMeta { is_dir: true, created: None, modified: None, len: 4096 }
}

fn no_custom(_: &u8) -> bool {
    panic!("no custom filter in this chain")
}

#[test]
fn size_filters_compare_exactly() {
    let f: FilterType<u8> = FilterType::FileSize(Ordering::Less, 100);
    assert!(f.apply(Some(file(99)), true, &no_custom));
    assert!(!f.apply(Some(file(100)), true, &no_custom));
    let f: FilterType<u8> = FilterType::FileSize(Ordering::Equal, 100);
    assert!(f.apply(Some(file(100)), true, &no_custom));
    assert!(!f.apply(Some(file(101)), true, &no_custom));
    let f: FilterType<u8> = FilterType::FileSize(Ordering::Greater, 100);
    assert!(f.apply(Some(file(101)), true, &no_custom));
    assert!(!f.apply(Some(file(100)), true, &no_custom));
}

#[test]
fn time_filters_compare_exactly() {
    let t = Timestamp { nanos: 1_500 };
    let created_before: FilterType<u8> = FilterType::Created(Ordering::Less, t);
    let modified_after: FilterType<u8> = FilterType::Modified(Ordering::Greater, t);
    let created_at: FilterType<u8> = FilterType::Created(Ordering::Equal, Timestamp { nanos: 1_000 });
    assert!(created_before.apply(Some(file(1)), true, &no_custom));
    assert!(modified_after.apply(Some(file(1)), true, &no_custom));
    assert!(created_at.apply(Some(file(1)), true, &no_custom));
    let modified_before: FilterType<u8> = FilterType::Modified(Ordering::Less, t);
    assert!(!modified_before.apply(Some(file(1)), true, &no_custom));
}

#[test]
fn missing_metadata_fails_closed() {
    let f: FilterType<u8> = FilterType::FileSize(Ordering::Greater, 0);
    assert!(!f.apply(None, true, &no_custom));
    let no_time = EntryMeta { created: None, ..file(5) };
    let c: FilterType<u8> = FilterType::Created(Ordering::Less, Timestamp { nanos: i128::MAX });
    assert!(!c.apply(Some(no_time), true, &no_custom));
}

#[test]
fn directories_pass_unread_when_not_filtered() {
    let f: FilterType<u8> = FilterType::FileSize(Ordering::Less, 10);
    assert!(f.apply(Some(dir()), false, &no_custom));
    assert!(!f.apply(Some(dir()), true, &no_custom));
}

#[test]
fn custom_filter_is_asked() {
    let is_seven = |c: &u8| *c == 7;
    let yes: FilterType<u8> = FilterType::Custom(7);
    let no: FilterType<u8> = FilterType::Custom(3);
    assert!(yes.apply(Some(file(1)), true, &is_seven));
    assert!(!no.apply(Some(file(1)), true, &is_seven));
    assert!(!yes.apply(None, true, &is_seven));
}

#[test]
fn second_filter_only_narrows() {
    let is_seven = |c: &u8| *c == 7;
    let one = vec![FilterType::FileSize(Ordering::Greater, 10)];
    let two = vec![FilterType::FileSize(Ordering::Greater, 10), FilterType::Custom(3u8)];
    let sizes = [5u64, 11, 50, 1000];
    let first: Vec<u64> = sizes.iter().copied().filter(|s| apply_filters(&one, Some(file(*s)), true, &is_seven)).collect();
    let both: Vec<u64> = sizes.iter().copied().filter(|s| apply_filters(&two, Some(file(*s)), true, &is_seven)).collect();
    assert_eq!(first, vec![11, 50, 1000]);
    assert!(both.iter().all(|s| first.contains(s)));
    assert!(both.is_empty());
    let empty: Vec<FilterType<u8>> = vec![];
    assert!(apply_filters(&empty, None, true, &is_seven));
}

#[test]
fn hidden_and_extension_scenario() {
    let builder: SearchBuilder<u8> = SearchBuilder::default().ext("rs");
    let plan = builder.build().unwrap();
    let filters: Vec<FilterType<u8>> = vec![];
    let names = ["a.rs", "b.txt", ".hidden.rs"];
    let kept: Vec<&str> = names
        .iter()
        .copied()
        .filter(|n| !(plan.walk.skip_hidden && n.starts_with('.')))
        .filter(|n| select_entry(&plan.matcher, &filters, plan.dirs, Some(file(1)), Some(n), &no_custom))
        .collect();
    assert_eq!(kept, vec!["a.rs"]);
    assert!(select_entry(&plan.matcher, &filters, plan.dirs, Some(file(1)), Some(".hidden.rs"), &no_custom));
}

#[test]
fn directories_left_out_when_not_wanted() {
    let m = build_regex_search_input(None, None, false, false).unwrap();
    let filters: Vec<FilterType<u8>> = vec![];
    assert!(select_entry(&m, &filters, true, Some(dir()), Some("src"), &no_custom));
    assert!(!select_entry(&m, &filters, false, Some(dir()), Some("src"), &no_custom));
    assert!(select_entry(&m, &filters, false, Some(file(3)), Some("src"), &no_custom));
    assert!(!select_entry(&m, &filters, true, Some(file(3)), None, &no_custom));
}

#[test]
fn unset_term_selects_all_plain_names() {
    let m = build_regex_search_input(None, Some("rs"), false, false).unwrap();
    let filters: Vec<FilterType<u8>> = vec![];
    for name in ["a.rs", "walk.rs", "z9.rs"] {
        assert!(select_entry(&m, &filters, true, Some(file(1)), Some(name), &no_custom));
    }
}

#[test]
fn filtered_entry_is_not_selected() {
    let m = build_regex_search_input(Some("a"), None, false, false).unwrap();
    let filters = vec![FilterType::<u8>::FileSize(Ordering::Less, 10)];
    assert!(select_entry(&m, &filters, true, Some(file(3)), Some("a.rs"), &no_custom));
    assert!(!select_entry(&m, &filters, true, Some(file(30)), Some("a.rs"), &no_custom));
}

#[test]
fn worker_stops_when_consumer_gone_or_limit_passed() {
    assert_eq!(after_send(false, None, 0), None);
    assert_eq!(after_send(true, None, 5), Some(5));
    assert_eq!(after_send(true, Some(3), 2), Some(3));
    assert_eq!(after_send(true, Some(3), 3), None);
    assert_eq!(after_send(false, Some(3), 0), None);
}

#[test]
fn worker_pool_is_capped() {
    assert_eq!(worker_count(1), 1);
    assert_eq!(worker_count(8), 8);
    assert_eq!(worker_count(12), 12);
    assert_eq!(worker_count(64), 12);
}

#[test]
fn plan_lists_every_root() {
    let more = Some(vec!["b".to_string(), "c".to_string()]);
    let plan = plan_walk(&"a".to_string(), &more, Some(3), true, 4);
    assert_eq!(plan.roots, vec!["a".to_string(), "b".to_string(), "c".to_string()]);
    assert!(!plan.skip_hidden);
    assert_eq!(plan.max_depth, Some(3));
    assert_eq!(plan.threads, 4);
    let single = plan_walk(&"b".to_string(), &None, None, false, 4);
    assert_eq!(single.roots, vec!["b".to_string()]);
    assert!(single.skip_hidden);
}
