use rust_search::{
    expand_tilde, file_name_from_path, has_file_name, similarity_sort, sort_by_scores, try_similarity_sort, Search,
};
use std::sync::mpsc;

fn strings(v: &[&str]) -> Vec<String> {
    v.iter().map(|s| s.to_string()).collect()
}

#[test]
fn similarity_sort_ranks_closest_first() {
    let mut v = strings(&["afly.txt", "bfly.txt", "flyer.txt", "fly.txt"]);
    similarity_sort(&mut v, "fly");
    assert_eq!(v, strings(&["fly.txt", "flyer.txt", "afly.txt", "bfly.txt"]));
}

#[test]
fn similarity_sort_reads_file_names_in_lower_case() {
    let mut v = strings(&["/x/fly/zzz.txt", "/y/FLY.TXT"]);
    similarity_sort(&mut v, "Fly");
    assert_eq!(v, strings(&["/y/FLY.TXT", "/x/fly/zzz.txt"]));
}

#[test]
fn similarity_sort_ignores_case() {
    let mut v = strings(&["fla.txt", "FLY.TXT"]);
    similarity_sort(&mut v, "fly");
    assert_eq!(v, strings(&["FLY.TXT", "fla.txt"]));
}

#[test]
fn similarity_sort_keeps_ranked_input() {
    let ranked = strings(&["fly.txt", "flyer.txt", "afly.txt", "bfly.txt"]);
    let mut v = ranked.clone();
    similarity_sort(&mut v, "fly");
    assert_eq!(v, ranked);
    similarity_sort(&mut v, "fly");
    assert_eq!(v, ranked);
}

#[test]
fn similarity_sort_of_nothing() {
    let mut v: Vec<String> = vec![];
    similarity_sort(&mut v, "fly");
    assert!(v.is_empty());
}

#[test]
fn checked_sort_refuses_paths_without_names() {
    let mut v = strings(&["bfly.txt", "/", "fly.txt"]);
    assert!(!try_similarity_sort(&mut v, "fly"));
    assert_eq!(v, strings(&["bfly.txt", "/", "fly.txt"]));
    let mut w = strings(&["bfly.txt", "a/fly.txt"]);
    assert!(try_similarity_sort(&mut w, "fly"));
    assert_eq!(w, strings(&["a/fly.txt", "bfly.txt"]));
}

#[test]
fn stream_end_is_final() {
    let (tx, rx) = mpsc::channel::<String>();
    tx.send("a".to_string()).unwrap();
    drop(tx);
    let mut s = Search::from_receiver(rx, None);
    assert_eq!(s.next(), Some("a".to_string()));
    assert_eq!(s.next(), None);
    assert_eq!(s.next(), None);
    assert_eq!(s.next(), None);
}

#[test]
fn sort_by_scores_is_stable_descending() {
    let mut v = strings(&["a", "b", "c", "d", "e"]);
    sort_by_scores(&mut v, &vec![1, 5, 1, 9, 5]);
    assert_eq!(v, strings(&["d", "b", "e", "a", "c"]));
    let mut w = strings(&["x", "y", "z"]);
    sort_by_scores(&mut w, &vec![3, 3, 1]);
    assert_eq!(w, strings(&["x", "y", "z"]));
}

#[test]
fn file_name_is_last_component() {
    assert_eq!(file_name_from_path("a/b/c.txt"), "c.txt");
    assert_eq!(file_name_from_path("c.txt"), "c.txt");
    assert_eq!(file_name_from_path("/a/b/"), "b");
    assert!(has_file_name("a/b/c.txt"));
    assert!(!has_file_name("a/.."));
    assert!(!has_file_name(".."));
    assert!(!has_file_name("/"));
    assert!(!has_file_name(""));
}

#[test]
fn tilde_is_expanded_with_home() {
    assert_eq!(expand_tilde("~/docs", Some("/home/u")), "/home/u/docs");
    assert_eq!(expand_tilde("~", Some("/home/u")), "/home/u/");
    assert_eq!(expand_tilde("~user/docs", Some("/home/u")), "~user/docs");
    assert_eq!(expand_tilde("src/~", Some("/home/u")), "src/~");
    assert_eq!(expand_tilde("~/docs", None), "~/docs");
}

#[test]
fn stream_stops_at_limit() {
    let (tx, rx) = mpsc::channel::<String>();
    for i in 0..10 {
        tx.send(format!("path{i}")).unwrap();
    }
    let mut s = Search::from_receiver(rx, Some(3));
    let mut got = vec![];
    while let Some(p) = s.next() {
        got.push(p);
    }
    assert_eq!(got, strings(&["path0", "path1", "path2"]));
    assert_eq!(s.next(), None);
    drop(tx);
}

#[test]
fn stream_without_limit_ends_when_senders_gone() {
    let (tx, rx) = mpsc::channel::<String>();
    let tx2 = tx.clone();
    tx.send("a".to_string()).unwrap();
    tx2.send("b".to_string()).unwrap();
    drop(tx);
    drop(tx2);
    let mut s = Search::from_receiver(rx, None);
    assert_eq!(s.next(), Some("a".to_string()));
    assert_eq!(s.next(), Some("b".to_string()));
    assert_eq!(s.next(), None);
}

#[test]
fn stream_with_zero_limit_is_empty() {
    let (tx, rx) = mpsc::channel::<String>();
    tx.send("a".to_string()).unwrap();
    let mut s = Search::from_receiver(rx, Some(0));
    assert_eq!(s.next(), None);
}

#[test]
fn limit_larger_than_matches_yields_all() {
    let (tx, rx) = mpsc::channel::<String>();
    tx.send("a".to_string()).unwrap();
    drop(tx);
    let mut s = Search::from_receiver(rx, Some(5));
    assert_eq!(s.next(), Some("a".to_string()));
    assert_eq!(s.next(), None);
}
