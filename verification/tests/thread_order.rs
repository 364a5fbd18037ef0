use temi::comments::{Comment, CommentResponse, CommentResponseTable};

fn entry(path: &str, published: &str) -> CommentResponse {
    CommentResponse {
        comment: Comment {
            path: path.into(),
            published: published.into(),
            ..Default::default()
        },
        ..Default::default()
    }
}

#[test]
fn test_sort_comments() {
    let comments = vec![
        entry("0.1510313.1511444.1512165", "2023-08-04T19:59:29.982921"),
        entry("0.1510313.1511444", "2023-08-04T19:29:44.539462"),
        entry("0.1510313", "2023-08-04T18:45:16.126539"),
        entry("0.1402429.1436014.1492422", "2023-08-04T06:23:05.577465"),
        entry("0.1459810.1461116", "2023-08-03T08:59:12.227404"),
        entry("0.1458729", "2023-08-03T06:27:52.372133"),
        entry("0.1451065.1456841.1461024", "2023-08-03T08:51:59.051645"),
        entry("0.1459810", "2023-08-03T07:33:09.562685"),
        entry("0.1402429.1436014.1463371", "2023-08-03T11:14:25.780911"),
    ];

    let exp_comments = vec![
        entry("0.1402429.1436014.1463371", "2023-08-03T11:14:25.780911"),
        entry("0.1402429.1436014.1492422", "2023-08-04T06:23:05.577465"),
        entry("0.1451065.1456841.1461024", "2023-08-03T08:51:59.051645"),
        entry("0.1458729", "2023-08-03T06:27:52.372133"),
        entry("0.1459810", "2023-08-03T07:33:09.562685"),
        entry("0.1459810.1461116", "2023-08-03T08:59:12.227404"),
        entry("0.1510313", "2023-08-04T18:45:16.126539"),
        entry("0.1510313.1511444", "2023-08-04T19:29:44.539462"),
        entry("0.1510313.1511444.1512165", "2023-08-04T19:59:29.982921"),
    ];

    let mut comment_responses = CommentResponseTable::new(comments);
    comment_responses.sort_comments();

    let response_paths: Vec<String> = comment_responses
        .items()
        .iter()
        .map(|c| c.comment.path.clone())
        .collect();

    let exp_paths: Vec<String> = exp_comments
        .iter()
        .map(|c| c.comment.path.clone())
        .collect();

    assert_eq!(response_paths, exp_paths);
}

fn full(path: &str, id: u64, children: Option<u64>, published: &str) -> CommentResponse {
    let mut e = entry(path, published);
    e.comment.id = id;
    e.counts.child_count = children;
    e
}

fn paths(table: &CommentResponseTable) -> Vec<String> {
    table.items().iter().map(|c| c.comment.path.clone()).collect()
}

fn position(paths: &[String], path: &str) -> usize {
    paths.iter().position(|p| p == path).unwrap()
}

#[test]
fn scenario_subtrees_stay_ordered() {
    let mut table = CommentResponseTable::new(vec![
        full("0.10", 10, None, "a"),
        full("0.10.11", 11, None, "b"),
        full("0.5", 5, None, "c"),
        full("0.5.6.7", 7, None, "d"),
        full("0.5.6", 6, None, "e"),
    ]);
    table.sort_comments();
    let p = paths(&table);
    assert!(position(&p, "0.5") < position(&p, "0.5.6"));
    assert!(position(&p, "0.5") < position(&p, "0.5.6.7"));
    assert!(position(&p, "0.5.6") < position(&p, "0.5.6.7"));
    assert!(position(&p, "0.10") < position(&p, "0.10.11"));
    assert_eq!(p, vec!["0.5", "0.5.6", "0.5.6.7", "0.10", "0.10.11"]);
}

#[test]
fn ancestors_come_before_descendants() {
    let mut table = CommentResponseTable::new(vec![
        full("0.3.4.5.6", 6, Some(0), "2023-01-05"),
        full("0.3.4", 4, Some(9), "2023-01-09"),
        full("0.3.4.5", 5, Some(1), "2023-01-01"),
        full("0.3", 3, Some(20), "2023-02-01"),
        full("0.2.8", 8, Some(0), "2022-01-01"),
    ]);
    table.sort_comments();
    assert_eq!(paths(&table), vec!["0.2.8", "0.3", "0.3.4", "0.3.4.5", "0.3.4.5.6"]);
}

#[test]
fn sorting_twice_changes_nothing() {
    let mut table = CommentResponseTable::new(vec![
        full("0.9", 9, None, "x"),
        full("0.1.2", 2, None, "y"),
        full("0.1", 1, None, "z"),
        full("0.1.2", 2, None, "y"),
    ]);
    table.sort_comments();
    let once = paths(&table);
    table.sort_comments();
    assert_eq!(paths(&table), once);
    assert_eq!(once, vec!["0.1", "0.1.2", "0.1.2", "0.9"]);
}

#[test]
fn sorting_does_not_depend_on_arrival_order() {
    let items = vec![
        full("0.7", 7, Some(2), "b"),
        full("0.7.8", 8, Some(0), "a"),
        full("0.7.9", 9, Some(0), "a"),
        full("0.4", 4, Some(0), "c"),
    ];
    let mut forward = CommentResponseTable::new(items.clone());
    let mut backward = CommentResponseTable::new(items.into_iter().rev().collect());
    forward.sort_comments();
    backward.sort_comments();
    assert_eq!(paths(&forward), paths(&backward));
    assert_eq!(paths(&forward), vec!["0.4", "0.7", "0.7.8", "0.7.9"]);
}

#[test]
fn ties_keep_their_order() {
    let mut first = full("0.1", 1, None, "t");
    first.comment.content = "first".into();
    let mut second = full("0.1", 1, None, "t");
    second.comment.content = "second".into();
    let mut table = CommentResponseTable::new(vec![full("0.2", 2, None, "t"), first, second]);
    table.sort_comments();
    let contents: Vec<String> =
        table.items().iter().map(|c| c.comment.content.clone()).collect();
    assert_eq!(contents, vec!["first", "second", ""]);
}

#[test]
fn key_parts_decide_in_turn() {
    let a = full("0.1.5", 5, Some(3), "b");
    assert!(full("0.1.5", 5, Some(2), "z").precedes(&a));
    assert!(!a.precedes(&full("0.1.5", 5, Some(2), "z")));
    assert!(full("0.1.5", 4, Some(3), "z").precedes(&a));
    assert!(full("0.1.5", 5, Some(3), "a").precedes(&a));
    assert!(full("0.1.5", 5, Some(3), "").precedes(&a));
    assert!(!a.precedes(&a));
    assert!(full("0.1", 9, Some(9), "z").precedes(&a));
    assert!(full("0.1.2.9", 9, Some(0), "a").precedes(&full("0.1.3.4", 4, Some(0), "a")));
    assert!(full("0.1.2.9", 9, Some(0), "a").precedes(&full("0.1.2.3.4", 4, Some(0), "a")));
    assert_eq!(a.partial_cmp(&a), Some(std::cmp::Ordering::Equal));
    assert!(full("0.1", 1, None, "") < a);
    assert!(a > full("0.1", 1, None, ""));
}

#[test]
fn ensure_sorted_sorts_once() {
    let mut table = CommentResponseTable::new(vec![entry("0.2", "a"), entry("0.1", "a")]);
    assert!(!table.sorted);
    table.ensure_sorted();
    assert!(table.sorted);
    assert_eq!(paths(&table), vec!["0.1", "0.2"]);
    table.items.swap(0, 1);
    table.ensure_sorted();
    assert_eq!(paths(&table), vec!["0.2", "0.1"]);
    table.load(vec![entry("0.9", "a"), entry("0.3", "a")]);
    assert!(!table.sorted);
    assert_eq!(table.level(), 0);
    assert_eq!(table.focal_parent_id(), 0);
    assert_eq!(table.state(), None);
    table.ensure_sorted();
    assert_eq!(paths(&table), vec!["0.3", "0.9"]);
}

#[test]
fn empty_collection_sorts_to_itself() {
    let mut table = CommentResponseTable::new(Vec::new());
    table.sort_comments();
    assert!(table.items().is_empty());
    assert!(table.sorted);
}

#[test]
fn entries_are_equal_by_level_shared_identifier_and_time() {
    let a = entry("0.5.6", "t");
    assert!(a == entry("0.5.6.7", "t"));
    assert!(a == entry("0.6.6", "t"));
    assert!(a != entry("0.5.7", "t"));
    assert!(a != entry("0.5.6", "u"));
    let mut leveled = entry("0.5.6", "t");
    leveled.set_level(2);
    assert!(a != leveled);
    assert_eq!(leveled.level(), 2);
    assert_eq!(a.level(), 0);
}
