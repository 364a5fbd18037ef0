use temi::comments::{Comment, CommentResponse, CommentResponses};
use temi::pages::{merge_pages, page_count, page_len, PAGE_SIZE};

fn page(ids: &[u64]) -> CommentResponses {
    CommentResponses::new(
        ids.iter()
            .map(|id| CommentResponse {
                comment: Comment { id: *id, ..Default::default() },
                ..Default::default()
            })
            .collect(),
    )
}

#[test]
fn page_count_rounds_up() {
    assert_eq!(PAGE_SIZE, 50);
    assert_eq!(page_count(125), 3);
    assert_eq!(page_count(0), 0);
    assert_eq!(page_count(1), 1);
    assert_eq!(page_count(50), 1);
    assert_eq!(page_count(51), 2);
    assert_eq!(page_count(100), 2);
    assert_eq!(page_count(u64::MAX), u64::MAX / 50 + 1);
}

#[test]
fn page_lengths_add_up() {
    assert_eq!(page_len(125, 1), 50);
    assert_eq!(page_len(125, 2), 50);
    assert_eq!(page_len(125, 3), 25);
    assert_eq!(page_len(125, 4), 0);
    assert_eq!(page_len(125, 0), 0);
    assert_eq!(page_len(100, 2), 50);
    assert_eq!(page_len(100, 3), 0);
    for count in [0u64, 1, 49, 50, 51, 125, 1000] {
        let total: u64 = (1..=page_count(count)).map(|p| page_len(count, p)).sum();
        assert_eq!(total, count);
    }
}

#[test]
fn merge_keeps_page_order() {
    let merged = merge_pages(vec![page(&[3, 1]), page(&[]), page(&[2]), page(&[9, 8, 7])]);
    let ids: Vec<u64> = merged.comments().iter().map(|c| c.comment.id).collect();
    assert_eq!(ids, vec![3, 1, 2, 9, 8, 7]);
    assert!(merge_pages(Vec::new()).comments().is_empty());
}
