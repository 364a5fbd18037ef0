use temi::comments::Comment;
use temi::path::{ancestor_at, depth, parse};

fn comment(id: u64, path: &str) -> Comment {
    Comment { id, path: path.into(), ..Default::default() }
}

#[test]
fn depth_of_paths() {
    assert_eq!(depth("0.5.9.14"), 2);
    assert_eq!(depth("0.5"), 0);
    assert_eq!(depth(""), 0);
    assert_eq!(depth("nonsense"), 0);
    assert_eq!(depth("0"), 0);
    assert_eq!(depth("0.5.6"), 1);
    assert_eq!(depth("a.b.c.d.e"), 3);
}

#[test]
fn parse_reads_each_segment() {
    assert_eq!(parse("0.5.9.14"), vec![0, 5, 9, 14]);
    assert_eq!(parse(""), vec![0]);
    assert_eq!(parse("."), vec![0, 0]);
    assert_eq!(parse("0.x.7"), vec![0, 0, 7]);
    assert_eq!(parse("0..7"), vec![0, 0, 7]);
    assert_eq!(parse("12."), vec![12, 0]);
    assert_eq!(parse("0.1510313.1511444"), vec![0, 1510313, 1511444]);
}

#[test]
fn parse_reads_segments_as_unsigned_numbers() {
    assert_eq!(parse("+5.007.-3.+.5a. 6"), vec![5, 7, 0, 0, 0, 0]);
    assert_eq!(parse("18446744073709551615"), vec![u64::MAX]);
    assert_eq!(parse("18446744073709551616"), vec![0]);
    assert_eq!(parse("99999999999999999999999"), vec![0]);
    assert_eq!(parse("++5.5+"), vec![0, 0]);
    assert_eq!(parse("٣.5"), vec![0, 5]);
}

#[test]
fn parse_agrees_with_the_standard_reading() {
    for path in ["0.5.9.14", "", "a.+1.-1.01", "18446744073709551616.1", "+.+0"] {
        let expected: Vec<u64> = path.split('.').map(|s| s.parse::<u64>().unwrap_or(0)).collect();
        assert_eq!(parse(path), expected);
    }
}

#[test]
fn ancestor_at_gives_zero_beyond_the_path() {
    assert_eq!(ancestor_at("0.5.9.14", 0), 5);
    assert_eq!(ancestor_at("0.5.9.14", 1), 9);
    assert_eq!(ancestor_at("0.5.9.14", 2), 14);
    assert_eq!(ancestor_at("0.5.9.14", 3), 0);
    assert_eq!(ancestor_at("0.5.9.14", usize::MAX), 0);
    assert_eq!(ancestor_at("", 0), 0);
    assert_eq!(ancestor_at("0", 0), 0);
}

#[test]
fn derived_values_of_a_comment() {
    let c = comment(14, "0.5.9.11.14");
    assert_eq!(c.depth(), 3);
    assert_eq!(c.root_ancestor_id(), 5);
    assert_eq!(c.ancestor_chain(), vec![9, 11]);
    assert_eq!(c.own_position(), 4);
    assert_eq!(c.parent_id_at(1), 9);
    assert_eq!(c.parent_id_at(7), 0);
    let top = comment(5, "0.5");
    assert_eq!(top.depth(), 0);
    assert_eq!(top.root_ancestor_id(), 5);
    assert!(top.ancestor_chain().is_empty());
    assert_eq!(top.own_position(), 1);
    assert!(comment(6, "0.5.6").ancestor_chain().is_empty());
    assert_eq!(comment(77, "0.5.6").own_position(), 0);
    assert_eq!(comment(6, "0.6.6").own_position(), 1);
    assert_eq!(comment(1, "").root_ancestor_id(), 0);
}

#[test]
fn comment_getters() {
    let c = Comment {
        id: 3,
        creator_id: 4,
        post_id: 5,
        content: "text".into(),
        removed: true,
        published: "now".into(),
        deleted: true,
        ap_id: "ap".into(),
        local: true,
        path: "0.3".into(),
        distinguished: true,
        language_id: 6,
    };
    assert_eq!(c.id(), 3);
    assert_eq!(c.creator_id(), 4);
    assert_eq!(c.post_id(), 5);
    assert_eq!(c.content(), "text");
    assert!(c.deleted());
    assert_eq!(c.ap_id(), "ap");
    assert!(c.local());
    assert_eq!(c.path(), "0.3");
    assert!(c.distinguished());
    assert_eq!(c.language_id(), 6);
    assert_eq!(Comment::new(), Comment::default());
    assert_eq!(Comment::new().path(), "");
}
