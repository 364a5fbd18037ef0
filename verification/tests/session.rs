use temi::app::{App, CommentCache, Scroll};
use temi::comments::{Comment, CommentResponse, CommentResponseTable};
use temi::posts::PostResponseTable;
use temi::screen::{filter_line, split_cells, strip_line_breaks, Screen};
use temi::session::{
    current_screen, download_posts, refresh, set_current_screen, set_download_posts, set_refresh,
    Session,
};

fn table(ids: &[u64]) -> CommentResponseTable {
    CommentResponseTable::new(
        ids.iter()
            .map(|id| CommentResponse {
                comment: Comment { id: *id, ..Default::default() },
                ..Default::default()
            })
            .collect(),
    )
}

#[test]
fn cache_keeps_one_view_for_each_post() {
    let mut cache = CommentCache::new();
    assert!(!cache.contains(7));
    assert!(cache.get(7).is_none());
    assert!(cache.needs_fetch(7, false));
    cache.store(7, table(&[1, 2]));
    cache.store(8, table(&[3]));
    assert!(cache.contains(7));
    assert!(!cache.needs_fetch(7, false));
    assert!(cache.needs_fetch(7, true));
    assert!(cache.needs_fetch(9, false));
    assert_eq!(cache.get(7).unwrap().items().len(), 2);
    cache.store(7, table(&[4, 5, 6]));
    assert_eq!(cache.get(7).unwrap().items().len(), 3);
    assert_eq!(cache.get(8).unwrap().items()[0].comment.id, 3);
    assert!(cache.get(9).is_none());
}

#[test]
fn cache_sorts_a_view_in_place() {
    let mut cache = CommentCache::new();
    cache.ensure_sorted(1);
    assert!(!cache.contains(1));
    let mut view = table(&[1, 2]);
    view.items[0].comment.path = "0.9".into();
    view.items[1].comment.path = "0.3".into();
    view.selected = Some(1);
    cache.store(1, view);
    cache.store(2, table(&[5]));
    cache.ensure_sorted(1);
    let sorted = cache.get(1).unwrap();
    assert!(sorted.sorted);
    assert_eq!(sorted.items()[0].comment.path, "0.3");
    assert_eq!(sorted.items()[1].comment.path, "0.9");
    assert_eq!(sorted.state(), Some(1));
    assert!(!cache.get(2).unwrap().sorted);
}

#[test]
fn app_pages() {
    let mut app = App::new("https://x".into(), PostResponseTable::new(Vec::new()));
    assert_eq!(app.instance_url, "https://x");
    assert_eq!(app.page(), 1);
    assert_eq!(app.previous_page(), 1);
    assert_eq!(app.next_page(), 2);
    assert_eq!(app.next_page(), 3);
    assert_eq!(app.previous_page(), 2);
    app.page = u64::MAX;
    assert_eq!(app.next_page(), u64::MAX);
    assert!(!app.comments.contains(1));
    assert_eq!(app.post_scroll, Scroll::new());
}

#[test]
fn scroll_stays_within_the_content() {
    let mut scroll = Scroll::create(1, 3, 10);
    assert_eq!(scroll.position(), 1);
    assert_eq!(scroll.content_length(), 3);
    assert_eq!(scroll.viewport_length(), 10);
    scroll.next();
    assert_eq!(scroll.position(), 2);
    scroll.next();
    assert_eq!(scroll.position(), 2);
    scroll.prev();
    scroll.prev();
    scroll.prev();
    assert_eq!(scroll.position(), 0);
    scroll.last();
    assert_eq!(scroll.position(), 2);
    scroll.first();
    assert_eq!(scroll.position(), 0);
    scroll.set_position(9);
    scroll.next();
    assert_eq!(scroll.position(), 2);
    scroll.set_content_length(0);
    scroll.set_viewport_length(4);
    scroll.next();
    assert_eq!(scroll.position(), 0);
    scroll.last();
    assert_eq!(scroll.position(), 0);
    assert_eq!(scroll, Scroll::create(0, 0, 4));
}

#[test]
fn screens_and_their_numbers() {
    assert_eq!(Screen::from(0u16), Screen::PostList);
    assert_eq!(Screen::from(1u16), Screen::Post);
    assert_eq!(Screen::from(2u16), Screen::Image);
    assert_eq!(Screen::from(3u16), Screen::CommentList);
    assert_eq!(Screen::from(4u16), Screen::Comment);
    assert_eq!(Screen::from(5u16), Screen::PostList);
    assert_eq!(Screen::from(u16::MAX), Screen::PostList);
    assert_eq!(u16::from(Screen::Comment), 4);
    assert_eq!(u16::from(Screen::PostList), 0);
    assert_eq!(Screen::default(), Screen::PostList);
}

#[test]
fn session_switches() {
    let mut session = Session::new();
    assert!(!refresh(&session));
    assert!(!download_posts(&session));
    assert_eq!(current_screen(&session), Screen::PostList);
    set_refresh(&mut session, true);
    set_download_posts(&mut session, true);
    set_current_screen(&mut session, Screen::Post);
    assert!(refresh(&session));
    assert!(download_posts(&session));
    assert_eq!(current_screen(&session), Screen::Post);
    set_refresh(&mut session, false);
    assert!(!refresh(&session));
    assert!(download_posts(&session));
}

#[test]
fn strip_line_breaks_drops_only_line_breaks() {
    assert_eq!(strip_line_breaks("a\r\nb\nc\rd e\t"), "abcd e\t");
    assert_eq!(strip_line_breaks(""), "");
    assert_eq!(strip_line_breaks("\n\n"), "");
    assert_eq!(strip_line_breaks("héllo\n"), "héllo");
}

#[test]
fn split_cells_deals_chunks_out_in_rows() {
    let mut out = vec![String::new(), String::new()];
    let height = split_cells("abcdef\nghij", 3, &mut out);
    assert_eq!(out, vec!["abc\nghi", "def\nj"]);
    assert_eq!(height, 3);

    let mut one = vec![String::from(">")];
    assert_eq!(split_cells("abcd", 2, &mut one), 3);
    assert_eq!(one, vec![">ab\ncd"]);

    let mut wide = vec![String::new(), String::new(), String::new()];
    assert_eq!(split_cells("ab", 5, &mut wide), 1);
    assert_eq!(wide, vec!["ab", "", ""]);

    let mut none: Vec<String> = Vec::new();
    assert_eq!(split_cells("\r\n", 4, &mut none), 1);
    let mut untouched = vec![String::from("x")];
    assert_eq!(split_cells("", 4, &mut untouched), 1);
    assert_eq!(untouched, vec!["x"]);
}

#[test]
fn split_cells_drops_chunks_that_split_a_character() {
    let mut out = vec![String::new(), String::new()];
    let height = split_cells("aébc", 2, &mut out);
    assert_eq!(out, vec!["\nc", ""]);
    assert_eq!(height, 2);
    let mut whole = vec![String::new()];
    assert_eq!(split_cells("éa", 2, &mut whole), 3);
    assert_eq!(whole, vec!["é\na"]);
}

#[test]
fn filter_line_fills_lines_up_to_the_width() {
    assert_eq!(filter_line("a bb ccc", 4), vec![" a bb"]);
    assert_eq!(filter_line("a bb ccc dd e", 4), vec![" a bb", " dd e"]);
    assert_eq!(filter_line("one two three", 100), vec![" one two three"]);
    assert_eq!(filter_line("", 5), vec![" "]);
    assert_eq!(filter_line("", 0), vec![""]);
    assert_eq!(filter_line("a b", 0), vec!["", ""]);
    assert_eq!(filter_line("a  b", 5), vec![" a  b"]);
    assert_eq!(filter_line("abcdef", 3), vec![""]);
    assert_eq!(filter_line("ab cd", 3), vec![" ab"]);
}

#[test]
fn filter_line_leaves_out_white_space_and_control_codes() {
    assert_eq!(filter_line("a\tb\u{0}c d\u{85}e\u{a0}", 10), vec![" abc de"]);
    assert_eq!(filter_line("\n\r\n", 10), vec![" "]);
    assert_eq!(filter_line("éé\u{7f} ü", 4), vec![" éé ü"]);
}

#[test]
fn conversions_of_screens_and_endpoints() {
    assert_eq!(Screen::from(3usize), Screen::CommentList);
    assert_eq!(Screen::from(65536usize + 1), Screen::Post);
    assert_eq!(u16::from(&Screen::Image), 2);
    let path: &'static str = temi::endpoint::Endpoint::PostList.into();
    assert_eq!(path, "/api/v3/post/list");
    let posts = PostResponseTable::from(Vec::new());
    assert!(posts.items().is_empty());
    let posts = PostResponseTable::from(temi::posts::PostResponses { posts: Vec::new() });
    assert_eq!(posts.state(), None);
}
