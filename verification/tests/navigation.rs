use temi::comments::{Comment, CommentList, CommentResponse, CommentResponseTable};
use temi::selection::{step_back, step_forward};

fn entry(id: u64, path: &str) -> CommentResponse {
    CommentResponse {
        comment: Comment { id, path: path.into(), ..Default::default() },
        ..Default::default()
    }
}

fn three() -> CommentResponseTable {
    CommentResponseTable::new(vec![entry(5, "0.5"), entry(6, "0.5.6"), entry(7, "0.5.6.7")])
}

#[test]
fn selection_wraps_around() {
    let mut table = three();
    table.selected = Some(2);
    table.next();
    assert_eq!(table.state(), Some(0));
    table.previous();
    assert_eq!(table.state(), Some(2));
    table.previous();
    assert_eq!(table.state(), Some(1));
    table.next();
    table.next();
    assert_eq!(table.state(), Some(0));
}

#[test]
fn selection_starts_at_the_ends() {
    let mut table = three();
    assert_eq!(table.state(), None);
    table.next();
    assert_eq!(table.state(), Some(0));
    table.deselect();
    assert_eq!(table.state(), None);
    table.previous();
    assert_eq!(table.state(), Some(2));
}

#[test]
fn selection_in_an_empty_collection_stays() {
    let mut table = CommentResponseTable::new(Vec::new());
    table.next();
    assert_eq!(table.state(), None);
    table.previous();
    assert_eq!(table.state(), None);
    table.selected = Some(4);
    table.next();
    assert_eq!(table.state(), Some(4));
    table.previous();
    assert_eq!(table.state(), Some(4));
    assert!(table.current().is_none());
}

#[test]
fn selection_beyond_the_entries() {
    let mut table = three();
    table.selected = Some(usize::MAX);
    assert!(table.current().is_none());
    table.next();
    assert_eq!(table.state(), Some(((usize::MAX % 3) + 1) % 3));
    table.selected = Some(7);
    table.next();
    assert_eq!(table.state(), Some(2));
    table.selected = Some(7);
    table.previous();
    assert_eq!(table.state(), Some(6));
}

#[test]
fn steps_on_positions() {
    assert_eq!(step_forward(Some(0), 3), 1);
    assert_eq!(step_forward(Some(2), 3), 0);
    assert_eq!(step_forward(None, 3), 0);
    assert_eq!(step_forward(None, 0), 0);
    assert_eq!(step_back(Some(0), 3), 2);
    assert_eq!(step_back(Some(2), 3), 1);
    assert_eq!(step_back(None, 3), 2);
    assert_eq!(step_back(None, 0), 0);
    assert_eq!(step_back(Some(0), 0), 0);
}

#[test]
fn current_is_the_selected_entry() {
    let mut table = three();
    assert!(table.current().is_none());
    table.selected = Some(1);
    assert_eq!(table.current().unwrap().comment.id, 6);
}

#[test]
fn enter_child_takes_the_ancestor_on_the_new_level() {
    let mut table = three();
    table.selected = Some(2);
    table.enter_child();
    assert_eq!(table.level(), 1);
    assert_eq!(table.focal_parent_id(), 6);
    table.enter_child();
    assert_eq!(table.level(), 2);
    assert_eq!(table.focal_parent_id(), 7);
    table.enter_child();
    assert_eq!(table.level(), 3);
    assert_eq!(table.focal_parent_id(), 0);
}

#[test]
fn enter_child_without_selection_shows_the_root() {
    let mut table = three();
    table.comment_id = 6;
    table.enter_child();
    assert_eq!(table.level(), 1);
    assert_eq!(table.focal_parent_id(), 0);
}

#[test]
fn enter_then_exit_restores_the_view() {
    let mut table = three();
    table.selected = Some(2);
    table.level = 1;
    table.comment_id = 6;
    table.enter_child();
    assert_eq!((table.level(), table.focal_parent_id()), (2, 7));
    table.go_to_parent();
    assert_eq!((table.level(), table.focal_parent_id()), (1, 6));
    assert_eq!(table.state(), Some(2));
}

#[test]
fn enter_then_exit_from_the_top_level() {
    let mut table = three();
    table.selected = Some(0);
    table.enter_child();
    assert_eq!((table.level(), table.focal_parent_id()), (1, 0));
    table.go_to_parent();
    assert_eq!((table.level(), table.focal_parent_id()), (0, 0));

    let mut deep = three();
    deep.selected = Some(1);
    deep.enter_child();
    assert_eq!((deep.level(), deep.focal_parent_id()), (1, 6));
    deep.go_to_parent();
    assert_eq!((deep.level(), deep.focal_parent_id()), (0, 5));
}

#[test]
fn go_to_parent_stops_at_the_top() {
    let mut table = three();
    table.go_to_parent();
    assert_eq!((table.level(), table.focal_parent_id()), (0, 0));
    table.level = 2;
    table.comment_id = 7;
    assert_eq!(table.parent_id(), 7);
    table.go_to_parent();
    assert_eq!((table.level(), table.focal_parent_id()), (1, 6));
    table.go_to_parent();
    assert_eq!((table.level(), table.focal_parent_id()), (0, 5));
    table.comment_id = 99;
    assert_eq!(table.parent_id(), 0);
}

#[test]
fn parent_id_goes_by_the_first_entry_with_the_identifier() {
    let mut table =
        CommentResponseTable::new(vec![entry(6, "0.4.6"), entry(6, "0.5.6"), entry(7, "0.5.6.7")]);
    table.comment_id = 6;
    assert_eq!(table.parent_id(), 4);
    table.level = 1;
    assert_eq!(table.parent_id(), 6);
    table.level = usize::MAX;
    assert_eq!(table.parent_id(), 0);
}

#[test]
fn levels_and_pages() {
    let mut table = three();
    assert_eq!(table.next_level(), 1);
    assert_eq!(table.next_level(), 2);
    assert_eq!(table.previous_level(), 1);
    assert_eq!(table.previous_level(), 0);
    assert_eq!(table.previous_level(), 0);
    table.level = usize::MAX;
    assert_eq!(table.next_level(), usize::MAX);
    assert_eq!(table.page, 1);
    table.previous_page();
    assert_eq!(table.page, 1);
    table.next_page();
    table.next_page();
    assert_eq!(table.page, 3);
    table.previous_page();
    assert_eq!(table.page, 2);
}

#[test]
fn comment_list_selection() {
    let mut list = CommentList::new(vec![Comment::new(), Comment::new()]);
    assert_eq!(list.items().len(), 2);
    assert!(list.current().is_none());
    list.next();
    assert_eq!(list.state(), Some(0));
    list.next();
    list.next();
    assert_eq!(list.state(), Some(0));
    list.previous();
    assert_eq!(list.state(), Some(1));
    assert!(list.current().is_some());
    *list.state_mut() = Some(0);
    assert_eq!(list.state(), Some(0));
    list.deselect();
    assert_eq!(list.state(), None);
    list.previous();
    assert_eq!(list.state(), Some(1));
}

#[test]
fn views_start_fresh() {
    let items = vec![entry(1, "0.1"), entry(2, "0.2")];
    let mut table = CommentResponseTable::from(items.clone());
    assert_eq!(table.items().len(), 2);
    assert_eq!((table.level(), table.focal_parent_id(), table.page), (0, 0, 1));
    assert_eq!(table.state(), None);
    assert!(!table.sorted);
    *table.state_mut() = Some(1);
    assert_eq!(table.current().unwrap().comment.id, 2);
    let table = CommentResponseTable::from(temi::comments::CommentResponses::new(items));
    assert_eq!(table.items().len(), 2);
    let list = CommentList::from(vec![Comment::new()]);
    assert_eq!(list.items().len(), 1);
    assert_eq!(list.state(), None);
}
