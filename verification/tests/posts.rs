use temi::community::{Communities, Community};
use temi::counts::{Counts, Countss};
use temi::endpoint::Endpoint;
use temi::error::Error;
use temi::posts::{
    image_name, image_name_for_path, is_image, Creator, Creators, Post, PostResponse,
    PostResponseTable, PostResponses, Posts,
};

#[test]
fn is_image_goes_by_the_ending() {
    assert!(is_image("https://a.b/c.bmp"));
    assert!(is_image("x.gif"));
    assert!(is_image("x.jpg"));
    assert!(is_image("x.jpeg"));
    assert!(is_image("x.png"));
    assert!(is_image(".webp"));
    assert!(!is_image("x.png?size=2"));
    assert!(!is_image("x.PNG"));
    assert!(!is_image("png"));
    assert!(!is_image(""));
    assert!(!is_image("x.tiff"));
}

#[test]
fn image_name_goes_by_the_path_of_the_address() {
    assert_eq!(image_name("https://host.example/pics/cat.png"), Ok("tmp.png"));
    assert_eq!(image_name("https://host.example/pics/cat.png?as=.gif"), Ok("tmp.png"));
    assert_eq!(image_name("https://host.example/a.bmp"), Ok("tmp.bmp"));
    assert_eq!(image_name("https://host.example/a.gif"), Ok("tmp.gif"));
    assert_eq!(image_name("https://host.example/a.jpg"), Ok("tmp.jpeg"));
    assert_eq!(image_name("/a.jpeg"), Ok("tmp.jpeg"));
    assert_eq!(image_name("https://host.example/a.webp?x"), Ok("tmp.webp"));
}

#[test]
fn image_name_turns_other_addresses_down() {
    assert_eq!(
        image_name("https://host.example/a.txt"),
        Err(Error::Image("unsupported image type".into()))
    );
    assert_eq!(
        image_name("https://host.example.png"),
        Err(Error::Image("unsupported image type".into()))
    );
    assert_eq!(image_name(""), Err(Error::Http("empty string".into())));
    assert_eq!(image_name("/a b.png"), Err(Error::Http("invalid uri character".into())));
}

#[test]
fn image_name_for_path_goes_by_the_ending() {
    assert_eq!(image_name_for_path("/x/y.png"), Ok("tmp.png"));
    assert_eq!(image_name_for_path("y.jpg"), Ok("tmp.jpeg"));
    assert_eq!(image_name_for_path("y.bmp.gif"), Ok("tmp.gif"));
    assert_eq!(
        image_name_for_path(""),
        Err(Error::Image("unsupported image type".into()))
    );
}

#[test]
fn error_message() {
    assert_eq!(Error::Io("a".into()).message(), "a");
    assert_eq!(Error::Http("b".into()).message(), "b");
    assert_eq!(Error::Json("c".into()).message(), "c");
    assert_eq!(Error::Image("d".into()).message(), "d");
}

#[test]
fn endpoint_paths() {
    assert_eq!(Endpoint::PostList.path(), "/api/v3/post/list");
    assert_eq!(Endpoint::CommentList.path(), "/api/v3/comment/list");
    assert_eq!(Endpoint::CommentList.to_string(), "/api/v3/comment/list");
    assert_eq!(Endpoint::default(), Endpoint::PostList);
}

#[test]
fn post_getters() {
    let mut post = Post {
        id: 8,
        name: "title".into(),
        url: Some("u".into()),
        body: Some("b".into()),
        thumbnail_url: Some("t".into()),
        ap_id: "ap".into(),
        ..Default::default()
    };
    assert_eq!(post.id(), 8);
    assert_eq!(post.name(), "title");
    assert_eq!(post.url(), "u");
    assert_eq!(post.body(), "b");
    assert_eq!(post.thumbnail_url(), "t");
    assert_eq!(post.ap_id(), "ap");
    assert!(!post.sorted());
    post.set_sorted(true);
    assert!(post.sorted());
    post.set_sorted(false);
    assert!(!post.sorted());
    assert_eq!(post.sorted, Some(false));
    post.unset_sorted();
    assert_eq!(post.sorted, None);
    let blank = Post::new();
    assert_eq!(blank.url(), "");
    assert_eq!(blank.body(), "");
    assert_eq!(blank.thumbnail_url(), "");
    assert_eq!(blank, Post::default());
}

#[test]
fn creator_getters() {
    let creator = Creator {
        name: "n".into(),
        published: "p".into(),
        icon: Some("i".into()),
        avatar: Some("a".into()),
        ..Default::default()
    };
    assert_eq!(creator.name(), "n");
    assert_eq!(creator.published(), "p");
    assert_eq!(creator.icon(), "i");
    assert_eq!(creator.avatar(), "a");
    assert_eq!(Creator::new().icon(), "");
    assert_eq!(Creator::new().avatar(), "");
    assert_eq!(Creator::new(), Creator::default());
}

#[test]
fn counts_getters() {
    let counts = Counts {
        id: Some(1),
        post_id: Some(2),
        comment_id: Some(3),
        comments: Some(4),
        score: -5,
        upvotes: 6,
        downvotes: 7,
        published: "p".into(),
        newest_comment_time_necro: Some("n".into()),
        newest_comment_time: Some("t".into()),
        featured_community: Some(true),
        featured_local: Some(true),
        hot_rank: Some(8),
        hot_rank_active: Some(9),
        child_count: Some(10),
    };
    assert_eq!(counts.id(), 1);
    assert!(counts.for_post());
    assert_eq!(counts.post_id(), 2);
    assert!(counts.for_comment());
    assert_eq!(counts.comment_id(), 3);
    assert_eq!(counts.comments(), 4);
    assert_eq!(counts.score(), -5);
    assert_eq!(counts.upvotes(), 6);
    assert_eq!(counts.downvotes(), 7);
    assert_eq!(counts.published(), "p");
    assert_eq!(counts.newest_comment_time_necro(), "n");
    assert_eq!(counts.newest_comment_time(), "t");
    assert!(counts.featured_community());
    assert!(counts.featured_local());
    assert_eq!(counts.hot_rank(), 8);
    assert_eq!(counts.hot_rank_active(), 9);
    assert_eq!(counts.child_count(), 10);
    let blank = Counts::new();
    assert_eq!(blank.id(), 0);
    assert!(!blank.for_post());
    assert_eq!(blank.post_id(), 0);
    assert!(!blank.for_comment());
    assert_eq!(blank.comment_id(), 0);
    assert_eq!(blank.comments(), 0);
    assert_eq!(blank.newest_comment_time_necro(), "");
    assert_eq!(blank.newest_comment_time(), "");
    assert!(!blank.featured_community());
    assert!(!blank.featured_local());
    assert_eq!(blank.hot_rank(), 0);
    assert_eq!(blank.hot_rank_active(), 0);
    assert_eq!(blank.child_count(), 0);
    assert_eq!(blank, Counts::default());
}

#[test]
fn community_is_blank_at_first() {
    let community = Community::new();
    assert_eq!(community.id, 0);
    assert_eq!(community.name, "");
    assert_eq!(community.description, None);
    assert_eq!(community, Community::default());
}

fn post(id: u64) -> PostResponse {
    PostResponse {
        post: Post { id, ..Default::default() },
        creator: Creator::new(),
        counts: Counts::new(),
    }
}

#[test]
fn post_table_selection() {
    let mut table = PostResponseTable::new(vec![post(1), post(2), post(3)]);
    assert_eq!(table.items().len(), 3);
    assert!(table.current().is_none());
    table.next();
    assert_eq!(table.current().unwrap().post.id, 1);
    table.previous();
    assert_eq!(table.current().unwrap().post.id, 3);
    table.next();
    assert_eq!(table.state(), Some(0));
    table.current_mut().unwrap().post.set_sorted(true);
    assert!(table.items()[0].post.sorted());
    *table.state_mut() = Some(9);
    assert!(table.current().is_none());
    assert!(table.current_mut().is_none());
    table.deselect();
    assert_eq!(table.state(), None);
    let mut empty = PostResponseTable::new(Vec::new());
    empty.previous();
    assert_eq!(empty.state(), Some(0));
    let mut fresh = PostResponseTable::new(Vec::new());
    fresh.next();
    assert_eq!(fresh.state(), Some(0));
    let responses = PostResponses { posts: vec![post(4)] };
    assert_eq!(responses.posts.len(), 1);
}

#[test]
fn lists_select_around_their_ends() {
    let mut posts = Posts::new(vec![Post::new(), Post::new(), Post::new()]);
    posts.next();
    posts.previous();
    assert_eq!(posts.state(), Some(2));
    assert!(posts.current().is_some());
    posts.next();
    assert_eq!(posts.state(), Some(0));
    posts.deselect();
    assert!(posts.current().is_none());

    let mut communities = Communities::new(vec![Community::new()]);
    communities.previous();
    assert_eq!(communities.state(), Some(0));
    communities.next();
    assert_eq!(communities.state(), Some(0));
    assert_eq!(communities.items().len(), 1);

    let mut counts = Countss::new(vec![Counts::new(), Counts::new()]);
    counts.next();
    counts.next();
    assert_eq!(counts.state(), Some(1));
    *counts.state_mut() = None;
    counts.previous();
    assert_eq!(counts.state(), Some(1));
}

#[test]
fn creators_step_one_past_the_end() {
    let mut creators = Creators::new(vec![Creator::new(), Creator::new()]);
    creators.next();
    assert_eq!(creators.state(), Some(0));
    creators.next();
    assert_eq!(creators.state(), Some(1));
    creators.next();
    assert_eq!(creators.state(), Some(2));
    creators.next();
    assert_eq!(creators.state(), Some(0));
    creators.previous();
    assert_eq!(creators.state(), Some(1));
    assert!(creators.current().is_some());
    creators.deselect();
    assert_eq!(creators.state(), None);
    assert_eq!(creators.items().len(), 2);
}
