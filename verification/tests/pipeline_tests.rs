use subreddit_posts_logic::errors::ApiError;
use subreddit_posts_logic::json::JsonValue;
use subreddit_posts_logic::post::comment_to_submit;
use subreddit_posts_logic::post::create_final_posts;
use subreddit_posts_logic::post::retrieve_post_id;
use subreddit_posts_logic::post::retrieve_post_url;
use subreddit_posts_logic::post::FinalPost;
use subreddit_posts_logic::post::MainPostInfo;
use subreddit_posts_logic::post::Post;
use subreddit_posts_logic::post::Posts;

fn main_info(post_type: &str, comment: Option<&str>) -> MainPostInfo {
    MainPostInfo {
        post_type: String::from(post_type),
        body: String::from("https://example.test/page"),
        title: String::from("A"),
        nsfw: false,
        comment: comment.map(String::from),
    }
}

fn target() -> Post {
    Post {
        subreddit: String::from("foo"),
        body_override: None,
        title_override: None,
        additional_title: None,
        flair_id: None,
        flair_name: None,
        need_to_be_posted: None,
        comment: None,
    }
}

#[test]
fn it_works() {
    let url = String::from("https://www.reddit.com/r/youareart/comments/tuijnl/my_new_picturef/");
    let id = retrieve_post_id(url);
    println!("{:?}", id);
    assert_eq!(id, Some(String::from("tuijnl")));
}

#[test]
fn title_is_shared_title_plus_additional() {
    let main = main_info("link", None);
    let mut post = target();
    post.additional_title = Some(String::from("B"));
    let fp = FinalPost::new(&main, &post, String::from("u"));
    assert_eq!(fp.title, "AB");
}

#[test]
fn title_override_wins_and_additional_still_appends() {
    let main = main_info("link", None);
    let mut post = target();
    post.title_override = Some(String::from("X"));
    post.additional_title = Some(String::from("B"));
    let fp = FinalPost::new(&main, &post, String::from("u"));
    assert_eq!(fp.title, "XB");
}

#[test]
fn shared_comment_wins_over_target_comment() {
    let main = main_info("link", Some("S"));
    let mut post = target();
    post.comment = Some(String::from("T"));
    let fp = FinalPost::new(&main, &post, String::from("u"));
    assert_eq!(fp.comment, Some(String::from("S")));
}

#[test]
fn target_comment_used_when_shared_comment_absent() {
    let main = main_info("link", None);
    let mut post = target();
    post.comment = Some(String::from("T"));
    let fp = FinalPost::new(&main, &post, String::from("u"));
    assert_eq!(fp.comment, Some(String::from("T")));
}

#[test]
fn unsupported_post_type_is_rejected() {
    let posts = Posts { main_post_info: main_info("image", None), posts: vec![target()] };
    let r = create_final_posts(posts);
    assert_eq!(r, Err(ApiError::UnsupportedPostType));
}

#[test]
fn unsupported_post_type_passes_when_every_target_opts_out() {
    let mut post = target();
    post.need_to_be_posted = Some(false);
    let posts = Posts { main_post_info: main_info("image", None), posts: vec![post] };
    let r = create_final_posts(posts).unwrap();
    assert!(r.is_empty());
}

#[test]
fn final_posts_resolve_body_and_skip_opted_out_targets() {
    let mut skipped = target();
    skipped.need_to_be_posted = Some(false);
    let mut with_override = target();
    with_override.body_override = Some(String::from("https://example.test/other"));
    let posts = Posts {
        main_post_info: main_info("link", None),
        posts: vec![skipped, target(), with_override],
    };
    let r = create_final_posts(posts).unwrap();
    assert_eq!(r.len(), 2);
    assert_eq!(r[0].url, "https://example.test/page");
    assert_eq!(r[1].url, "https://example.test/other");
    assert_eq!(r[0].kind, "link");
    assert!(!r[0].resubmit && !r[0].sendreplies && !r[0].spoiler);
}

fn submission_response(url: &str) -> JsonValue {
    JsonValue::Obj(vec![(
        String::from("jquery"),
        JsonValue::Arr(vec![JsonValue::Arr(vec![
            JsonValue::Str(String::from("x")),
            JsonValue::Str(String::from("y")),
            JsonValue::Arr(vec![
                JsonValue::Str(String::from("call")),
                JsonValue::Str(String::from("redirect")),
                JsonValue::Str(String::from(url)),
            ]),
        ])]),
    )])
}

#[test]
fn post_url_found_deep_in_the_response() {
    let body = submission_response("https://platform/r/foo/comments/abc123/title/");
    let url = retrieve_post_url("foo", &body).unwrap();
    assert_eq!(url, "https://platform/r/foo/comments/abc123/title/");
    let id = retrieve_post_id(url);
    assert_eq!(id, Some(String::from("abc123")));
}

#[test]
fn post_url_unresolved_without_a_matching_string() {
    let body = submission_response("https://platform/r/other/comments/abc123/title/");
    assert_eq!(retrieve_post_url("foo", &body), None);
    let empty = JsonValue::Obj(vec![(String::from("jquery"), JsonValue::Arr(Vec::new()))]);
    assert_eq!(retrieve_post_url("foo", &empty), None);
    let no_field = JsonValue::Obj(Vec::new());
    assert_eq!(retrieve_post_url("foo", &no_field), None);
}

#[test]
fn post_id_needs_a_comments_segment_and_a_following_one() {
    assert_eq!(retrieve_post_id(String::from("https://p/r/foo/things/abc/")), None);
    assert_eq!(retrieve_post_id(String::from("https://p/r/foo/comments")), None);
}

#[test]
fn comment_chained_only_with_comment_and_id() {
    let main = main_info("link", Some("hello"));
    let fp = FinalPost::new(&main, &target(), String::from("u"));
    let some_id = Some(String::from("abc123"));
    let chained = comment_to_submit(&fp, &some_id).unwrap();
    assert_eq!(chained.thing_id, "t3_abc123");
    assert_eq!(chained.text, "hello");
    assert!(!chained.return_rtjson);
    assert!(comment_to_submit(&fp, &None).is_none());
    let silent = FinalPost::new(&main_info("link", None), &target(), String::from("u"));
    assert!(comment_to_submit(&silent, &some_id).is_none());
}
