use subreddit_posts_logic::comment::parse_comment_page;
use subreddit_posts_logic::errors::ApiError;
use subreddit_posts_logic::flairs::parse_flairs;
use subreddit_posts_logic::json::find_string_containing;
use subreddit_posts_logic::json::JsonValue;
use subreddit_posts_logic::media::image_data_for;
use subreddit_posts_logic::media::mime_type_for;
use subreddit_posts_logic::post::parse_post_page;
use subreddit_posts_logic::strings::split_char;
use subreddit_posts_logic::strings::str_contains;
use subreddit_posts_logic::strings::str_eq;
use subreddit_posts_logic::user::parse_user;

fn s(v: &str) -> JsonValue {
    JsonValue::Str(String::from(v))
}

fn obj(fields: Vec<(&str, JsonValue)>) -> JsonValue {
    JsonValue::Obj(fields.into_iter().map(|(k, v)| (String::from(k), v)).collect())
}

fn comment_entry(id: &str, name: &str, body: &str, ups: u64, sub: &str) -> JsonValue {
    obj(vec![(
        "data",
        obj(vec![
            ("id", s(id)),
            ("name", s(name)),
            ("body", s(body)),
            ("ups", JsonValue::UInt(ups)),
            ("subreddit", s(sub)),
        ]),
    )])
}

fn post_entry(id: &str, name: &str, ups: u64, sub: &str) -> JsonValue {
    obj(vec![(
        "data",
        obj(vec![
            ("id", s(id)),
            ("name", s(name)),
            ("ups", JsonValue::UInt(ups)),
            ("subreddit", s(sub)),
        ]),
    )])
}

#[test]
fn comment_page_parses_items_and_cursor() {
    let body = obj(vec![(
        "data",
        obj(vec![
            ("after", s("t1_next")),
            ("children", JsonValue::Arr(vec![
                comment_entry("c1", "t1_c1", "first", 3, "foo"),
                comment_entry("c2", "t1_c2", "second", 7, "bar"),
            ])),
        ]),
    )]);
    let page = parse_comment_page(&body).unwrap();
    assert_eq!(page.after, Some(String::from("t1_next")));
    assert_eq!(page.items.len(), 2);
    assert_eq!(page.items[0].id, "c1");
    assert_eq!(page.items[0].body, "first");
    assert_eq!(page.items[1].upvotes, 7);
    assert_eq!(page.items[1].subreddit, "bar");
}

#[test]
fn comment_page_without_cursor_field_ends_the_listing() {
    let body = obj(vec![(
        "data",
        obj(vec![("children", JsonValue::Arr(Vec::new()))]),
    )]);
    let page = parse_comment_page(&body).unwrap();
    assert_eq!(page.after, None);
    assert!(page.items.is_empty());
}

#[test]
fn null_cursor_ends_the_listing() {
    let body = obj(vec![(
        "data",
        obj(vec![("after", JsonValue::Null), ("children", JsonValue::Arr(Vec::new()))]),
    )]);
    let page = parse_comment_page(&body).unwrap();
    assert_eq!(page.after, None);
}

#[test]
fn comment_entry_without_a_field_is_malformed() {
    let missing_name = obj(vec![(
        "data",
        obj(vec![
            ("id", s("c1")),
            ("body", s("b")),
            ("ups", JsonValue::UInt(1)),
            ("subreddit", s("foo")),
        ]),
    )]);
    let body = obj(vec![(
        "data",
        obj(vec![("children", JsonValue::Arr(vec![missing_name]))]),
    )]);
    assert!(matches!(
        parse_comment_page(&body),
        Err(ApiError::MalformedResponse { .. })
    ));
}

#[test]
fn listing_without_children_is_malformed() {
    let body = obj(vec![("data", obj(vec![("after", s("x"))]))]);
    assert!(matches!(
        parse_comment_page(&body),
        Err(ApiError::MalformedResponse { .. })
    ));
    let no_data = obj(vec![]);
    assert!(matches!(
        parse_comment_page(&no_data),
        Err(ApiError::MalformedResponse { .. })
    ));
}

#[test]
fn post_page_parses_items_and_cursor() {
    let body = obj(vec![(
        "data",
        obj(vec![
            ("after", s("t3_next")),
            ("children", JsonValue::Arr(vec![post_entry("p1", "t3_p1", 11, "foo")])),
        ]),
    )]);
    let page = parse_post_page(&body).unwrap();
    assert_eq!(page.after, Some(String::from("t3_next")));
    assert_eq!(page.items.len(), 1);
    assert_eq!(page.items[0].name, "t3_p1");
    assert_eq!(page.items[0].upvotes, 11);
}

#[test]
fn user_parses_from_identity_body() {
    let body = obj(vec![
        ("id", s("uid")),
        ("oauth_client_id", s("cid")),
        (
            "subreddit",
            obj(vec![
                ("name", s("t5_x")),
                ("display_name", s("u_someone")),
                ("display_name_prefixed", s("u/someone")),
                ("url", s("/user/someone/")),
            ]),
        ),
    ]);
    let user = parse_user(&body).unwrap();
    assert_eq!(user.id, "uid");
    assert_eq!(user.url, "/user/someone/");
    assert_eq!(user.display_name_prefixed, "u/someone");
}

#[test]
fn user_without_profile_url_is_malformed() {
    let body = obj(vec![
        ("id", s("uid")),
        ("oauth_client_id", s("cid")),
        ("subreddit", obj(vec![("name", s("t5_x"))])),
    ]);
    assert!(matches!(parse_user(&body), Err(ApiError::MalformedResponse { .. })));
}

#[test]
fn flairs_parse_from_an_array_body() {
    let body = JsonValue::Arr(vec![
        obj(vec![("text", s("Art")), ("id", s("f1"))]),
        obj(vec![("id", s("f2"))]),
    ]);
    let flairs = parse_flairs("foo", &body);
    assert_eq!(flairs.len(), 2);
    assert_eq!(flairs[0].sub_reddit, "foo");
    assert_eq!(flairs[0].text, "Art");
    assert_eq!(flairs[0].id, "f1");
    assert_eq!(flairs[1].text, "");
    let not_array = obj(vec![]);
    assert!(parse_flairs("foo", &not_array).is_empty());
}

#[test]
fn deep_search_finds_the_first_match_in_order() {
    let tree = JsonValue::Arr(vec![
        s("nothing here"),
        obj(vec![("k", s("first hit"))]),
        s("second hit"),
    ]);
    assert_eq!(find_string_containing(&tree, "hit"), Some(&String::from("first hit")));
    assert_eq!(find_string_containing(&tree, "absent"), None);
}

#[test]
fn string_utilities() {
    assert!(str_eq("abc", "abc"));
    assert!(!str_eq("abc", "abd"));
    assert!(str_contains("hello world", "lo wo"));
    assert!(!str_contains("hello", "world"));
    assert!(str_contains("any", ""));
    let parts = split_char("a/bb//c", '/');
    assert_eq!(parts, vec!["a", "bb", "", "c"]);
    assert_eq!(split_char("", '/'), vec![""]);
}

#[test]
fn mime_types_follow_the_extension() {
    assert_eq!(mime_type_for("png"), Some("image/png"));
    assert_eq!(mime_type_for("jpeg"), Some("image/jpeg"));
    assert_eq!(mime_type_for("mov"), Some("video/quicktime"));
    assert_eq!(mime_type_for("webp"), None);
    let data = image_data_for("image", "shots/cat.png").unwrap();
    assert_eq!(data.filepath, "shots/cat.png");
    assert_eq!(data.mimetype, "image/png");
    assert!(image_data_for("video", "shots/cat.png").is_none());
    assert!(image_data_for("image", "notes.txt").is_none());
}
