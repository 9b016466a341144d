use subreddit_posts_logic::comment::comment_request;
use subreddit_posts_logic::environment::Environment;
use subreddit_posts_logic::errors::ApiError;
use subreddit_posts_logic::login::login_url;
use subreddit_posts_logic::login::validate_login_callback;
use subreddit_posts_logic::login::NetworkData;
use subreddit_posts_logic::login::Params;
use subreddit_posts_logic::post::FinalPost;
use subreddit_posts_logic::post::PostInfo;
use subreddit_posts_logic::reddit_client::comment_url;
use subreddit_posts_logic::reddit_client::delete_action;
use subreddit_posts_logic::reddit_client::delete_requests_for;
use subreddit_posts_logic::reddit_client::delete_url;
use subreddit_posts_logic::reddit_client::encoded_comment_body;
use subreddit_posts_logic::reddit_client::encoded_delete_body;
use subreddit_posts_logic::reddit_client::encoded_submit_body;
use subreddit_posts_logic::reddit_client::encoded_token_request_body;
use subreddit_posts_logic::reddit_client::flairs_url;
use subreddit_posts_logic::reddit_client::listing_url;
use subreddit_posts_logic::reddit_client::me_url;
use subreddit_posts_logic::reddit_client::submit_url;
use subreddit_posts_logic::reddit_client::CallKind;
use subreddit_posts_logic::reddit_client::DeleteRequest;
use subreddit_posts_logic::reddit_client::ProtectedIds;
use subreddit_posts_logic::reddit_client::RateLimits;

const BASE: &str = "https://oauth.reddit.com";

fn guard() -> ProtectedIds {
    ProtectedIds::new(vec![String::from("u9px12"), String::from("uaysta")])
}

#[test]
fn protected_id_blocks_delete_by_substring() {
    let g = guard();
    assert!(!g.permits_delete("t1_u9px12"));
    assert!(!g.permits_delete("t3_uaysta"));
    assert!(g.permits_delete("t3_zzzzzz"));
}

#[test]
fn protected_delete_produces_no_outbound_call() {
    let g = guard();
    let blocked = DeleteRequest::new_json("t1_u9px12");
    assert_eq!(delete_action(&g, BASE, &blocked), None);
    let allowed = DeleteRequest::new_json("t3_zzzzzz");
    let (url, body) = delete_action(&g, BASE, &allowed).unwrap();
    assert_eq!(url, "https://oauth.reddit.com/api/del");
    assert_eq!(body, "id=t3_zzzzzz&api_type=json");
}

#[test]
fn empty_deny_list_permits_everything() {
    let g = ProtectedIds::new(Vec::new());
    assert!(g.permits_delete("t1_u9px12"));
}

#[test]
fn delete_requests_name_each_item_in_order() {
    let items = vec![
        PostInfo {
            id: String::from("a"),
            upvotes: 1,
            name: String::from("t3_a"),
            subreddit: String::from("s"),
        },
        PostInfo {
            id: String::from("b"),
            upvotes: 2,
            name: String::from("t3_b"),
            subreddit: String::from("s"),
        },
    ];
    let requests = delete_requests_for(&items);
    assert_eq!(requests.len(), 2);
    assert_eq!(requests[0].id, "t3_a");
    assert_eq!(requests[1].id, "t3_b");
    assert_eq!(requests[0].api_type, "json");
}

#[test]
fn delete_request_takes_the_json_shape() {
    let req = DeleteRequest::new_json("t3_abc");
    assert_eq!(req.id, "t3_abc");
    assert_eq!(req.api_type, "json");
    assert_eq!(encoded_delete_body(&req), "id=t3_abc&api_type=json");
}

#[test]
fn comment_body_is_url_encoded_in_wire_order() {
    let c = comment_request(String::from("a comment"), "xyz");
    assert_eq!(
        encoded_comment_body(&c),
        "return_rtjson=false&text=a+comment&thing_id=t3_xyz"
    );
}

#[test]
fn submit_body_is_url_encoded_and_skips_absent_fields() {
    let fp = FinalPost {
        sr: String::from("foo"),
        resubmit: false,
        sendreplies: false,
        title: String::from("a title"),
        nsfw: true,
        spoiler: false,
        subreddit: String::from("foo"),
        flair_id: None,
        flair_name: None,
        url: String::from("https://example.test/p"),
        kind: String::from("link"),
        comment: None,
    };
    assert_eq!(
        encoded_submit_body(&fp),
        "sr=foo&resubmit=false&sendreplies=false&title=a+title&nsfw=true&spoiler=false\
         &subreddit=foo&url=https%3A%2F%2Fexample.test%2Fp&kind=link"
    );
}

#[test]
fn submit_body_keeps_present_flair_and_comment() {
    let fp = FinalPost {
        sr: String::from("s"),
        resubmit: false,
        sendreplies: false,
        title: String::from("t"),
        nsfw: false,
        spoiler: false,
        subreddit: String::from("s"),
        flair_id: Some(String::from("f1")),
        flair_name: Some(String::from("fn")),
        url: String::from("u"),
        kind: String::from("link"),
        comment: Some(String::from("c")),
    };
    assert_eq!(
        encoded_submit_body(&fp),
        "sr=s&resubmit=false&sendreplies=false&title=t&nsfw=false&spoiler=false&subreddit=s\
         &flair_id=f1&flair_name=fn&url=u&kind=link&comment=c"
    );
}

#[test]
fn rate_limit_defaults_and_selection() {
    let limits = RateLimits::defaults();
    assert_eq!(limits.read_delay_ms, 21);
    assert_eq!(limits.write_delay_ms, 30000);
    assert_eq!(limits.delay_after(CallKind::Get), 21);
    assert_eq!(limits.delay_after(CallKind::Delete), 21);
    assert_eq!(limits.delay_after(CallKind::Post), 30000);
}

#[test]
fn listing_url_carries_the_cursor_only_when_active() {
    assert_eq!(
        listing_url(BASE, "/user/someone/", "comments", &None),
        "https://oauth.reddit.com/user/someone/comments?limit=1000"
    );
    assert_eq!(
        listing_url(BASE, "/user/someone/", "submitted", &Some(String::from("t3_k"))),
        "https://oauth.reddit.com/user/someone/submitted?limit=1000&after=t3_k"
    );
}

#[test]
fn endpoint_urls() {
    assert_eq!(submit_url(BASE, "foo"), "https://oauth.reddit.com/r/foo/api/submit");
    assert_eq!(comment_url(BASE), "https://oauth.reddit.com/api/comment");
    assert_eq!(delete_url(BASE), "https://oauth.reddit.com/api/del");
    assert_eq!(me_url(BASE), "https://oauth.reddit.com/api/v1/me");
    assert_eq!(
        flairs_url(BASE, "foo"),
        "https://oauth.reddit.com/r/foo/api/link_flair_v2.json?raw_json=1"
    );
}

fn settings() -> Environment {
    Environment {
        application_id: String::from("app"),
        application_secret: String::from("app-secret"),
        application_redirection_link: String::from("http://localhost:9090/reddit/login-callback"),
        application_scope: String::from("read submit"),
    }
}

#[test]
fn login_url_fills_the_authorization_template() {
    let url = login_url(&settings(), "rid-1");
    assert_eq!(
        url,
        "https://www.reddit.com/api/v1/authorize?client_id=app&response_type=code&state=rid-1\
         &redirect_uri=http://localhost:9090/reddit/login-callback\
         &duration=temporary&scope=read submit"
    );
}

#[test]
fn login_callback_checks_state_and_needs_a_code() {
    let good = Params {
        error: None,
        code: Some(String::from("the-code")),
        state: Some(String::from("rid-1")),
    };
    assert_eq!(validate_login_callback(&good, "rid-1"), Ok(String::from("the-code")));
    assert!(matches!(
        validate_login_callback(&good, "rid-2"),
        Err(ApiError::MalformedResponse { .. })
    ));
    let no_code = Params { error: None, code: None, state: Some(String::from("rid-1")) };
    assert!(matches!(
        validate_login_callback(&no_code, "rid-1"),
        Err(ApiError::MalformedResponse { .. })
    ));
    let no_state = Params { error: None, code: Some(String::from("c")), state: None };
    assert!(matches!(
        validate_login_callback(&no_state, "rid-1"),
        Err(ApiError::MalformedResponse { .. })
    ));
}

#[test]
fn token_exchange_body() {
    let data = NetworkData::new("the-code", "http://localhost:9090/cb");
    assert_eq!(data.grant_type, "authorization_code");
    assert_eq!(
        encoded_token_request_body(&data),
        "grant_type=authorization_code&code=the-code&redirect_uri=http%3A%2F%2Flocalhost%3A9090%2Fcb"
    );
}
