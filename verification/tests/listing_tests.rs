use subreddit_posts_logic::comment::Comment;
use subreddit_posts_logic::listing::ItemFilter;
use subreddit_posts_logic::listing::Lister;
use subreddit_posts_logic::listing::ListingPage;
use subreddit_posts_logic::listing::list_all_pages;
use subreddit_posts_logic::post::PostInfo;

fn comment(name: &str, upvotes: u64, subreddit: &str) -> Comment {
    Comment {
        id: String::from(name),
        name: String::from(name),
        body: String::from("body"),
        upvotes,
        subreddit: String::from(subreddit),
    }
}

fn names(items: &[Comment]) -> Vec<String> {
    items.iter().map(|c| c.name.clone()).collect()
}

#[test]
fn two_page_listing_with_repeated_cursor_item() {
    let pages = vec![
        ListingPage {
            items: vec![comment("c1", 1, "s"), comment("c2", 2, "s")],
            after: Some(String::from("c2")),
        },
        ListingPage {
            items: vec![comment("c2", 2, "s"), comment("c3", 3, "s")],
            after: None,
        },
    ];
    let result = list_all_pages(pages, &ItemFilter::Any);
    assert_eq!(names(&result), vec!["c1", "c2", "c3"]);
}

#[test]
fn one_page_and_five_pages_filter_alike() {
    let all = ["a", "b", "c", "d", "e"];
    let ups = [1u64, 10, 2, 20, 3];
    let one_page = vec![ListingPage {
        items: (0..5).map(|i| comment(all[i], ups[i], "s")).collect(),
        after: None,
    }];
    let mut five_pages = Vec::new();
    for i in 0..5 {
        five_pages.push(ListingPage {
            items: vec![comment(all[i], ups[i], "s")],
            after: if i < 4 { Some(format!("cursor{}", i)) } else { None },
        });
    }
    let filter = ItemFilter::UpvotesBelow(5);
    let from_one = list_all_pages(one_page, &filter);
    let from_five = list_all_pages(five_pages, &filter);
    assert_eq!(names(&from_one), vec!["a", "c", "e"]);
    assert_eq!(from_one, from_five);
}

#[test]
fn cursor_overlap_excludes_only_the_repeated_item() {
    let mut lister = Lister::<Comment>::new();
    lister.feed_page(
        vec![comment("c0", 1, "s")],
        Some(String::from("c0")),
        &ItemFilter::Any,
    );
    lister.feed_page(
        vec![comment("c0", 1, "s"), comment("c1", 2, "s"), comment("c2", 3, "s")],
        None,
        &ItemFilter::Any,
    );
    assert_eq!(names(&lister.results), vec!["c0", "c1", "c2"]);
    assert!(lister.finished);
}

#[test]
fn empty_page_ends_the_listing() {
    let pages = vec![
        ListingPage { items: Vec::<Comment>::new(), after: Some(String::from("x")) },
        ListingPage { items: vec![comment("late", 1, "s")], after: None },
    ];
    let result = list_all_pages(pages, &ItemFilter::Any);
    assert!(result.is_empty());
}

#[test]
fn absent_cursor_ends_the_listing_after_the_page() {
    let pages = vec![
        ListingPage { items: vec![comment("a", 1, "s")], after: None },
        ListingPage { items: vec![comment("b", 1, "s")], after: None },
    ];
    let result = list_all_pages(pages, &ItemFilter::Any);
    assert_eq!(names(&result), vec!["a"]);
}

#[test]
fn subreddit_filter_folds_case_on_both_sides() {
    let filter = ItemFilter::InSubreddit(String::from("FOOBar"));
    assert!(filter.check(&comment("a", 1, "fooBAR")));
    assert!(filter.check(&comment("a", 1, "thefoobarplace")));
    assert!(!filter.check(&comment("a", 1, "other")));
}

fn post_info(upvotes: u64) -> PostInfo {
    PostInfo {
        id: String::from("i"),
        upvotes,
        name: String::from("t3_i"),
        subreddit: String::from("s"),
    }
}

#[test]
fn upvote_filter_is_strict() {
    let filter = ItemFilter::UpvotesBelow(5);
    assert!(filter.check(&post_info(4)));
    assert!(!filter.check(&post_info(5)));
}
