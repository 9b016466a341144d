//! The submission pipeline: merging a shared post description with its
//! per-target overrides into the platform wire shape, recovering the created
//! post's canonical URL and id from the submission response, and the posts of
//! the authenticated user's own listing.
use crate::comment::comment_request;
use crate::comment::PostComment;
use crate::errors::ApiError;
use crate::json::find_string_containing;
use crate::json::spec_find_str;
use crate::json::spec_field_str;
use crate::json::spec_field_u64;
use crate::json::field_str;
use crate::json::field_u64;
use crate::json::JsonValue;
use crate::listing::cursor_view;
use crate::listing::Listed;
use crate::listing::ListingPage;
use crate::strings::id_after_marker;
use crate::strings::opt_str_view;
use crate::strings::spec_split;
use crate::strings::split_char;
use crate::strings::str_eq;
use vstd::prelude::*;
use vstd::string::StringExecFns;

verus! {

/// A batch of submissions: the shared description and the per-target posts.
#[derive(Debug, PartialEq, Eq)]
pub struct Posts {
    pub main_post_info: MainPostInfo,
    pub posts: Vec<Post>,
}

/// The description shared by every target of a batch.
#[derive(Debug, PartialEq, Eq)]
pub struct MainPostInfo {
    pub post_type: String,
    pub body: String,
    pub title: String,
    pub nsfw: bool,
    pub comment: Option<String>,
}

/// One target of a batch, with its overrides of the shared description.
#[derive(Debug, PartialEq, Eq)]
pub struct Post {
    pub subreddit: String,
    pub body_override: Option<String>,
    pub title_override: Option<String>,
    pub additional_title: Option<String>,
    pub flair_id: Option<String>,
    pub flair_name: Option<String>,
    pub need_to_be_posted: Option<bool>,
    pub comment: Option<String>,
}

/// The platform wire shape of one submission.
#[derive(Debug, PartialEq, Eq)]
pub struct FinalPost {
    pub sr: String,
    pub resubmit: bool,
    pub sendreplies: bool,
    pub title: String,
    pub nsfw: bool,
    pub spoiler: bool,
    pub subreddit: String,
    pub flair_id: Option<String>,
    pub flair_name: Option<String>,
    pub url: String,
    pub kind: String,
    pub comment: Option<String>,
}

/// The resolved title of a submission: the override, when present, wins over
/// the shared title, and the additional title is appended to the result.
pub open spec fn spec_resolved_title(
    shared: Seq<char>,
    title_override: Option<Seq<char>>,
    additional: Option<Seq<char>>,
) -> Seq<char> {
    (match title_override {
        Some(t) => t,
        None => shared,
    }) + (match additional {
        Some(a) => a,
        None => Seq::empty(),
    })
}

impl FinalPost {
    /// Merge the shared description and one target into the wire shape. The
    /// override title wins, the additional title is appended, the shared
    /// comment wins over the target's, and resubmit, sendreplies and spoiler
    /// are fixed off.
    pub fn new(main_post_info: &MainPostInfo, post: &Post, url: String) -> (r: FinalPost)
        ensures
            r.sr@ == post.subreddit@,
            r.subreddit@ == post.subreddit@,
            !r.resubmit,
            !r.sendreplies,
            !r.spoiler,
            r.nsfw == main_post_info.nsfw,
            r.title@ == spec_resolved_title(
                main_post_info.title@,
                opt_str_view(post.title_override),
                opt_str_view(post.additional_title),
            ),
            r.flair_id == post.flair_id,
            r.flair_name == post.flair_name,
            r.url == url,
            r.kind@ == main_post_info.post_type@,
            r.comment == if main_post_info.comment is Some {
                main_post_info.comment
            } else {
                post.comment
            },
    {
        let mut title = match &post.title_override {
            Some(t) => t.clone(),
            None => main_post_info.title.clone(),
        };
        match &post.additional_title {
            Some(extra) => {
                title.append(extra.as_str());
            },
            None => {
                proof {
                    assert(title@ + Seq::<char>::empty() =~= title@);
                }
            },
        }
        let comment = match &main_post_info.comment {
            Some(c) => Some(c.clone()),
            None => match &post.comment {
                Some(c) => Some(c.clone()),
                None => None,
            },
        };
        FinalPost {
            sr: post.subreddit.clone(),
            resubmit: false,
            sendreplies: false,
            title,
            nsfw: main_post_info.nsfw,
            spoiler: false,
            subreddit: post.subreddit.clone(),
            flair_id: post.flair_id.clone(),
            flair_name: post.flair_name.clone(),
            url,
            kind: main_post_info.post_type.clone(),
            comment,
        }
    }
}

/// A target takes part in the batch unless it opts out.
pub open spec fn spec_should_post(p: Post) -> bool {
    match p.need_to_be_posted {
        Some(b) => b,
        None => true,
    }
}

/// The targets of a batch that take part, in batch order.
pub open spec fn spec_posts_to_submit(posts: Seq<Post>) -> Seq<Post>
    decreases posts.len(),
{
    if posts.len() == 0 {
        Seq::empty()
    } else {
        let rest = spec_posts_to_submit(posts.drop_last());
        if spec_should_post(posts.last()) {
            rest.push(posts.last())
        } else {
            rest
        }
    }
}

/// A wire-shape post is the correct merge of the shared description and one
/// target: the resolved title and link, the fixed flags, and the shared
/// comment winning over the target's.
pub open spec fn spec_final_matches(main: MainPostInfo, p: Post, f: FinalPost) -> bool {
    &&& f.sr@ == p.subreddit@
    &&& f.subreddit@ == p.subreddit@
    &&& !f.resubmit
    &&& !f.sendreplies
    &&& !f.spoiler
    &&& f.nsfw == main.nsfw
    &&& f.kind@ == main.post_type@
    &&& f.title@ == spec_resolved_title(
        main.title@,
        opt_str_view(p.title_override),
        opt_str_view(p.additional_title),
    )
    &&& f.url@ == (match p.body_override {
        Some(b) => b@,
        None => main.body@,
    })
    &&& f.flair_id == p.flair_id
    &&& f.flair_name == p.flair_name
    &&& f.comment == (if main.comment is Some {
        main.comment
    } else {
        p.comment
    })
}

/// A batch with a target that takes part has a nonempty submission list.
proof fn lemma_to_submit_nonempty(s: Seq<Post>, j: int)
    requires
        0 <= j < s.len(),
        spec_should_post(s[j]),
    ensures
        spec_posts_to_submit(s).len() > 0,
    decreases s.len(),
{
    if j == s.len() - 1 {
        assert(s.last() == s[j]);
    } else {
        lemma_to_submit_nonempty(s.drop_last(), j);
        assert(s.drop_last()[j] == s[j]);
    }
}

/// Build the wire shape of every target that takes part, in batch order.
/// Only the link kind is supported: any other kind is rejected before
/// anything is submitted, unless no target takes part at all.
pub fn create_final_posts(posts: Posts) -> (r: Result<Vec<FinalPost>, ApiError>)
    ensures
        match r {
            Ok(v) => {
                &&& (posts.main_post_info.post_type@ == "link"@ || spec_posts_to_submit(
                    posts.posts@,
                ).len() == 0)
                &&& v@.len() == spec_posts_to_submit(posts.posts@).len()
                &&& forall|i: int|
                    0 <= i < v@.len() ==> #[trigger] spec_final_matches(
                        posts.main_post_info,
                        spec_posts_to_submit(posts.posts@)[i],
                        v@[i],
                    )
            },
            Err(e) => {
                &&& e is UnsupportedPostType
                &&& posts.main_post_info.post_type@ != "link"@
                &&& spec_posts_to_submit(posts.posts@).len() > 0
            },
        },
{
    let Posts { main_post_info, posts: mut targets } = posts;
    let is_link = str_eq(main_post_info.post_type.as_str(), "link");
    let n = targets.len();
    let ghost orig = targets@;
    proof {
        assert(orig.len() == n);
    }
    let mut out: Vec<FinalPost> = Vec::new();
    let mut k: usize = 0;
    proof {
        assert(orig.take(0) =~= Seq::<Post>::empty());
    }
    while targets.len() > 0
        invariant
            k <= orig.len(),
            orig.len() <= usize::MAX,
            targets@ =~= orig.skip(k as int),
            main_post_info == posts.main_post_info,
            orig == posts.posts@,
            is_link == (main_post_info.post_type@ == "link"@),
            !is_link ==> spec_posts_to_submit(orig.take(k as int)) =~= Seq::<Post>::empty(),
            out@.len() == spec_posts_to_submit(orig.take(k as int)).len(),
            forall|i: int|
                0 <= i < out@.len() ==> #[trigger] spec_final_matches(
                    main_post_info,
                    spec_posts_to_submit(orig.take(k as int))[i],
                    out@[i],
                ),
        decreases targets@.len(),
    {
        let p = targets.remove(0);
        proof {
            assert(p == orig[k as int]);
            assert(targets@ =~= orig.skip(k as int + 1));
            assert(orig.take(k as int + 1).drop_last() =~= orig.take(k as int));
            assert(orig.take(k as int + 1).last() == orig[k as int]);
        }
        let should = match p.need_to_be_posted {
            Some(b) => b,
            None => true,
        };
        if should {
            if !is_link {
                proof {
                    lemma_to_submit_nonempty(orig, k as int);
                }
                return Err(ApiError::UnsupportedPostType);
            }
            let url = match &p.body_override {
                Some(b) => b.clone(),
                None => main_post_info.body.clone(),
            };
            let fp = FinalPost::new(&main_post_info, &p, url);
            let ghost pre_out = out@;
            let ghost kept = spec_posts_to_submit(orig.take(k as int + 1));
            out.push(fp);
            proof {
                assert(kept =~= spec_posts_to_submit(orig.take(k as int)).push(p));
                assert(out@ =~= pre_out.push(fp));
                assert(spec_final_matches(main_post_info, p, fp));
                assert forall|i: int| 0 <= i < out@.len() implies #[trigger] spec_final_matches(
                    main_post_info,
                    kept[i],
                    out@[i],
                ) by {
                    if i < pre_out.len() {
                        assert(kept[i] == spec_posts_to_submit(orig.take(k as int))[i]);
                        assert(out@[i] == pre_out[i]);
                    } else {
                        assert(kept[i] == p);
                        assert(out@[i] == fp);
                    }
                }
            }
        }
        k = k + 1;
    }
    proof {
        assert(orig.take(k as int) =~= orig);
    }
    Ok(out)
}

/// The pattern a created post's canonical URL holds: the community's
/// comments path.
pub open spec fn spec_comments_pattern(subreddit: Seq<char>) -> Seq<char> {
    "/r/"@ + subreddit + "/comments"@
}

/// Find the created post's canonical URL in a submission response: the first
/// string anywhere under the response's `jquery` field that holds the
/// community's comments path. An absent field or no such string means the
/// submission yielded no discoverable URL.
pub fn retrieve_post_url(subreddit: &str, body: &JsonValue) -> (r: Option<String>)
    ensures
        match body.spec_get("jquery"@) {
            None => r is None,
            Some(j) => match spec_find_str(j, spec_comments_pattern(subreddit@)) {
                Some(u) => r matches Some(s) && s@ == u,
                None => r is None,
            },
        },
{
    let mut pattern = String::from_str("/r/");
    pattern.append(subreddit);
    pattern.append("/comments");
    proof {
        assert(pattern@ =~= spec_comments_pattern(subreddit@));
    }
    match body.get("jquery") {
        None => None,
        Some(j) => match find_string_containing(j, pattern.as_str()) {
            Some(s) => Some(s.clone()),
            None => None,
        },
    }
}

/// The comment to chain after one submission: only when the merged post
/// carries a comment and the submission response yielded an id.
pub fn comment_to_submit(post: &FinalPost, post_id: &Option<String>) -> (r: Option<PostComment>)
    ensures
        r is Some <==> (post.comment is Some && post_id is Some),
        r matches Some(c) ==> {
            &&& !c.return_rtjson
            &&& (post.comment matches Some(t) && c.text == t)
            &&& (post_id matches Some(id) && c.thing_id@ == "t3_"@ + id@)
        },
{
    match (&post.comment, post_id) {
        (Some(c), Some(id)) => Some(comment_request(c.clone(), id.as_str())),
        _ => None,
    }
}

/// The id of a created post, read off its canonical URL: the path segment
/// right after the `comments` segment.
pub open spec fn spec_post_id(url: Seq<char>) -> Option<Seq<char>> {
    id_after_marker(spec_split(url, '/'), "comments"@)
}

/// Extract the created post's id from its canonical URL; without a
/// `comments` segment followed by another segment there is no id.
pub fn retrieve_post_id(post_url: String) -> (r: Option<String>)
    ensures
        match r {
            Some(id) => spec_post_id(post_url@) == Some(id@),
            None => spec_post_id(post_url@) is None,
        },
{
    let parts = split_char(post_url.as_str(), '/');
    let ghost views = parts@.map_values(|x: String| x@);
    let mut j: usize = 0;
    proof {
        assert(views.skip(0) =~= views);
    }
    while j < parts.len()
        invariant
            j <= parts@.len(),
            views == parts@.map_values(|x: String| x@),
            spec_post_id(post_url@) == id_after_marker(views.skip(j as int), "comments"@),
        decreases parts@.len() - j,
    {
        let is_marker = str_eq(parts[j].as_str(), "comments");
        proof {
            let tail = views.skip(j as int);
            assert(tail.first() == views[j as int]);
            assert(tail.drop_first() =~= views.skip(j as int + 1));
        }
        if is_marker {
            if j + 1 < parts.len() {
                proof {
                    assert(views.skip(j as int)[1] == views[j as int + 1]);
                }
                return Some(parts[j + 1].clone());
            } else {
                return None;
            }
        }
        j = j + 1;
    }
    proof {
        assert(views.skip(j as int) =~= Seq::<Seq<char>>::empty());
    }
    None
}

/// One post of the authenticated user's own listing.
#[derive(Debug, PartialEq, Eq)]
pub struct PostInfo {
    pub id: String,
    pub upvotes: u64,
    pub name: String,
    pub subreddit: String,
}

/// The mathematical content of a `PostInfo`.
pub struct PostInfoView {
    pub id: Seq<char>,
    pub upvotes: u64,
    pub name: Seq<char>,
    pub subreddit: Seq<char>,
}

impl View for PostInfo {
    type V = PostInfoView;

    open spec fn view(&self) -> PostInfoView {
        PostInfoView {
            id: self.id@,
            upvotes: self.upvotes,
            name: self.name@,
            subreddit: self.subreddit@,
        }
    }
}

impl Listed for PostInfo {
    open spec fn key(self) -> Seq<char> {
        self.name@
    }

    open spec fn ups(self) -> u64 {
        self.upvotes
    }

    open spec fn sub(self) -> Seq<char> {
        self.subreddit@
    }

    fn name_ref(&self) -> (r: &String) {
        &self.name
    }

    fn upvote_count(&self) -> (r: u64) {
        self.upvotes
    }

    fn subreddit_ref(&self) -> (r: &String) {
        &self.subreddit
    }
}

/// The post one child entry of a listing page holds, when the entry has the
/// expected shape: a `data` object with `id`, `ups`, `name` and `subreddit`
/// fields of the right kinds.
pub open spec fn spec_parse_post_info(v: JsonValue) -> Option<PostInfoView> {
    match v.spec_get("data"@) {
        None => None,
        Some(d) => match spec_field_str(d, "id"@) {
            None => None,
            Some(id) => match spec_field_u64(d, "ups"@) {
                None => None,
                Some(ups) => match spec_field_str(d, "name"@) {
                    None => None,
                    Some(name) => match spec_field_str(d, "subreddit"@) {
                        None => None,
                        Some(sub) => Some(
                            PostInfoView { id: id, upvotes: ups, name: name, subreddit: sub },
                        ),
                    },
                },
            },
        },
    }
}

/// Parse one child entry of a post listing; a missing or ill-typed field is
/// a malformed response.
pub fn parse_post_info(v: &JsonValue) -> (r: Result<PostInfo, ApiError>)
    ensures
        match r {
            Ok(p) => spec_parse_post_info(*v) == Some(p@),
            Err(e) => spec_parse_post_info(*v) is None && e is MalformedResponse,
        },
{
    let d = match v.get("data") {
        Some(d) => d,
        None => {
            return Err(
                ApiError::MalformedResponse {
                    context: String::from_str("post entry without a data object"),
                },
            );
        },
    };
    let id = match field_str(d, "id") {
        Some(s) => s.clone(),
        None => {
            return Err(
                ApiError::MalformedResponse {
                    context: String::from_str("post entry without an id"),
                },
            );
        },
    };
    let upvotes = match field_u64(d, "ups") {
        Some(n) => n,
        None => {
            return Err(
                ApiError::MalformedResponse {
                    context: String::from_str("post entry without an upvote count"),
                },
            );
        },
    };
    let name = match field_str(d, "name") {
        Some(s) => s.clone(),
        None => {
            return Err(
                ApiError::MalformedResponse {
                    context: String::from_str("post entry without a name"),
                },
            );
        },
    };
    let subreddit = match field_str(d, "subreddit") {
        Some(s) => s.clone(),
        None => {
            return Err(
                ApiError::MalformedResponse {
                    context: String::from_str("post entry without a subreddit"),
                },
            );
        },
    };
    Ok(PostInfo { id, upvotes, name, subreddit })
}

/// The posts of the child entries from position `i` on; any entry of the
/// wrong shape spoils the whole page.
pub open spec fn spec_parse_post_infos(items: Seq<JsonValue>, i: int) -> Option<Seq<PostInfoView>>
    decreases items.len() - i,
{
    if i >= items.len() {
        Some(Seq::empty())
    } else {
        match spec_parse_post_info(items[i]) {
            None => None,
            Some(p) => match spec_parse_post_infos(items, i + 1) {
                None => None,
                Some(rest) => Some(seq![p] + rest),
            },
        }
    }
}

/// Parse every child entry of a page, in order.
pub fn parse_post_infos(children: &Vec<JsonValue>) -> (r: Result<Vec<PostInfo>, ApiError>)
    ensures
        match r {
            Ok(ps) => spec_parse_post_infos(children@, 0) == Some(
                ps@.map_values(|p: PostInfo| p@),
            ),
            Err(e) => spec_parse_post_infos(children@, 0) is None && e is MalformedResponse,
        },
{
    let mut out: Vec<PostInfo> = Vec::new();
    let mut i: usize = 0;
    proof {
        assert(out@.map_values(|p: PostInfo| p@) =~= Seq::<PostInfoView>::empty());
    }
    while i < children.len()
        invariant
            i <= children@.len(),
            match spec_parse_post_infos(children@, i as int) {
                Some(rest) => spec_parse_post_infos(children@, 0) == Some(
                    out@.map_values(|p: PostInfo| p@) + rest,
                ),
                None => spec_parse_post_infos(children@, 0) is None,
            },
        decreases children@.len() - i,
    {
        let ghost pre_out = out@;
        let parsed = parse_post_info(&children[i]);
        match parsed {
            Ok(p) => {
                proof {
                    assert(spec_parse_post_info(children@[i as int]) == Some(p@));
                    match spec_parse_post_infos(children@, i as int + 1) {
                        Some(rest2) => {
                            assert(spec_parse_post_infos(children@, i as int) == Some(
                                seq![p@] + rest2,
                            ));
                            assert((pre_out.push(p)).map_values(|x: PostInfo| x@)
                                =~= pre_out.map_values(|x: PostInfo| x@) + seq![p@]);
                            assert(pre_out.map_values(|x: PostInfo| x@) + (seq![p@] + rest2)
                                =~= (pre_out.map_values(|x: PostInfo| x@) + seq![p@]) + rest2);
                        },
                        None => {
                            assert(spec_parse_post_infos(children@, i as int) is None);
                        },
                    }
                }
                out.push(p);
            },
            Err(e) => {
                proof {
                    assert(spec_parse_post_infos(children@, i as int) is None);
                }
                return Err(e);
            },
        }
        i = i + 1;
    }
    proof {
        assert(spec_parse_post_infos(children@, i as int) == Some(Seq::<PostInfoView>::empty()));
        assert(out@.map_values(|p: PostInfo| p@) + Seq::<PostInfoView>::empty() =~= out@.map_values(
            |p: PostInfo| p@,
        ));
    }
    Ok(out)
}

/// What one post-listing page holds, when the body has the expected shape:
/// the parsed children of `data.children`, and the cursor of `data.after`
/// when that field is a string.
pub open spec fn spec_parse_post_page(v: JsonValue) -> Option<
    (Seq<PostInfoView>, Option<Seq<char>>),
> {
    match v.spec_get("data"@) {
        None => None,
        Some(d) => match d.spec_get("children"@) {
            None => None,
            Some(ch) => match ch.spec_arr() {
                None => None,
                Some(children) => match spec_parse_post_infos(children, 0) {
                    None => None,
                    Some(ps) => Some((ps, spec_field_str(d, "after"@))),
                },
            },
        },
    }
}

/// Parse one page of the post listing: its items and the returned cursor. A
/// body without the listing shape is a malformed response; an absent or
/// non-string cursor field means the listing ends here.
pub fn parse_post_page(v: &JsonValue) -> (r: Result<ListingPage<PostInfo>, ApiError>)
    ensures
        match r {
            Ok(page) => spec_parse_post_page(*v) == Some(
                (page.items@.map_values(|p: PostInfo| p@), cursor_view(page.after)),
            ),
            Err(e) => spec_parse_post_page(*v) is None && e is MalformedResponse,
        },
{
    let d = match v.get("data") {
        Some(d) => d,
        None => {
            return Err(
                ApiError::MalformedResponse {
                    context: String::from_str("listing body without a data object"),
                },
            );
        },
    };
    let ch = match d.get("children") {
        Some(ch) => ch,
        None => {
            return Err(
                ApiError::MalformedResponse {
                    context: String::from_str("listing body without children"),
                },
            );
        },
    };
    let children = match ch.as_array() {
        Some(children) => children,
        None => {
            return Err(
                ApiError::MalformedResponse {
                    context: String::from_str("listing children are not an array"),
                },
            );
        },
    };
    let items = match parse_post_infos(children) {
        Ok(items) => items,
        Err(e) => {
            return Err(e);
        },
    };
    let after = match field_str(d, "after") {
        Some(s) => Some(s.clone()),
        None => None,
    };
    Ok(ListingPage { items, after })
}

} // verus!
