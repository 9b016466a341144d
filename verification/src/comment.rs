//! Comments of the authenticated user: the record one listing entry
//! deserializes to, and the verified parsing of one listing page.
use crate::errors::ApiError;
use crate::json::spec_field_str;
use crate::json::spec_field_u64;
use crate::json::field_str;
use crate::json::field_u64;
use crate::json::JsonValue;
use crate::listing::cursor_view;
use crate::listing::Listed;
use crate::listing::ListingPage;
use vstd::prelude::*;
use vstd::string::StringExecFns;

verus! {

/// One comment as a listing returns it.
#[derive(Debug, PartialEq, Eq)]
pub struct Comment {
    pub id: String,
    pub name: String,
    pub body: String,
    pub upvotes: u64,
    pub subreddit: String,
}

/// The mathematical content of a `Comment`.
pub struct CommentView {
    pub id: Seq<char>,
    pub name: Seq<char>,
    pub body: Seq<char>,
    pub upvotes: u64,
    pub subreddit: Seq<char>,
}

impl View for Comment {
    type V = CommentView;

    open spec fn view(&self) -> CommentView {
        CommentView {
            id: self.id@,
            name: self.name@,
            body: self.body@,
            upvotes: self.upvotes,
            subreddit: self.subreddit@,
        }
    }
}

impl Listed for Comment {
    open spec fn key(self) -> Seq<char> {
        self.name@
    }

    open spec fn ups(self) -> u64 {
        self.upvotes
    }

    open spec fn sub(self) -> Seq<char> {
        self.subreddit@
    }

    fn name_ref(&self) -> (r: &String) {
        &self.name
    }

    fn upvote_count(&self) -> (r: u64) {
        self.upvotes
    }

    fn subreddit_ref(&self) -> (r: &String) {
        &self.subreddit
    }
}

/// The wire shape of one comment submission.
#[derive(Debug, PartialEq, Eq)]
pub struct PostComment {
    pub return_rtjson: bool,
    pub text: String,
    pub thing_id: String,
}

/// Build a comment submission: the created post's short id becomes a
/// fully-qualified thing id by the post type marker prefix, and no rich text
/// is asked back.
pub fn comment_request(comment: String, post_id: &str) -> (r: PostComment)
    ensures
        !r.return_rtjson,
        r.text == comment,
        r.thing_id@ == "t3_"@ + post_id@,
{
    let mut thing_id = String::from_str("t3_");
    thing_id.append(post_id);
    PostComment { return_rtjson: false, text: comment, thing_id }
}

/// The comment one child entry of a listing page holds, when the entry has
/// the expected shape: a `data` object with `id`, `name`, `body`, `ups` and
/// `subreddit` fields of the right kinds.
pub open spec fn spec_parse_comment(v: JsonValue) -> Option<CommentView> {
    match v.spec_get("data"@) {
        None => None,
        Some(d) => match spec_field_str(d, "id"@) {
            None => None,
            Some(id) => match spec_field_str(d, "name"@) {
                None => None,
                Some(name) => match spec_field_str(d, "body"@) {
                    None => None,
                    Some(body) => match spec_field_u64(d, "ups"@) {
                        None => None,
                        Some(ups) => match spec_field_str(d, "subreddit"@) {
                            None => None,
                            Some(sub) => Some(
                                CommentView {
                                    id: id,
                                    name: name,
                                    body: body,
                                    upvotes: ups,
                                    subreddit: sub,
                                },
                            ),
                        },
                    },
                },
            },
        },
    }
}

/// Parse one child entry of a comment listing; a missing or ill-typed field
/// is a malformed response.
pub fn parse_comment(v: &JsonValue) -> (r: Result<Comment, ApiError>)
    ensures
        match r {
            Ok(c) => spec_parse_comment(*v) == Some(c@),
            Err(e) => spec_parse_comment(*v) is None && e is MalformedResponse,
        },
{
    let d = match v.get("data") {
        Some(d) => d,
        None => {
            return Err(
                ApiError::MalformedResponse {
                    context: String::from_str("comment entry without a data object"),
                },
            );
        },
    };
    let id = match field_str(d, "id") {
        Some(s) => s.clone(),
        None => {
            return Err(
                ApiError::MalformedResponse {
                    context: String::from_str("comment entry without an id"),
                },
            );
        },
    };
    let name = match field_str(d, "name") {
        Some(s) => s.clone(),
        None => {
            return Err(
                ApiError::MalformedResponse {
                    context: String::from_str("comment entry without a name"),
                },
            );
        },
    };
    let body = match field_str(d, "body") {
        Some(s) => s.clone(),
        None => {
            return Err(
                ApiError::MalformedResponse {
                    context: String::from_str("comment entry without a body"),
                },
            );
        },
    };
    let upvotes = match field_u64(d, "ups") {
        Some(n) => n,
        None => {
            return Err(
                ApiError::MalformedResponse {
                    context: String::from_str("comment entry without an upvote count"),
                },
            );
        },
    };
    let subreddit = match field_str(d, "subreddit") {
        Some(s) => s.clone(),
        None => {
            return Err(
                ApiError::MalformedResponse {
                    context: String::from_str("comment entry without a subreddit"),
                },
            );
        },
    };
    Ok(Comment { id, name, body, upvotes, subreddit })
}

/// The comments of the child entries from position `i` on; any entry of the
/// wrong shape spoils the whole page.
pub open spec fn spec_parse_comments(items: Seq<JsonValue>, i: int) -> Option<Seq<CommentView>>
    decreases items.len() - i,
{
    if i >= items.len() {
        Some(Seq::empty())
    } else {
        match spec_parse_comment(items[i]) {
            None => None,
            Some(c) => match spec_parse_comments(items, i + 1) {
                None => None,
                Some(rest) => Some(seq![c] + rest),
            },
        }
    }
}

/// Parse every child entry of a page, in order.
pub fn parse_comments(children: &Vec<JsonValue>) -> (r: Result<Vec<Comment>, ApiError>)
    ensures
        match r {
            Ok(cs) => spec_parse_comments(children@, 0) == Some(
                cs@.map_values(|c: Comment| c@),
            ),
            Err(e) => spec_parse_comments(children@, 0) is None && e is MalformedResponse,
        },
{
    let mut out: Vec<Comment> = Vec::new();
    let mut i: usize = 0;
    proof {
        assert(out@.map_values(|c: Comment| c@) =~= Seq::<CommentView>::empty());
    }
    while i < children.len()
        invariant
            i <= children@.len(),
            match spec_parse_comments(children@, i as int) {
                Some(rest) => spec_parse_comments(children@, 0) == Some(
                    out@.map_values(|c: Comment| c@) + rest,
                ),
                None => spec_parse_comments(children@, 0) is None,
            },
        decreases children@.len() - i,
    {
        let ghost pre_out = out@;
        let parsed = parse_comment(&children[i]);
        match parsed {
            Ok(c) => {
                proof {
                    assert(spec_parse_comment(children@[i as int]) == Some(c@));
                    match spec_parse_comments(children@, i as int + 1) {
                        Some(rest2) => {
                            assert(spec_parse_comments(children@, i as int) == Some(
                                seq![c@] + rest2,
                            ));
                            assert((pre_out.push(c)).map_values(|x: Comment| x@)
                                =~= pre_out.map_values(|x: Comment| x@) + seq![c@]);
                            assert(pre_out.map_values(|x: Comment| x@) + (seq![c@] + rest2)
                                =~= (pre_out.map_values(|x: Comment| x@) + seq![c@]) + rest2);
                        },
                        None => {
                            assert(spec_parse_comments(children@, i as int) is None);
                        },
                    }
                }
                out.push(c);
            },
            Err(e) => {
                proof {
                    assert(spec_parse_comments(children@, i as int) is None);
                }
                return Err(e);
            },
        }
        i = i + 1;
    }
    proof {
        assert(spec_parse_comments(children@, i as int) == Some(Seq::<CommentView>::empty()));
        assert(out@.map_values(|c: Comment| c@) + Seq::<CommentView>::empty() =~= out@.map_values(
            |c: Comment| c@,
        ));
    }
    Ok(out)
}

/// What one listing page holds, when the body has the expected shape: the
/// parsed children of `data.children`, and the cursor of `data.after` when
/// that field is a string.
pub open spec fn spec_parse_comment_page(v: JsonValue) -> Option<
    (Seq<CommentView>, Option<Seq<char>>),
> {
    match v.spec_get("data"@) {
        None => None,
        Some(d) => match d.spec_get("children"@) {
            None => None,
            Some(ch) => match ch.spec_arr() {
                None => None,
                Some(children) => match spec_parse_comments(children, 0) {
                    None => None,
                    Some(cs) => Some((cs, spec_field_str(d, "after"@))),
                },
            },
        },
    }
}

/// Parse one page of the comment listing: its items and the returned cursor.
/// A body without the listing shape is a malformed response; an absent or
/// non-string cursor field means the listing ends here.
pub fn parse_comment_page(v: &JsonValue) -> (r: Result<ListingPage<Comment>, ApiError>)
    ensures
        match r {
            Ok(page) => spec_parse_comment_page(*v) == Some(
                (page.items@.map_values(|c: Comment| c@), cursor_view(page.after)),
            ),
            Err(e) => spec_parse_comment_page(*v) is None && e is MalformedResponse,
        },
{
    let d = match v.get("data") {
        Some(d) => d,
        None => {
            return Err(
                ApiError::MalformedResponse {
                    context: String::from_str("listing body without a data object"),
                },
            );
        },
    };
    let ch = match d.get("children") {
        Some(ch) => ch,
        None => {
            return Err(
                ApiError::MalformedResponse {
                    context: String::from_str("listing body without children"),
                },
            );
        },
    };
    let children = match ch.as_array() {
        Some(children) => children,
        None => {
            return Err(
                ApiError::MalformedResponse {
                    context: String::from_str("listing children are not an array"),
                },
            );
        },
    };
    let items = match parse_comments(children) {
        Ok(items) => items,
        Err(e) => {
            return Err(e);
        },
    };
    let after = match field_str(d, "after") {
        Some(s) => Some(s.clone()),
        None => None,
    };
    Ok(ListingPage { items, after })
}

} // verus!
