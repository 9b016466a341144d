//! The verified side of the authenticated transport: the delete request and
//! its protected-id guard, the rate-limit configuration, the endpoint URLs,
//! and the url-encoded form of every request body.
use crate::comment::PostComment;
use crate::listing::cursor_view;
use crate::listing::Listed;
use crate::login::NetworkData;
use crate::post::FinalPost;
use crate::strings::contains_seq;
use crate::strings::str_contains;
use vstd::prelude::*;
use vstd::string::StringExecFns;

verus! {

/// The body of one deletion call.
#[derive(Debug, PartialEq, Eq)]
pub struct DeleteRequest {
    pub id: String,
    pub api_type: String,
}

impl DeleteRequest {
    /// A deletion of the item with the given fully-qualified id, answered in
    /// the json shape.
    pub fn new_json(id: &str) -> (r: DeleteRequest)
        ensures
            r.id@ == id@,
            r.api_type@ == "json"@,
    {
        DeleteRequest { id: String::from_str(id), api_type: String::from_str("json") }
    }
}

/// The deny-list of the deletion guard: a deletion whose id holds any entry
/// as a substring is not sent, and reports success without an outbound call.
pub struct ProtectedIds {
    pub ids: Vec<String>,
}

impl ProtectedIds {
    /// A guard over the given entries.
    pub fn new(ids: Vec<String>) -> (r: ProtectedIds)
        ensures
            r.ids == ids,
    {
        ProtectedIds { ids }
    }

    /// The id holds some entry of the deny-list as a substring.
    pub open spec fn spec_protected(self, id: Seq<char>) -> bool {
        exists|k: int| 0 <= k < self.ids@.len() && contains_seq(id, #[trigger] self.ids@[k]@)
    }

    /// Decide whether a deletion of the given id may be sent out.
    pub fn permits_delete(&self, id: &str) -> (r: bool)
        ensures
            r == !self.spec_protected(id@),
    {
        let mut k: usize = 0;
        while k < self.ids.len()
            invariant
                k <= self.ids@.len(),
                forall|m: int| 0 <= m < k ==> !contains_seq(id@, #[trigger] self.ids@[m]@),
            decreases self.ids@.len() - k,
        {
            if str_contains(id, self.ids[k].as_str()) {
                return false;
            }
            k = k + 1;
        }
        true
    }
}

/// The deletions a bulk erase issues: one request per matched item, in
/// listing order, each naming the item's stable fully-qualified id.
pub fn delete_requests_for<T: Listed>(items: &Vec<T>) -> (r: Vec<DeleteRequest>)
    ensures
        r@.len() == items@.len(),
        forall|i: int|
            0 <= i < r@.len() ==> (#[trigger] r@[i]).id@ == items@[i].key() && r@[i].api_type@
                == "json"@,
{
    let mut out: Vec<DeleteRequest> = Vec::new();
    let mut i: usize = 0;
    while i < items.len()
        invariant
            i <= items@.len(),
            out@.len() == i,
            forall|k: int|
                0 <= k < i ==> (#[trigger] out@[k]).id@ == items@[k].key() && out@[k].api_type@
                    == "json"@,
        decreases items@.len() - i,
    {
        out.push(DeleteRequest::new_json(items[i].name_ref().as_str()));
        i = i + 1;
    }
    out
}

/// The kinds of call the transport makes.
#[derive(Debug, PartialEq, Eq, Structural, Clone, Copy)]
pub enum CallKind {
    Get,
    Post,
    Delete,
}

/// The pauses the transport takes after a call, in milliseconds: a short one
/// after a read or a deletion, a long one after a content submission.
#[derive(Debug, PartialEq, Eq, Structural, Clone, Copy)]
pub struct RateLimits {
    pub read_delay_ms: u64,
    pub write_delay_ms: u64,
}

impl RateLimits {
    /// The platform defaults.
    pub fn defaults() -> (r: RateLimits)
        ensures
            r.read_delay_ms == 21,
            r.write_delay_ms == 30000,
    {
        RateLimits { read_delay_ms: 21, write_delay_ms: 30000 }
    }

    /// The pause owed after a call of the given kind.
    pub fn delay_after(&self, call: CallKind) -> (r: u64)
        ensures
            r == if call is Post {
                self.write_delay_ms
            } else {
                self.read_delay_ms
            },
    {
        match call {
            CallKind::Post => self.write_delay_ms,
            CallKind::Get => self.read_delay_ms,
            CallKind::Delete => self.read_delay_ms,
        }
    }
}

/// The URL of one page of a listing of the user's own items: the user's
/// path, the listing kind, the page-size cap, and the cursor when one is
/// active.
pub open spec fn spec_listing_url(
    base: Seq<char>,
    user_url: Seq<char>,
    kind: Seq<char>,
    after: Option<Seq<char>>,
) -> Seq<char> {
    base + user_url + kind + "?limit=1000"@ + (match after {
        Some(a) => "&after="@ + a,
        None => Seq::empty(),
    })
}

/// Build the URL of one listing page.
pub fn listing_url(base: &str, user_url: &str, kind: &str, after: &Option<String>) -> (r: String)
    ensures
        r@ == spec_listing_url(base@, user_url@, kind@, cursor_view(*after)),
{
    let mut url = String::from_str(base);
    url.append(user_url);
    url.append(kind);
    url.append("?limit=1000");
    match after {
        Some(a) => {
            url.append("&after=");
            url.append(a.as_str());
        },
        None => {
        },
    }
    proof {
        assert(url@ =~= spec_listing_url(base@, user_url@, kind@, cursor_view(*after)));
    }
    url
}

/// Build the URL a submission for the given community goes to.
pub fn submit_url(base: &str, subreddit: &str) -> (r: String)
    ensures
        r@ == base@ + "/r/"@ + subreddit@ + "/api/submit"@,
{
    let mut url = String::from_str(base);
    url.append("/r/");
    url.append(subreddit);
    url.append("/api/submit");
    proof {
        assert(url@ =~= base@ + "/r/"@ + subreddit@ + "/api/submit"@);
    }
    url
}

/// Build the URL a comment submission goes to.
pub fn comment_url(base: &str) -> (r: String)
    ensures
        r@ == base@ + "/api/comment"@,
{
    let mut url = String::from_str(base);
    url.append("/api/comment");
    url
}

/// Build the URL a deletion goes to.
pub fn delete_url(base: &str) -> (r: String)
    ensures
        r@ == base@ + "/api/del"@,
{
    let mut url = String::from_str(base);
    url.append("/api/del");
    url
}

/// Build the URL of the identity endpoint.
pub fn me_url(base: &str) -> (r: String)
    ensures
        r@ == base@ + "/api/v1/me"@,
{
    let mut url = String::from_str(base);
    url.append("/api/v1/me");
    url
}

/// Build the URL of the flair listing of a community.
pub fn flairs_url(base: &str, subreddit: &str) -> (r: String)
    ensures
        r@ == base@ + "/r/"@ + subreddit@ + "/api/link_flair_v2.json?raw_json=1"@,
{
    let mut url = String::from_str(base);
    url.append("/r/");
    url.append(subreddit);
    url.append("/api/link_flair_v2.json?raw_json=1");
    proof {
        assert(url@ =~= base@ + "/r/"@ + subreddit@ + "/api/link_flair_v2.json?raw_json=1"@);
    }
    url
}

/// The characters of a list of form pairs.
pub open spec fn pairs_view(v: Seq<(String, String)>) -> Seq<(Seq<char>, Seq<char>)> {
    v.map_values(|p: (String, String)| (p.0@, p.1@))
}

/// The characters a form value shows for a flag.
pub open spec fn spec_bool_str(b: bool) -> Seq<char> {
    if b {
        "true"@
    } else {
        "false"@
    }
}

/// The form value of a flag.
pub fn bool_str(b: bool) -> (r: &'static str)
    ensures
        r@ == spec_bool_str(b),
{
    if b {
        "true"
    } else {
        "false"
    }
}

/// The url-encoding of string pairs, as the encoding library computes it;
/// its value on given pairs is not restated here.
pub uninterp spec fn form_encoded_of(pairs: Seq<(Seq<char>, Seq<char>)>) -> Seq<char>;

/// Relies on serde_urlencoded::to_string: the encoding of a list of string
/// pairs depends on the pairs alone, and never fails for string keys and
/// values (its serializer accepts every string part).
#[verifier::external_body]
pub(crate) fn form_encode(pairs: &Vec<(String, String)>) -> (r: String)
    ensures
        r@ == form_encoded_of(pairs_view(pairs@)),
{
    serde_urlencoded::to_string(pairs).unwrap_or(String::new())
}

/// One form pair, with both parts owned.
fn pair(key: &str, value: String) -> (r: (String, String))
    ensures
        r.0@ == key@,
        r.1 == value,
{
    (String::from_str(key), value)
}

/// The form pairs of a deletion body, in wire order.
pub open spec fn spec_delete_pairs(d: DeleteRequest) -> Seq<(Seq<char>, Seq<char>)> {
    seq![("id"@, d.id@), ("api_type"@, d.api_type@)]
}

impl DeleteRequest {
    /// The form pairs of this deletion, in wire order.
    pub fn to_form_pairs(&self) -> (r: Vec<(String, String)>)
        ensures
            pairs_view(r@) == spec_delete_pairs(*self),
    {
        let mut v: Vec<(String, String)> = Vec::new();
        v.push(pair("id", self.id.clone()));
        v.push(pair("api_type", self.api_type.clone()));
        proof {
            assert(pairs_view(v@) =~= spec_delete_pairs(*self));
        }
        v
    }
}

/// The form pairs of a comment submission, in wire order.
pub open spec fn spec_comment_pairs(c: PostComment) -> Seq<(Seq<char>, Seq<char>)> {
    seq![
        ("return_rtjson"@, spec_bool_str(c.return_rtjson)),
        ("text"@, c.text@),
        ("thing_id"@, c.thing_id@),
    ]
}

impl PostComment {
    /// The form pairs of this comment submission, in wire order.
    pub fn to_form_pairs(&self) -> (r: Vec<(String, String)>)
        ensures
            pairs_view(r@) == spec_comment_pairs(*self),
    {
        let mut v: Vec<(String, String)> = Vec::new();
        v.push(pair("return_rtjson", String::from_str(bool_str(self.return_rtjson))));
        v.push(pair("text", self.text.clone()));
        v.push(pair("thing_id", self.thing_id.clone()));
        proof {
            assert(pairs_view(v@) =~= spec_comment_pairs(*self));
        }
        v
    }
}

/// The form pairs of a token exchange, in wire order.
pub open spec fn spec_token_request_pairs(d: NetworkData) -> Seq<(Seq<char>, Seq<char>)> {
    seq![("grant_type"@, d.grant_type@), ("code"@, d.code@), ("redirect_uri"@, d.redirect_uri@)]
}

impl NetworkData {
    /// The form pairs of this token exchange, in wire order.
    pub fn to_form_pairs(&self) -> (r: Vec<(String, String)>)
        ensures
            pairs_view(r@) == spec_token_request_pairs(*self),
    {
        let mut v: Vec<(String, String)> = Vec::new();
        v.push(pair("grant_type", self.grant_type.clone()));
        v.push(pair("code", self.code.clone()));
        v.push(pair("redirect_uri", self.redirect_uri.clone()));
        proof {
            assert(pairs_view(v@) =~= spec_token_request_pairs(*self));
        }
        v
    }
}

/// The form pairs of a submission, in wire order: the fixed fields in struct
/// order, with the optional flair fields and comment only when present.
pub open spec fn spec_submit_pairs(f: FinalPost) -> Seq<(Seq<char>, Seq<char>)> {
    seq![
        ("sr"@, f.sr@),
        ("resubmit"@, spec_bool_str(f.resubmit)),
        ("sendreplies"@, spec_bool_str(f.sendreplies)),
        ("title"@, f.title@),
        ("nsfw"@, spec_bool_str(f.nsfw)),
        ("spoiler"@, spec_bool_str(f.spoiler)),
        ("subreddit"@, f.subreddit@),
    ] + (match f.flair_id {
        Some(x) => seq![("flair_id"@, x@)],
        None => Seq::empty(),
    }) + (match f.flair_name {
        Some(x) => seq![("flair_name"@, x@)],
        None => Seq::empty(),
    }) + seq![("url"@, f.url@), ("kind"@, f.kind@)] + (match f.comment {
        Some(x) => seq![("comment"@, x@)],
        None => Seq::empty(),
    })
}

impl FinalPost {
    /// The form pairs of this submission, in wire order.
    pub fn to_form_pairs(&self) -> (r: Vec<(String, String)>)
        ensures
            pairs_view(r@) == spec_submit_pairs(*self),
    {
        let ghost head = seq![
            ("sr"@, self.sr@),
            ("resubmit"@, spec_bool_str(self.resubmit)),
            ("sendreplies"@, spec_bool_str(self.sendreplies)),
            ("title"@, self.title@),
            ("nsfw"@, spec_bool_str(self.nsfw)),
            ("spoiler"@, spec_bool_str(self.spoiler)),
            ("subreddit"@, self.subreddit@),
        ];
        let ghost with_flair_id = head + (match &self.flair_id {
            Some(x) => seq![("flair_id"@, x@)],
            None => Seq::empty(),
        });
        let ghost with_flair_name = with_flair_id + (match &self.flair_name {
            Some(x) => seq![("flair_name"@, x@)],
            None => Seq::empty(),
        });
        let ghost with_link = with_flair_name + seq![("url"@, self.url@), ("kind"@, self.kind@)];
        let mut v: Vec<(String, String)> = Vec::new();
        v.push(pair("sr", self.sr.clone()));
        v.push(pair("resubmit", String::from_str(bool_str(self.resubmit))));
        v.push(pair("sendreplies", String::from_str(bool_str(self.sendreplies))));
        v.push(pair("title", self.title.clone()));
        v.push(pair("nsfw", String::from_str(bool_str(self.nsfw))));
        v.push(pair("spoiler", String::from_str(bool_str(self.spoiler))));
        v.push(pair("subreddit", self.subreddit.clone()));
        proof {
            assert(pairs_view(v@) =~= head);
        }
        match &self.flair_id {
            Some(x) => {
                v.push(pair("flair_id", x.clone()));
                proof {
                    assert(pairs_view(v@) =~= with_flair_id);
                }
            },
            None => {
                proof {
                    assert(pairs_view(v@) =~= with_flair_id);
                }
            },
        }
        match &self.flair_name {
            Some(x) => {
                v.push(pair("flair_name", x.clone()));
                proof {
                    assert(pairs_view(v@) =~= with_flair_name);
                }
            },
            None => {
                proof {
                    assert(pairs_view(v@) =~= with_flair_name);
                }
            },
        }
        v.push(pair("url", self.url.clone()));
        v.push(pair("kind", self.kind.clone()));
        proof {
            assert(pairs_view(v@) =~= with_link);
        }
        match &self.comment {
            Some(x) => {
                v.push(pair("comment", x.clone()));
                proof {
                    assert(pairs_view(v@) =~= spec_submit_pairs(*self));
                }
            },
            None => {
                proof {
                    assert(pairs_view(v@) =~= spec_submit_pairs(*self));
                }
            },
        }
        v
    }
}

/// The url-encoded body of a deletion.
pub fn encoded_delete_body(req: &DeleteRequest) -> (r: String)
    ensures
        r@ == form_encoded_of(spec_delete_pairs(*req)),
{
    let pairs = req.to_form_pairs();
    form_encode(&pairs)
}

/// Decide one deletion: a protected id gives no outbound call at all, and
/// the call reports success; any other id gives the URL and encoded body of
/// the call to send.
pub fn delete_action(guard: &ProtectedIds, base: &str, req: &DeleteRequest) -> (r: Option<
    (String, String),
>)
    ensures
        guard.spec_protected(req.id@) <==> r is None,
        r matches Some(action) ==> action.0@ == base@ + "/api/del"@ && action.1@
            == form_encoded_of(spec_delete_pairs(*req)),
{
    if !guard.permits_delete(req.id.as_str()) {
        return None;
    }
    Some((delete_url(base), encoded_delete_body(req)))
}

/// The url-encoded body of a comment submission.
pub fn encoded_comment_body(c: &PostComment) -> (r: String)
    ensures
        r@ == form_encoded_of(spec_comment_pairs(*c)),
{
    let pairs = c.to_form_pairs();
    form_encode(&pairs)
}

/// The url-encoded body of a submission.
pub fn encoded_submit_body(f: &FinalPost) -> (r: String)
    ensures
        r@ == form_encoded_of(spec_submit_pairs(*f)),
{
    let pairs = f.to_form_pairs();
    form_encode(&pairs)
}

/// The url-encoded body of a token exchange.
pub fn encoded_token_request_body(d: &NetworkData) -> (r: String)
    ensures
        r@ == form_encoded_of(spec_token_request_pairs(*d)),
{
    let pairs = d.to_form_pairs();
    form_encode(&pairs)
}

} // verus!
