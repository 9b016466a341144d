//! Selectable link flairs of a community, and the parsing of the flair
//! endpoint's response body.
use crate::json::field_str;
use crate::json::spec_field_str;
use crate::json::JsonValue;
use vstd::prelude::*;
use vstd::string::StringExecFns;

verus! {

/// One selectable flair of a community.
#[derive(Debug, PartialEq, Eq)]
pub struct FlairInfo {
    pub sub_reddit: String,
    pub text: String,
    pub id: String,
}

/// A string field of a flair entry, or nothing when the field is absent or
/// not a string.
pub open spec fn spec_flair_field(el: JsonValue, key: Seq<char>) -> Seq<char> {
    match spec_field_str(el, key) {
        Some(t) => t,
        None => Seq::empty(),
    }
}

/// Parse the flair endpoint's body for one community: an array gives one
/// flair per element, any other body gives none.
pub fn parse_flairs(subreddit: &str, v: &JsonValue) -> (r: Vec<FlairInfo>)
    ensures
        match v.spec_arr() {
            Some(els) => {
                &&& r@.len() == els.len()
                &&& forall|i: int|
                    0 <= i < r@.len() ==> {
                        &&& (#[trigger] r@[i]).sub_reddit@ == subreddit@
                        &&& r@[i].text@ == spec_flair_field(els[i], "text"@)
                        &&& r@[i].id@ == spec_flair_field(els[i], "id"@)
                    }
            },
            None => r@.len() == 0,
        },
{
    let els = match v.as_array() {
        Some(els) => els,
        None => {
            return Vec::new();
        },
    };
    let mut out: Vec<FlairInfo> = Vec::new();
    let mut i: usize = 0;
    while i < els.len()
        invariant
            i <= els@.len(),
            out@.len() == i,
            v.spec_arr() == Some(els@),
            forall|k: int|
                0 <= k < i ==> {
                    &&& (#[trigger] out@[k]).sub_reddit@ == subreddit@
                    &&& out@[k].text@ == spec_flair_field(els@[k], "text"@)
                    &&& out@[k].id@ == spec_flair_field(els@[k], "id"@)
                },
        decreases els@.len() - i,
    {
        let text = match field_str(&els[i], "text") {
            Some(s) => s.clone(),
            None => String::new(),
        };
        let id = match field_str(&els[i], "id") {
            Some(s) => s.clone(),
            None => String::new(),
        };
        out.push(FlairInfo { sub_reddit: String::from_str(subreddit), text, id });
        i = i + 1;
    }
    out
}

} // verus!
