//! Callback data of postbacks: `pending=<id>&target=<key>`, urlencoded.
use vstd::prelude::*;
use vstd::string::*;
use crate::registry::{find_pair, lookup_in, pairs_view};

verus! {

/// The name/value pairs of `application/x-www-form-urlencoded` text, in order.
pub uninterp spec fn form_decoded(data: Seq<char>) -> Seq<(Seq<char>, Seq<char>)>;

/// Relies on url's `form_urlencoded::parse(..).into_owned()`: the decoded
/// name/value pairs of the data in order; empty data has none.
#[verifier::external_body]
fn form_pairs(data: &str) -> (r: Vec<(String, String)>)
    ensures
        pairs_view(r@) == form_decoded(data@),
        data@.len() == 0 ==> r@.len() == 0,
{
    url::form_urlencoded::parse(data.as_bytes()).into_owned().collect()
}

/// The pending id and target key named by decoded pairs (the last pair of a
/// name counts); `None` where either is missing.
pub open spec fn postback_fields_spec(pairs: Seq<(Seq<char>, Seq<char>)>) -> Option<(Seq<char>, Seq<char>)> {
    match (lookup_in(pairs, "pending"@), lookup_in(pairs, "target"@)) {
        (Some(p), Some(t)) => Some((p, t)),
        _ => None,
    }
}

/// Picks the pending id and the target key out of decoded callback pairs.
pub fn postback_fields(pairs: &Vec<(String, String)>) -> (r: Option<(String, String)>)
    ensures
        match r {
            Some((p, t)) => postback_fields_spec(pairs_view(pairs@)) == Some((p@, t@)),
            None => postback_fields_spec(pairs_view(pairs@)) is None,
        },
{
    let pending = match find_pair(pairs, "pending") {
        Some(p) => p,
        None => return None,
    };
    let target = match find_pair(pairs, "target") {
        Some(t) => t,
        None => return None,
    };
    Some((pending, target))
}

/// Decodes callback data into its pending id and target key.
pub fn parse_postback(data: &str) -> (r: Option<(String, String)>)
    ensures
        match r {
            Some((p, t)) => postback_fields_spec(form_decoded(data@)) == Some((p@, t@)),
            None => postback_fields_spec(form_decoded(data@)) is None,
        },
{
    let pairs = form_pairs(data);
    postback_fields(&pairs)
}

/// The callback data that names a pending binding and a target key.
pub open spec fn callback_data_spec(pending_id: Seq<char>, key: Seq<char>) -> Seq<char> {
    "pending="@ + pending_id + "&target="@ + key
}

/// Builds the callback data `pending=<id>&target=<key>`.
pub fn callback_data(pending_id: &str, key: &str) -> (r: String)
    ensures
        r@ == callback_data_spec(pending_id@, key@),
{
    let mut data = String::from_str("pending=");
    data.append(pending_id);
    data.append("&target=");
    data.append(key);
    data
}

} // verus!
