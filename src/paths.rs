//! Names of objects in the storage bucket and the URLs that serve them.
use vstd::prelude::*;
use vstd::string::*;

verus! {

/// Prefix of every publicly readable object URL.
pub open spec fn storage_host() -> Seq<char> {
    "https://storage.googleapis.com/"@
}

/// The public URL of `object` in `bucket`.
pub open spec fn public_url_spec(bucket: Seq<char>, object: Seq<char>) -> Seq<char> {
    storage_host() + bucket + "/"@ + object
}

/// The temporary object that holds the image of a pending binding.
pub open spec fn pending_object_spec(pending_id: Seq<char>) -> Seq<char> {
    "uploads/"@ + pending_id + ".jpg"@
}

/// Builds the public URL of an object; no network access is involved.
pub fn public_url(bucket: &str, object: &str) -> (r: String)
    ensures
        r@ == public_url_spec(bucket@, object@),
{
    let mut url = String::from_str("https://storage.googleapis.com/");
    url.append(bucket);
    url.append("/");
    url.append(object);
    url
}

/// The storage path `uploads/<id>.jpg` of a pending binding.
pub fn pending_object_path(pending_id: &str) -> (r: String)
    ensures
        r@ == pending_object_spec(pending_id@),
{
    let mut path = String::from_str("uploads/");
    path.append(pending_id);
    path.append(".jpg");
    path
}

} // verus!
