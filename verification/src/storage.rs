//! The fixed Cloud Storage endpoints, the scopes requested for every
//! token, and the URI builder that the REST collaborators share.

use vstd::prelude::*;
use vstd::string::StringExecFns;
use vstd::string::StrSliceExecFns;

verus! {

/// The Cloud Storage REST endpoint.
pub open spec fn storage_endpoint_spec() -> Seq<char> {
    "https://storage.googleapis.com/storage/v1"@
}

/// The Cloud Storage REST endpoint.
pub fn storage_endpoint() -> (r: &'static str)
    ensures
        r@ == storage_endpoint_spec(),
{
    "https://storage.googleapis.com/storage/v1"
}

/// The slightly different endpoint Cloud Storage uses for uploads.
pub open spec fn upload_endpoint_spec() -> Seq<char> {
    "https://storage.googleapis.com/upload/storage/v1"@
}

/// The slightly different endpoint Cloud Storage uses for uploads.
pub fn upload_endpoint() -> (r: &'static str)
    ensures
        r@ == upload_endpoint_spec(),
{
    "https://storage.googleapis.com/upload/storage/v1"
}

/// The fixed pair of scope URIs requested for all tokens issued by a
/// client.
pub fn default_scopes() -> (r: Vec<&'static str>)
    ensures
        r@.len() == 2,
        r@[0]@ == "https://www.googleapis.com/auth/cloud-platform"@,
        r@[1]@ == "https://www.googleapis.com/auth/devstorage.full_control"@,
{
    let mut v: Vec<&'static str> = Vec::new();
    v.push("https://www.googleapis.com/auth/cloud-platform");
    v.push("https://www.googleapis.com/auth/devstorage.full_control");
    v
}

/// A path appended to the REST endpoint, with exactly one slash between
/// them whether or not the path brings its own.
pub open spec fn storage_uri_spec(path: Seq<char>) -> Seq<char> {
    if path.len() > 0 && path[0] == '/' {
        storage_endpoint_spec() + path
    } else {
        storage_endpoint_spec() + "/"@ + path
    }
}

/// Build a full request URI from a path relative to the REST endpoint.
pub fn storage_uri(path: &str) -> (r: String)
    ensures
        r@ == storage_uri_spec(path@),
{
    let mut r = storage_endpoint().to_owned();
    let has_leading_slash = if path.unicode_len() > 0 {
        path.get_char(0) == '/'
    } else {
        false
    };
    if !has_leading_slash {
        r.append("/");
    }
    r.append(path);
    r
}

/// The URI a bucket is addressed at.
pub open spec fn bucket_uri_spec(name: Seq<char>) -> Seq<char> {
    storage_endpoint_spec() + "/b/"@ + name
}

/// Build the URI a bucket is addressed at.
pub fn bucket_uri(name: &str) -> (r: String)
    ensures
        r@ == bucket_uri_spec(name@),
{
    let mut r = storage_endpoint().to_owned();
    r.append("/b/");
    r.append(name);
    r
}

/// The URI an object within a bucket is addressed at.
pub open spec fn object_uri_spec(bucket: Seq<char>, name: Seq<char>) -> Seq<char> {
    storage_endpoint_spec() + "/b/"@ + bucket + "/o/"@ + name
}

/// Build the URI an object within a bucket is addressed at.
pub fn object_uri(bucket: &str, name: &str) -> (r: String)
    ensures
        r@ == object_uri_spec(bucket@, name@),
{
    let mut r = storage_endpoint().to_owned();
    r.append("/b/");
    r.append(bucket);
    r.append("/o/");
    r.append(name);
    r
}

/// The URI new objects of a bucket are uploaded at.
pub open spec fn upload_uri_spec(bucket: Seq<char>) -> Seq<char> {
    upload_endpoint_spec() + "/b/"@ + bucket + "/o"@
}

/// Build the URI new objects of a bucket are uploaded at.
pub fn upload_uri(bucket: &str) -> (r: String)
    ensures
        r@ == upload_uri_spec(bucket@),
{
    let mut r = upload_endpoint().to_owned();
    r.append("/b/");
    r.append(bucket);
    r.append("/o");
    r
}

} // verus!
