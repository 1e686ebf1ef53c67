//! The bucket access-control resource as the REST interface shapes it.

use vstd::prelude::*;

verus! {

/// One entry of a bucket's access-control list.
#[derive(Debug, Clone, PartialEq, Eq)]
pub struct BucketAclResource {
    /// Value: "storage#bucketAccessControl"
    pub kind: String,
    pub id: String,
    pub self_link: String,
    pub bucket: String,
    pub entity: String,
    pub role: String,
    pub email: Option<String>,
    pub entity_id: Option<String>,
    pub domain: Option<String>,
    pub project_team: Option<BucketAclProjectTeam>,
    pub etag: String,
}

/// The project team a bucket ACL entry may refer to.
#[derive(Debug, Clone, PartialEq, Eq)]
pub struct BucketAclProjectTeam {
    pub project_number: String,
    pub team: String,
}

} // verus!
