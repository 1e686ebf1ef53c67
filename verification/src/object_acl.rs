//! The object access-control resource as the REST interface shapes it.

use vstd::prelude::*;

verus! {

/// One entry of an object's access-control list.
#[derive(Debug, Clone, PartialEq, Eq)]
pub struct ObjectAclResource {
    /// Value: "storage#objectAccessControl"
    pub kind: Option<String>,
    pub entity: String,
    pub role: Option<String>,
    pub email: Option<String>,
    pub entity_id: Option<String>,
    pub domain: Option<String>,
    pub project_team: Option<ObjectAclProjectTeam>,
    pub etag: String,
}

/// The project team an object ACL entry may refer to.
#[derive(Debug, Clone, PartialEq, Eq)]
pub struct ObjectAclProjectTeam {
    pub project_number: String,
    pub team: String,
}

} // verus!
