//! Request shapes of the role-based access control service.

use vstd::prelude::*;

verus! {

/// Defines a role with its permission grants.
#[derive(Clone, Debug)]
pub struct CreateRoleRequest {
    pub name: String,
    pub description: Option<String>,
    pub level: i32,
    pub permissions: Vec<String>,
}

/// Asks whether an action on a resource is permitted.
#[derive(Clone, Debug)]
pub struct PermissionCheck {
    pub resource: String,
    pub action: String,
}

} // verus!
