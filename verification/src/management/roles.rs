//! The roles endpoints.

use crate::management::Api;
use crate::request::{Method, Payload, Request};
use vstd::prelude::*;
use vstd::string::StringExecFns;

verus! {

/// The query of a listing of roles.
pub struct ListRolesRequestParameters {
    pub per_page: Option<u16>,
    pub page: Option<u16>,
    pub include_totals: Option<bool>,
    pub name_filter: Option<String>,
}

/// The body of a request that creates a role.
pub struct CreateRoleRequestParameters {
    pub name: String,
    pub description: String,
}

/// The body of a request that updates a role.
pub struct UpdateRoleRequestParameters {
    pub name: Option<String>,
    pub description: Option<String>,
}

/// The body of a request that assigns users to a role.
pub struct AssignUsersToRoleRequestParameters {
    pub users: Vec<String>,
}

/// The path of the endpoint of all roles.
pub open spec fn roles_path() -> Seq<char> {
    "/api/v2/roles"@
}

/// The path of the endpoint of the role `id`.
pub open spec fn role_path(id: Seq<char>) -> Seq<char> {
    "/api/v2/roles/"@ + id
}

/// The path of the endpoint of the users of the role `id`.
pub open spec fn role_users_path(id: Seq<char>) -> Seq<char> {
    "/api/v2/roles/"@ + id + "/users"@
}

/// The signed requests of the roles endpoints.
pub trait Roles {
    fn list_roles(
        &self,
        request: ListRolesRequestParameters,
    ) -> Option<Request<ListRolesRequestParameters>>;

    fn create_role(
        &self,
        request: CreateRoleRequestParameters,
    ) -> Option<Request<CreateRoleRequestParameters>>;

    fn get_role(&self, id: String) -> Option<Request<()>>;

    fn delete_role(&self, id: String) -> Option<Request<()>>;

    fn update_role(
        &self,
        id: String,
        request: UpdateRoleRequestParameters,
    ) -> Option<Request<UpdateRoleRequestParameters>>;

    fn assign_users_to_role(
        &self,
        id: String,
        request: AssignUsersToRoleRequestParameters,
    ) -> Option<Request<AssignUsersToRoleRequestParameters>>;
}

fn role_endpoint(id: &str) -> (path: String)
    ensures
        path@ == role_path(id@),
{
    let mut path = "/api/v2/roles/".to_owned();
    path.append(id);
    path
}

impl Roles for Api {
    fn list_roles(
        &self,
        request: ListRolesRequestParameters,
    ) -> (call: Option<Request<ListRolesRequestParameters>>)
        ensures
            self.calls(call, Method::Get, roles_path(), Payload::Query(request)),
    {
        self.call(Method::Get, "/api/v2/roles", Payload::Query(request))
    }

    fn create_role(
        &self,
        request: CreateRoleRequestParameters,
    ) -> (call: Option<Request<CreateRoleRequestParameters>>)
        ensures
            self.calls(call, Method::Post, roles_path(), Payload::Json(request)),
    {
        self.call(Method::Post, "/api/v2/roles", Payload::Json(request))
    }

    fn get_role(&self, id: String) -> (call: Option<Request<()>>)
        ensures
            self.calls(call, Method::Get, role_path(id@), Payload::Empty),
    {
        let path = role_endpoint(id.as_str());
        self.call(Method::Get, path.as_str(), Payload::Empty)
    }

    fn delete_role(&self, id: String) -> (call: Option<Request<()>>)
        ensures
            self.calls(call, Method::Delete, role_path(id@), Payload::Empty),
    {
        let path = role_endpoint(id.as_str());
        self.call(Method::Delete, path.as_str(), Payload::Empty)
    }

    fn update_role(
        &self,
        id: String,
        request: UpdateRoleRequestParameters,
    ) -> (call: Option<Request<UpdateRoleRequestParameters>>)
        ensures
            self.calls(call, Method::Patch, role_path(id@), Payload::Json(request)),
    {
        let path = role_endpoint(id.as_str());
        self.call(Method::Patch, path.as_str(), Payload::Json(request))
    }

    fn assign_users_to_role(
        &self,
        id: String,
        request: AssignUsersToRoleRequestParameters,
    ) -> (call: Option<Request<AssignUsersToRoleRequestParameters>>)
        ensures
            self.calls(call, Method::Post, role_users_path(id@), Payload::Json(request)),
    {
        let mut path = role_endpoint(id.as_str());
        path.append("/users");
        self.call(Method::Post, path.as_str(), Payload::Json(request))
    }
}

} // verus!
