//! The users endpoints.

use crate::management::Api;
use crate::request::{Method, Payload, Request};
use vstd::prelude::*;
use vstd::string::StringExecFns;

verus! {

/// The body of a request that assigns roles to a user.
pub struct AssignRolesToUserRequestParameters {
    pub roles: Vec<String>,
}

/// The path of the endpoint of the roles of the user `id`.
pub open spec fn user_roles_path(id: Seq<char>) -> Seq<char> {
    "/api/v2/users/"@ + id + "/roles"@
}

/// The signed requests of the users endpoints.
pub trait Users {
    fn assign_roles_to_user(
        &self,
        id: String,
        request: AssignRolesToUserRequestParameters,
    ) -> Option<Request<AssignRolesToUserRequestParameters>>;
}

impl Users for Api {
    fn assign_roles_to_user(
        &self,
        id: String,
        request: AssignRolesToUserRequestParameters,
    ) -> (call: Option<Request<AssignRolesToUserRequestParameters>>)
        ensures
            self.calls(call, Method::Post, user_roles_path(id@), Payload::Json(request)),
    {
        let mut path = "/api/v2/users/".to_owned();
        path.append(id.as_str());
        path.append("/roles");
        self.call(Method::Post, path.as_str(), Payload::Json(request))
    }
}

} // verus!
