//! The client-credentials grant: what is sent and what comes back.

use vstd::prelude::*;
use vstd::string::StringExecFns;

verus! {

/// The body of a client-credentials grant request.
#[derive(Debug)]
pub struct RequestParameters {
    pub grant_type: String,
    pub client_id: String,
    pub client_secret: String,
    pub audience: String,
}

/// An access token as the token endpoint grants it.
#[derive(Debug)]
pub struct Response {
    pub access_token: String,
    pub scope: Option<String>,
    pub expires_in: u64,
    pub token_type: String,
}

/// What a grant request says, as plain text.
pub struct Grant {
    pub grant_type: Seq<char>,
    pub client_id: Seq<char>,
    pub client_secret: Seq<char>,
    pub audience: Seq<char>,
}

/// What an access token says, as plain text.
pub struct AccessToken {
    pub token: Seq<char>,
    pub scope: Option<Seq<char>>,
    pub expires_in: u64,
    pub token_type: Seq<char>,
}

impl View for RequestParameters {
    type V = Grant;

    open spec fn view(&self) -> Grant {
        Grant {
            grant_type: self.grant_type@,
            client_id: self.client_id@,
            client_secret: self.client_secret@,
            audience: self.audience@,
        }
    }
}

impl View for Response {
    type V = AccessToken;

    open spec fn view(&self) -> AccessToken {
        AccessToken {
            token: self.access_token@,
            scope: self.scope.deep_view(),
            expires_in: self.expires_in,
            token_type: self.token_type@,
        }
    }
}

impl Clone for RequestParameters {
    fn clone(&self) -> (copy: Self)
        ensures
            copy@ == self@,
    {
        RequestParameters {
            grant_type: self.grant_type.clone(),
            client_id: self.client_id.clone(),
            client_secret: self.client_secret.clone(),
            audience: self.audience.clone(),
        }
    }
}

impl Clone for Response {
    fn clone(&self) -> (copy: Self)
        ensures
            copy@ == self@,
    {
        let scope = match &self.scope {
            Some(scope) => Some(scope.clone()),
            None => None,
        };
        Response {
            access_token: self.access_token.clone(),
            scope,
            expires_in: self.expires_in,
            token_type: self.token_type.clone(),
        }
    }
}

impl AccessToken {
    /// What a request authorizes itself with: the type of the token, a
    /// space, the token.
    pub open spec fn credential(self) -> Seq<char> {
        self.token_type + seq![' '] + self.token
    }
}

impl RequestParameters {
    /// The grant request of a client that authenticates as itself, for a
    /// token that is valid for `audience`.
    pub fn client_credentials(
        client_id: String,
        client_secret: String,
        audience: String,
    ) -> (params: RequestParameters)
        ensures
            params@ == (Grant {
                grant_type: "client_credentials"@,
                client_id: client_id@,
                client_secret: client_secret@,
                audience: audience@,
            }),
    {
        RequestParameters {
            grant_type: "client_credentials".to_owned(),
            client_id,
            client_secret,
            audience,
        }
    }
}

impl Response {
    /// The value of the `Authorization` header for this token.
    pub fn credential(&self) -> (text: String)
        ensures
            text@ == self@.credential(),
    {
        proof {
            reveal_strlit(" ");
            assert(" "@ == seq![' ']);
        }
        let mut text = self.token_type.clone();
        text.append(" ");
        text.append(self.access_token.as_str());
        text
    }
}

} // verus!
