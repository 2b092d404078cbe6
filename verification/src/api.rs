//! The client-side picture of the HTTP API: the user representation the
//! backend serves, the request bodies for create and update, and the client
//! handle holding the backend's base URL. The transport itself (issuing the
//! requests) is outside the library; these types carry exactly the data that
//! crosses the wire.

use vstd::prelude::*;

verus! {

/// A user as the backend lists it to clients.
#[derive(Clone, Debug, PartialEq)]
pub struct User {
    pub id: i32,
    pub name: String,
    pub email: String,
}

/// The body of a create request: a transient user, no identifier yet.
#[derive(Clone, Debug)]
pub struct CreateUserRequest {
    pub name: String,
    pub email: String,
    pub password: String,
}

/// The body of an update request; `id` names the row to replace.
#[derive(Clone, Debug)]
pub struct UpdateUserRequest {
    pub id: i32,
    pub name: String,
    pub email: String,
    pub password: String,
}

/// A handle on the backend API: the base URL all endpoint paths extend.
#[derive(Clone, Debug)]
pub struct HttpUserApiClient {
    pub base_url: String,
}

impl HttpUserApiClient {
    /// A client against the default backend address.
    pub fn new() -> (c: HttpUserApiClient)
        ensures
            c.base_url@ == "http://127.0.0.1:8000/api"@,
    {
        HttpUserApiClient { base_url: "http://127.0.0.1:8000/api".to_owned() }
    }

    /// A client against the given base URL.
    pub fn with_base_url(base_url: String) -> (c: HttpUserApiClient)
        ensures
            c.base_url@ == base_url@,
    {
        HttpUserApiClient { base_url }
    }
}

impl Default for HttpUserApiClient {
    /// The default client targets the default backend address.
    fn default() -> (c: HttpUserApiClient)
        ensures
            c.base_url@ == "http://127.0.0.1:8000/api"@,
    {
        HttpUserApiClient::new()
    }
}

} // verus!
