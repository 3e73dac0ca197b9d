//! The routes of the admin API.
use vstd::prelude::*;

verus! {

/// The HTTP methods the admin API answers.
#[derive(Clone, Copy, Debug, PartialEq, Eq)]
pub enum HttpMethod {
    Get,
    Post,
}

/// The operations of the admin API.
#[derive(Clone, Copy, Debug, PartialEq, Eq)]
pub enum AdminEndpoint {
    ListUsers,
    DeleteUser,
    Stats,
    ListLogs,
}

/// One route: requests with `method` on `path` go to `endpoint`.
#[derive(Clone, Debug)]
pub struct AdminRoute {
    pub path: String,
    pub method: HttpMethod,
    pub endpoint: AdminEndpoint,
}

fn route(path: &str, method: HttpMethod, endpoint: AdminEndpoint) -> (r: AdminRoute)
    ensures
        r.path@ == path@,
        r.method == method,
        r.endpoint == endpoint,
{
    AdminRoute { path: String::from_str(path), method, endpoint }
}

/// The admin API's routes, in the order they are registered.
pub fn admin_routes() -> (routes: Vec<AdminRoute>)
    ensures
        routes.len() == 4,
        routes[0].path@ == "/users"@ && routes[0].method == HttpMethod::Get
            && routes[0].endpoint == AdminEndpoint::ListUsers,
        routes[1].path@ == "/users/delete"@ && routes[1].method == HttpMethod::Post
            && routes[1].endpoint == AdminEndpoint::DeleteUser,
        routes[2].path@ == "/stats"@ && routes[2].method == HttpMethod::Get
            && routes[2].endpoint == AdminEndpoint::Stats,
        routes[3].path@ == "/logs"@ && routes[3].method == HttpMethod::Get
            && routes[3].endpoint == AdminEndpoint::ListLogs,
{
    let mut routes: Vec<AdminRoute> = Vec::new();
    routes.push(route("/users", HttpMethod::Get, AdminEndpoint::ListUsers));
    routes.push(route("/users/delete", HttpMethod::Post, AdminEndpoint::DeleteUser));
    routes.push(route("/stats", HttpMethod::Get, AdminEndpoint::Stats));
    routes.push(route("/logs", HttpMethod::Get, AdminEndpoint::ListLogs));
    routes
}

} // verus!
