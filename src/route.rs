use vstd::prelude::*;
use vstd::string::*;

use crate::text::same_text;

verus! {

/// The request methods that the protocol distinguishes.
#[derive(Debug, Clone, Copy, PartialEq, Eq, Structural)]
pub enum Method {
    Get,
    Head,
    Put,
    Post,
    Delete,
    Other,
}

/// Where a request goes.
#[derive(Debug, Clone, Copy, PartialEq, Eq, Structural)]
pub enum Route {
    /// The browser front end.
    Index,
    /// The SPARQL query endpoint.
    Query,
    /// The SPARQL update endpoint.
    Update,
    /// The Graph Store endpoint or a graph under it.
    Store,
    NotFound,
    MethodNotAllowed,
}

/// Whether `path` lies in the store's namespace: it starts with `/store`.
pub open spec fn in_store_namespace(path: Seq<char>) -> bool {
    path.len() >= 6 && path.subrange(0, 6) == "/store"@
}

/// The endpoint of a request: `GET /`; `GET` or `POST /query`; `POST /update`;
/// and the five Graph Store methods on every path that starts with `/store`.
pub open spec fn route_of(method: Method, path: Seq<char>) -> Route {
    if path == "/"@ {
        if method == Method::Get {
            Route::Index
        } else {
            Route::MethodNotAllowed
        }
    } else if path == "/query"@ {
        if method == Method::Get || method == Method::Post {
            Route::Query
        } else {
            Route::MethodNotAllowed
        }
    } else if path == "/update"@ {
        if method == Method::Post {
            Route::Update
        } else {
            Route::MethodNotAllowed
        }
    } else if in_store_namespace(path) {
        if method == Method::Other {
            Route::MethodNotAllowed
        } else {
            Route::Store
        }
    } else {
        Route::NotFound
    }
}

fn starts_with_store(path: &str) -> (r: bool)
    ensures
        r == in_store_namespace(path@),
{
    if path.unicode_len() < 6 {
        return false;
    }
    same_text(path.substring_char(0, 6), "/store")
}

/// Routes a request by its method and path.
pub fn route(method: Method, path: &str) -> (r: Route)
    ensures
        r == route_of(method, path@),
{
    if same_text(path, "/") {
        if method == Method::Get {
            Route::Index
        } else {
            Route::MethodNotAllowed
        }
    } else if same_text(path, "/query") {
        if method == Method::Get || method == Method::Post {
            Route::Query
        } else {
            Route::MethodNotAllowed
        }
    } else if same_text(path, "/update") {
        if method == Method::Post {
            Route::Update
        } else {
            Route::MethodNotAllowed
        }
    } else if starts_with_store(path) {
        if method == Method::Other {
            Route::MethodNotAllowed
        } else {
            Route::Store
        }
    } else {
        Route::NotFound
    }
}

} // verus!
