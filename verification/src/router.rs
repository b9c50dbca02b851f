//! The route table: which handler serves which method and path.

use crate::text::same_text;
use vstd::prelude::*;
use vstd::string::*;

verus! {

/// The handlers of the service.
#[derive(Clone, Copy, Debug, PartialEq, Eq)]
pub enum Endpoint {
    ListUsers,
    GetUser,
    CreateUser,
    ListCards,
    CreateCard,
}

/// Where a request goes.
#[derive(Clone, Copy, Debug, PartialEq, Eq)]
pub enum Routing {
    /// The handler that serves it.
    Handler(Endpoint),
    /// The path is served, but not with this method.
    MethodNotAllowed,
    /// No route has this path.
    NotFound,
}

/// Whether `path` is `/users/` followed by one segment that is not empty.
pub open spec fn names_user(path: Seq<char>) -> bool {
    let prefix = "/users/"@;
    &&& path.len() > prefix.len()
    &&& path.subrange(0, prefix.len() as int) == prefix
    &&& forall|i: int| prefix.len() <= i < path.len() ==> path[i] != '/'
}

/// Whether a route bound to `GET` serves `method`: `HEAD` is served as `GET`.
pub open spec fn reads(method: Seq<char>) -> bool {
    method == "GET"@ || method == "HEAD"@
}

/// The route table.
///
/// | method | path | handler |
/// |---|---|---|
/// | `GET` | `/users` | list users |
/// | `POST` | `/users` | create user |
/// | `GET` | `/users/:id` | get user |
/// | `GET` | `/cards` | list cards |
/// | `POST` | `/cards` | create card |
///
/// Methods and paths are compared as they are written: no case folding, no
/// trailing slash, no decoding of escapes.
pub open spec fn routing(method: Seq<char>, path: Seq<char>) -> Routing {
    if path == "/users"@ {
        if reads(method) {
            Routing::Handler(Endpoint::ListUsers)
        } else if method == "POST"@ {
            Routing::Handler(Endpoint::CreateUser)
        } else {
            Routing::MethodNotAllowed
        }
    } else if path == "/cards"@ {
        if reads(method) {
            Routing::Handler(Endpoint::ListCards)
        } else if method == "POST"@ {
            Routing::Handler(Endpoint::CreateCard)
        } else {
            Routing::MethodNotAllowed
        }
    } else if names_user(path) {
        if reads(method) {
            Routing::Handler(Endpoint::GetUser)
        } else {
            Routing::MethodNotAllowed
        }
    } else {
        Routing::NotFound
    }
}

/// Finds the handler for a request from its method and the path of its
/// target.
pub fn route(method: &str, path: &str) -> (found: Routing)
    ensures
        found == routing(method@, path@),
{
    let reading = same_text(method, "GET") || same_text(method, "HEAD");
    let writing = same_text(method, "POST");
    if same_text(path, "/users") {
        if reading {
            Routing::Handler(Endpoint::ListUsers)
        } else if writing {
            Routing::Handler(Endpoint::CreateUser)
        } else {
            Routing::MethodNotAllowed
        }
    } else if same_text(path, "/cards") {
        if reading {
            Routing::Handler(Endpoint::ListCards)
        } else if writing {
            Routing::Handler(Endpoint::CreateCard)
        } else {
            Routing::MethodNotAllowed
        }
    } else if has_user_segment(path) {
        if reading {
            Routing::Handler(Endpoint::GetUser)
        } else {
            Routing::MethodNotAllowed
        }
    } else {
        Routing::NotFound
    }
}

fn has_user_segment(path: &str) -> (named: bool)
    ensures
        named == names_user(path@),
{
    proof {
        reveal_strlit("/users/");
    }
    let prefix = "/users/";
    let mut matched: bool = true;
    let mut count: usize = 0;
    for c in it: path.chars()
        invariant
            count == if it.index() < 8 { it.index() } else { 8 },
            it.seq() == path@,
            prefix@.len() == 7,
            matched == (forall|i: int|
                0 <= i < it.index() ==> if i < 7 {
                    path@[i] == prefix@[i]
                } else {
                    path@[i] != '/'
                }),
    {
        if count < 7 {
            if c != prefix.get_char(count) {
                matched = false;
            }
        } else if c == '/' {
            matched = false;
        }
        if count < 8 {
            count = count + 1;
        }
    }
    proof {
        if matched && count > 7 {
            assert(path@.subrange(0, 7) =~= prefix@);
        }
        if names_user(path@) {
            assert(forall|i: int| 0 <= i < 7 ==> path@[i] == path@.subrange(0, 7)[i]);
        }
    }
    matched && count > 7
}

} // verus!
