//! The routes of the XHTTP endpoint and the replies they give.

use vstd::prelude::*;

verus! {

/// An HTTP reply as plain values.
pub struct HttpReply {
    pub status: u16,
    pub headers: Vec<(String, String)>,
    pub body: String,
}

/// The handler behind a route.
#[derive(PartialEq, Eq, Structural, Clone, Copy, Debug)]
pub enum XhttpRoute {
    /// Announces the server and the protocols it supports.
    Banner,
}

/// Status, headers and body of a reply, as texts.
pub open spec fn reply_view(reply: HttpReply) -> (u16, Seq<(Seq<char>, Seq<char>)>, Seq<char>) {
    (reply.status, reply.headers@.map_values(|h: (String, String)| (h.0@, h.1@)), reply.body@)
}

/// The reply of a route's handler.
pub open spec fn handler_reply(route: XhttpRoute) -> (u16, Seq<(Seq<char>, Seq<char>)>, Seq<char>) {
    match route {
        XhttpRoute::Banner => (
            200,
            seq![("X-Status"@, "Multi-Protocol"@), ("X-Supported"@, "SSL, SSH, WebSocket, XHTTP"@)],
            "BSProxy Multi-Protocol Server"@,
        ),
    }
}

/// The reply to a path without a route.
pub open spec fn not_found_reply() -> (u16, Seq<(Seq<char>, Seq<char>)>, Seq<char>) {
    (404, Seq::empty(), "Route not found"@)
}

/// The handler routed from `path` in `routes`, looking from position `i`.
pub open spec fn route_of(routes: Seq<(String, XhttpRoute)>, path: Seq<char>, i: nat) -> Option<XhttpRoute>
    decreases routes.len() - i,
{
    if i >= routes.len() {
        None
    } else if routes[i as int].0@ == path {
        Some(routes[i as int].1)
    } else {
        route_of(routes, path, i + 1)
    }
}

/// The XHTTP endpoint: a table from request paths to handlers.
pub struct XHTTPHandler {
    routes: Vec<(String, XhttpRoute)>,
}

impl XhttpRoute {
    /// The reply this handler gives.
    pub fn respond(&self) -> (reply: HttpReply)
        ensures
            reply_view(reply) == handler_reply(*self),
    {
        match self {
            XhttpRoute::Banner => {
                let headers = vec![
                    ("X-Status".to_owned(), "Multi-Protocol".to_owned()),
                    ("X-Supported".to_owned(), "SSL, SSH, WebSocket, XHTTP".to_owned()),
                ];
                let reply = HttpReply {
                    status: 200,
                    headers,
                    body: "BSProxy Multi-Protocol Server".to_owned(),
                };
                assert(reply_view(reply).1 =~= handler_reply(*self).1);
                reply
            },
        }
    }
}

impl XHTTPHandler {
    /// The routes, in order.
    pub closed spec fn routes(&self) -> Seq<(String, XhttpRoute)> {
        self.routes@
    }

    /// The endpoint with its one route: `/` to the banner.
    pub fn new() -> (handler: Self)
        ensures
            handler.routes().len() == 1,
            handler.routes()[0].0@ == "/"@,
            handler.routes()[0].1 == XhttpRoute::Banner,
    {
        XHTTPHandler { routes: vec![("/".to_owned(), XhttpRoute::Banner)] }
    }

    /// The reply to a request for `path`: the reply of its route's handler,
    /// or `404 Route not found` when no route matches.
    pub fn reply_to(&self, path: &str) -> (reply: HttpReply)
        ensures
            reply_view(reply) == (match route_of(self.routes(), path@, 0) {
                Some(route) => handler_reply(route),
                None => not_found_reply(),
            }),
    {
        let wanted = path.to_owned();
        let mut i: usize = 0;
        while i < self.routes.len()
            invariant
                i <= self.routes@.len(),
                wanted@ == path@,
                route_of(self.routes@, path@, i as nat) == route_of(self.routes@, path@, 0),
            decreases self.routes@.len() - i,
        {
            if self.routes[i].0 == wanted {
                return self.routes[i].1.respond();
            }
            i = i + 1;
        }
        let reply = HttpReply { status: 404, headers: Vec::new(), body: "Route not found".to_owned() };
        assert(reply_view(reply).1 =~= not_found_reply().1);
        reply
    }
}

/// The endpoint answers `/` with the banner.
pub proof fn root_is_routed(handler: XHTTPHandler)
    requires
        handler.routes().len() == 1,
        handler.routes()[0].0@ == "/"@,
        handler.routes()[0].1 == XhttpRoute::Banner,
    ensures
        route_of(handler.routes(), "/"@, 0) == Some(XhttpRoute::Banner),
        forall|path: Seq<char>| path != "/"@ ==> route_of(handler.routes(), path, 0) is None,
{
    assert forall|path: Seq<char>| path != "/"@ implies route_of(handler.routes(), path, 0) is None by {
        assert(route_of(handler.routes(), path, 1) is None);
    }
}

} // verus!
