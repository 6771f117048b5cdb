//! Bearer-token authentication of control-plane requests, and the routing
//! of runner connections.

use vstd::prelude::*;
use vstd::string::*;
use crate::errors::ApiError;
use crate::text::{
    ascii_lower, eq_ignore_ascii_case, has_prefix, split_on, str_equal, strip_prefix, trim,
    trim_of,
};

verus! {

/// Authentication settings of the control plane.
pub struct Auth {
    pub admin_token: String,
}

impl Default for Auth {
    fn default() -> (r: Auth)
        ensures
            r.admin_token@ == "admin"@,
    {
        Auth { admin_token: "admin".to_owned() }
    }
}

pub open spec fn pieces_view(v: Seq<&str>) -> Seq<Seq<char>> {
    v.map_values(|p: &str| p@)
}

/// The pieces of `s` between commas, in order.
pub fn split_commas(s: &str) -> (r: Vec<&str>)
    ensures
        pieces_view(r@) == split_on(s@, ','),
{
    let n = s.unicode_len();
    let mut pieces: Vec<&str> = Vec::new();
    let mut start: usize = 0;
    let mut i: usize = 0;
    assert(s@.take(0) =~= Seq::<char>::empty());
    assert(s@.subrange(0, 0) =~= Seq::<char>::empty());
    assert(split_on(Seq::<char>::empty(), ',') == seq![Seq::<char>::empty()]);
    assert(pieces_view(pieces@) =~= Seq::<Seq<char>>::empty());
    while i < n
        invariant
            n == s@.len(),
            0 <= start <= i <= n,
            pieces_view(pieces@).push(s@.subrange(start as int, i as int)) == split_on(
                s@.take(i as int),
                ',',
            ),
        decreases n - i,
    {
        let c = s.get_char(i);
        let ghost prev = split_on(s@.take(i as int), ',');
        let ghost old_pieces = pieces@;
        proof {
            assert(s@.take(i as int + 1).drop_last() =~= s@.take(i as int));
            assert(s@.take(i as int + 1).last() == c);
        }
        if c == ',' {
            let piece = s.substring_char(start, i);
            pieces.push(piece);
            start = i + 1;
            proof {
                assert(pieces@ == old_pieces.push(piece));
                assert(pieces_view(pieces@) =~= pieces_view(old_pieces).push(piece@));
                assert(s@.subrange(start as int, i as int + 1) =~= Seq::<char>::empty());
            }
        } else {
            proof {
                assert(s@.subrange(start as int, i as int + 1) =~= s@.subrange(start as int, i as int).push(c));
                assert(prev.len() >= 1);
                assert(pieces_view(pieces@).push(s@.subrange(start as int, i as int + 1)) =~= prev.update(
                    prev.len() - 1,
                    prev.last().push(c),
                ));
            }
        }
        i = i + 1;
    }
    let last = s.substring_char(start, n);
    pieces.push(last);
    proof {
        assert(s@.take(n as int) =~= s@);
        assert(pieces_view(pieces@) =~= pieces_view(pieces@.drop_last()).push(last@));
    }
    pieces
}

/// The token that one `Sec-WebSocket-Protocol` entry carries, if it is a
/// `rivet_token.<token>` entry.
pub open spec fn protocol_entry_token(p: Seq<char>) -> Option<Seq<char>> {
    let t = trim_of(p);
    if has_prefix(t, "rivet_token."@) {
        Some(t.skip("rivet_token."@.len() as int))
    } else {
        None
    }
}

/// The token of the first entry that carries one.
pub open spec fn first_protocol_token(entries: Seq<Seq<char>>) -> Option<Seq<char>>
    decreases entries.len(),
{
    if entries.len() == 0 {
        None
    } else {
        match first_protocol_token(entries.drop_last()) {
            Some(t) => Some(t),
            None => protocol_entry_token(entries.last()),
        }
    }
}

/// The token carried by a `Sec-WebSocket-Protocol` header value: the first
/// comma-separated entry of the form `rivet_token.<token>`, white space trimmed.
pub fn websocket_protocol_token(protocols: &str) -> (r: Option<&str>)
    ensures
        match r {
            Some(t) => first_protocol_token(split_on(protocols@, ',')) == Some(t@),
            None => first_protocol_token(split_on(protocols@, ',')) is None,
        },
{
    let entries = split_commas(protocols);
    let ghost ev = pieces_view(entries@);
    let mut i: usize = 0;
    while i < entries.len()
        invariant
            ev == pieces_view(entries@),
            ev == split_on(protocols@, ','),
            0 <= i <= entries@.len(),
            first_protocol_token(ev.take(i as int)) is None,
        decreases entries@.len() - i,
    {
        let entry = trim(entries[i]);
        proof {
            assert(ev.take(i as int + 1).drop_last() =~= ev.take(i as int));
            assert(ev.take(i as int + 1).last() == entries@[i as int]@);
        }
        match strip_prefix(entry, "rivet_token.") {
            Some(token) => {
                proof {
                    assert(ev.take(i as int + 1).len() > 0);
                    lemma_first_token_prefix(ev, i as int + 1);
                }
                return Some(token);
            },
            None => {},
        }
        i = i + 1;
    }
    proof {
        assert(ev.take(ev.len() as int) =~= ev);
    }
    None
}

/// Once a prefix of the entries holds a token, every longer prefix holds the same one.
proof fn lemma_first_token_prefix(entries: Seq<Seq<char>>, k: int)
    requires
        0 < k <= entries.len(),
        first_protocol_token(entries.take(k)) is Some,
    ensures
        first_protocol_token(entries) == first_protocol_token(entries.take(k)),
    decreases entries.len() - k,
{
    if k < entries.len() {
        assert(entries.take(k + 1).drop_last() =~= entries.take(k));
        lemma_first_token_prefix(entries, k + 1);
    } else {
        assert(entries.take(k) =~= entries);
    }
}

/// The token of an `Authorization: Bearer <token>` header value.
pub open spec fn bearer_token_spec(value: Seq<char>) -> Option<Seq<char>> {
    if has_prefix(value, "Bearer "@) {
        Some(value.skip("Bearer "@.len() as int))
    } else {
        None
    }
}

pub fn bearer_token(value: &str) -> (r: Option<&str>)
    ensures
        match r {
            Some(t) => bearer_token_spec(value@) == Some(t@),
            None => bearer_token_spec(value@) is None,
        },
{
    strip_prefix(value, "Bearer ")
}

/// The headers of an inbound request that routing reads.
pub struct RequestHeaders {
    pub upgrade: Option<String>,
    pub sec_websocket_protocol: Option<String>,
    pub authorization: Option<String>,
}

/// Whether the request asks for a WebSocket upgrade.
pub open spec fn is_websocket_spec(h: RequestHeaders) -> bool {
    match h.upgrade {
        Some(u) => u@.len() == "websocket"@.len() && forall|i: int|
            0 <= i < u@.len() ==> ascii_lower(#[trigger] u@[i]) == ascii_lower("websocket"@[i]),
        None => false,
    }
}

/// The token a request carries: from the WebSocket sub-protocols of an
/// upgrade, else from the bearer `Authorization` header.
pub open spec fn request_token(h: RequestHeaders) -> Option<Seq<char>> {
    if is_websocket_spec(h) {
        match h.sec_websocket_protocol {
            Some(p) => first_protocol_token(split_on(p@, ',')),
            None => None,
        }
    } else {
        match h.authorization {
            Some(a) => bearer_token_spec(a@),
            None => None,
        }
    }
}

/// Where routing sends a request.
#[derive(Debug, PartialEq, Eq, Structural)]
pub enum RoutingOutput {
    /// The runner tunnel's WebSocket endpoint.
    RunnerTunnel,
}

/// Routes a request for `target`: only `runner` is handled here. Where
/// authentication is configured the request must carry the admin token.
pub fn route_request(target: &str, headers: &RequestHeaders, auth: &Option<Auth>) -> (r: Result<
    Option<RoutingOutput>,
    ApiError,
>)
    ensures
        target@ != "runner"@ ==> r matches Ok(None),
        target@ == "runner"@ && auth is None ==> r matches Ok(Some(RoutingOutput::RunnerTunnel)),
        target@ == "runner"@ && auth is Some ==> match request_token(*headers) {
            None => r matches Err(ApiError::MissingHeader { .. }),
            Some(t) => if t == auth->Some_0.admin_token@ {
                r matches Ok(Some(RoutingOutput::RunnerTunnel))
            } else {
                r matches Err(ApiError::Forbidden)
            },
        },
{
    if !str_equal(target, "runner") {
        return Ok(None);
    }
    let cfg = match auth {
        None => {
            return Ok(Some(RoutingOutput::RunnerTunnel));
        },
        Some(a) => a,
    };
    let is_websocket = match &headers.upgrade {
        Some(u) => eq_ignore_ascii_case(u.as_str(), "websocket"),
        None => false,
    };
    let token = if is_websocket {
        match &headers.sec_websocket_protocol {
            Some(p) => websocket_protocol_token(p.as_str()),
            None => None,
        }
    } else {
        match &headers.authorization {
            Some(a) => bearer_token(a.as_str()),
            None => None,
        }
    };
    match token {
        None => {
            let header = if is_websocket {
                "`rivet_token.*` protocol in sec-websocket-protocol".to_owned()
            } else {
                "authorization".to_owned()
            };
            Err(ApiError::MissingHeader { header })
        },
        Some(t) => {
            if str_equal(t, cfg.admin_token.as_str()) {
                Ok(Some(RoutingOutput::RunnerTunnel))
            } else {
                Err(ApiError::Forbidden)
            }
        },
    }
}


} // verus!
