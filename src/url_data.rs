//! The parameters of a runner's connection URL.

use vstd::prelude::*;
use crate::errors::WsError;
use crate::text::{parse_u16, parse_u16_spec, str_equal};

verus! {

/// What `url` makes of the connection path `path`: `None` where
/// `ws://placeholder/<path>` is not a valid URL, else the decoded name and
/// value of each pair of its query, in order.
pub uninterp spec fn connection_query_pairs(path: Seq<char>) -> Option<Seq<(Seq<char>, Seq<char>)>>;

pub open spec fn pairs_view(v: Seq<(String, String)>) -> Seq<(Seq<char>, Seq<char>)> {
    v.map_values(|p: (String, String)| (p.0@, p.1@))
}

/// Relies on `url::Url::parse`, applied to `ws://placeholder/<path>`, and on
/// `Url::query_pairs`, which decodes the query into name and value pairs.
#[verifier::external_body]
fn query_pairs_of_path(path: &str) -> (r: Option<Vec<(String, String)>>)
    ensures
        match r {
            None => connection_query_pairs(path@) is None,
            Some(v) => connection_query_pairs(path@) == Some(pairs_view(v@)),
        },
{
    match url::Url::parse(&format!("ws://placeholder/{path}")) {
        Ok(u) => Some(u.query_pairs().map(|(n, v)| (n.into_owned(), v.into_owned())).collect()),
        Err(_) => None,
    }
}

/// The value of the first pair named `name`.
pub open spec fn find_param(pairs: Seq<(Seq<char>, Seq<char>)>, name: Seq<char>) -> Option<Seq<char>>
    decreases pairs.len(),
{
    if pairs.len() == 0 {
        None
    } else {
        match find_param(pairs.drop_last(), name) {
            Some(v) => Some(v),
            None => if pairs.last().0 == name {
                Some(pairs.last().1)
            } else {
                None
            },
        }
    }
}

/// The three mandatory parameters of a runner's connection URL.
pub struct UrlData {
    pub protocol_version: u16,
    pub namespace: String,
    pub runner_key: String,
}

/// The connection parameters that a query holds, where it holds all three and
/// the protocol version is a number.
pub open spec fn url_data_spec(pairs: Seq<(Seq<char>, Seq<char>)>) -> Option<(u16, Seq<char>, Seq<char>)> {
    match (find_param(pairs, "protocol_version"@), find_param(pairs, "namespace"@), find_param(pairs, "runner_key"@)) {
        (Some(v), Some(ns), Some(key)) => match parse_u16_spec(v) {
            Some(n) => Some((n, ns, key)),
            None => None,
        },
        _ => None,
    }
}

fn find_pair(pairs: &Vec<(String, String)>, name: &str) -> (r: Option<String>)
    ensures
        match r {
            Some(v) => find_param(pairs_view(pairs@), name@) == Some(v@),
            None => find_param(pairs_view(pairs@), name@) is None,
        },
{
    let ghost pv = pairs_view(pairs@);
    let mut i: usize = 0;
    while i < pairs.len()
        invariant
            pv == pairs_view(pairs@),
            0 <= i <= pairs@.len(),
            find_param(pv.take(i as int), name@) is None,
        decreases pairs@.len() - i,
    {
        proof {
            assert(pv.take(i as int + 1).drop_last() =~= pv.take(i as int));
            assert(pv.take(i as int + 1).last() == (pairs@[i as int].0@, pairs@[i as int].1@));
        }
        if str_equal(pairs[i].0.as_str(), name) {
            proof {
                lemma_find_param_prefix(pv, i as int + 1, name@);
            }
            return Some(pairs[i].1.clone());
        }
        i = i + 1;
    }
    proof {
        assert(pv.take(pv.len() as int) =~= pv);
    }
    None
}

/// Once a prefix of the pairs holds the name, every longer prefix finds the same value.
proof fn lemma_find_param_prefix(pairs: Seq<(Seq<char>, Seq<char>)>, k: int, name: Seq<char>)
    requires
        0 < k <= pairs.len(),
        find_param(pairs.take(k), name) is Some,
    ensures
        find_param(pairs, name) == find_param(pairs.take(k), name),
    decreases pairs.len() - k,
{
    if k < pairs.len() {
        assert(pairs.take(k + 1).drop_last() =~= pairs.take(k));
        lemma_find_param_prefix(pairs, k + 1, name);
    } else {
        assert(pairs.take(k) =~= pairs);
    }
}

/// The connection parameters of a decoded query: `protocol_version`,
/// `namespace` and `runner_key`, the first pair of each name. A missing
/// parameter, or a protocol version that is not a `u16`, is an invalid URL.
pub fn url_data_from_pairs(pairs: &Vec<(String, String)>) -> (r: Result<UrlData, WsError>)
    ensures
        match url_data_spec(pairs_view(pairs@)) {
            None => r matches Err(WsError::InvalidUrl(_)),
            Some((n, ns, key)) => r matches Ok(d) && d.protocol_version == n && d.namespace@ == ns
                && d.runner_key@ == key,
        },
{
    let protocol_version = match find_pair(pairs, "protocol_version") {
        Some(v) => match parse_u16(v.as_str()) {
            Some(n) => n,
            None => {
                return Err(WsError::InvalidUrl("invalid `protocol_version` query parameter".to_owned()));
            },
        },
        None => {
            return Err(WsError::InvalidUrl("missing `protocol_version` query parameter".to_owned()));
        },
    };
    let namespace = match find_pair(pairs, "namespace") {
        Some(v) => v,
        None => {
            return Err(WsError::InvalidUrl("missing `namespace` query parameter".to_owned()));
        },
    };
    let runner_key = match find_pair(pairs, "runner_key") {
        Some(v) => v,
        None => {
            return Err(WsError::InvalidUrl("missing `runner_key` query parameter".to_owned()));
        },
    };
    Ok(UrlData { protocol_version, namespace, runner_key })
}

impl UrlData {
    /// Reads `protocol_version`, `namespace` and `runner_key` from the query
    /// of the connection path. A path that is no valid URL, a missing
    /// parameter or a protocol version that is not a `u16` is an invalid URL.
    pub fn parse_url(path: &str) -> (r: Result<UrlData, WsError>)
        ensures
            match connection_query_pairs(path@) {
                None => r matches Err(WsError::InvalidUrl(_)),
                Some(pairs) => match url_data_spec(pairs) {
                    None => r matches Err(WsError::InvalidUrl(_)),
                    Some((n, ns, key)) => r matches Ok(d) && d.protocol_version == n
                        && d.namespace@ == ns && d.runner_key@ == key,
                },
            },
    {
        let pairs = match query_pairs_of_path(path) {
            Some(p) => p,
            None => {
                return Err(WsError::InvalidUrl("invalid connection url".to_owned()));
            },
        };
        url_data_from_pairs(&pairs)
    }
}

} // verus!
