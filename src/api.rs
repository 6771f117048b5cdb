//! The control-plane API's request and response shapes, and the decisions
//! its endpoints take before they call a workflow operation or a peer.

use vstd::prelude::*;
use crate::auth::{pieces_view, split_commas};
use crate::errors::ApiError;
use crate::fanout::{effective_limit, int_decimal, Pagination, DEFAULT_LIMIT};
use crate::text::{trim, trim_of, has_prefix, parse_i64, parse_i64_spec, split_on, str_equal, strip_prefix};

verus! {

/// An extraction that failed, with the error sent back.
pub struct ExtractorError(pub ApiError);

/// Marks a response whose request could not be extracted.
#[derive(Clone, Copy)]
pub struct FailedExtraction;

/// A JSON body.
pub struct Json<T>(pub T);

/// A query string.
pub struct Query<T>(pub T);

/// A value the router attached to the request.
pub struct Extension<T>(pub T);

/// The API's OpenAPI document.
pub struct ApiDoc;

/// Query of the namespace list.
pub struct ListQuery {
    pub limit: Option<usize>,
    pub cursor: Option<String>,
    pub name: Option<String>,
    pub namespace_ids: Option<String>,
}

/// Query of actor creation.
pub struct CreateQuery {
    pub namespace: String,
    pub datacenter: Option<String>,
}

pub struct Namespace {
    pub namespace_id: u128,
    pub name: String,
    pub display_name: String,
    pub create_ts: i64,
}

pub struct ListResponse {
    pub namespaces: Vec<Namespace>,
    pub pagination: Pagination,
}

/// How a namespace's runners are provided.
pub enum RunnerConfig {
    Serverless {
        url: String,
        headers: Vec<(String, String)>,
        /// Seconds.
        request_lifespan: u32,
        slots_per_runner: u32,
        min_runners: u32,
        max_runners: u32,
        runners_margin: u32,
    },
}

#[derive(Debug, PartialEq, Eq, Structural)]
pub enum RunnerConfigVariant {
    Serverless,
}

pub fn runner_config_variant(runner_config: &RunnerConfig) -> (r: RunnerConfigVariant)
    ensures
        *runner_config is Serverless ==> r == RunnerConfigVariant::Serverless,
{
    match runner_config {
        RunnerConfig::Serverless { .. } => RunnerConfigVariant::Serverless,
    }
}

/// A datacenter of the topology.
pub struct Datacenter {
    pub datacenter_label: u16,
    pub name: String,
}

/// Query of the runner name list.
pub struct ListNamesQuery {
    pub namespace: String,
    pub limit: Option<usize>,
    pub cursor: Option<String>,
}

/// Body of namespace creation.
pub struct CreateRequest {
    pub name: String,
    pub display_name: String,
}

pub struct CreateResponse {
    pub namespace: Namespace,
}

/// Input of the resolution of a namespace by name.
pub struct Input {
    pub name: String,
}

pub struct DatacentersListResponse {
    pub datacenters: Vec<Datacenter>,
    pub pagination: Pagination,
}

/// Every datacenter of the topology, in order; one page, so no cursor.
pub fn datacenter_list(topology: Vec<Datacenter>) -> (r: DatacentersListResponse)
    ensures
        r.datacenters@ == topology@,
        r.pagination.cursor is None,
{
    DatacentersListResponse { datacenters: topology, pagination: Pagination { cursor: None } }
}

/// HTTP methods the API answers.
#[derive(Debug, PartialEq, Eq, Structural, Clone, Copy)]
pub enum Method {
    Get,
    Post,
    Put,
    Delete,
}

/// The endpoint that serves a request.
pub enum Endpoint {
    /// Redirects to the web UI.
    RootRedirect,
    NamespacesList,
    NamespacesCreate,
    RunnerConfigsList,
    RunnerConfigsUpsert { runner_name: String },
    RunnerConfigsDelete { runner_name: String },
    ActorsList,
    ActorsCreate,
    ActorsGetOrCreate,
    ActorsDelete { actor_id: String },
    ActorsListNames,
    RunnersList,
    RunnersListNames,
    DatacentersList,
    UiIndex,
    UiAsset { path: String },
}

/// An endpoint with its path parameter as characters.
pub enum Route {
    RootRedirect,
    NamespacesList,
    NamespacesCreate,
    RunnerConfigsList,
    RunnerConfigsUpsert(Seq<char>),
    RunnerConfigsDelete(Seq<char>),
    ActorsList,
    ActorsCreate,
    ActorsGetOrCreate,
    ActorsDelete(Seq<char>),
    ActorsListNames,
    RunnersList,
    RunnersListNames,
    DatacentersList,
    UiIndex,
    UiAsset(Seq<char>),
}

pub open spec fn endpoint_route(e: Endpoint) -> Route {
    match e {
        Endpoint::RootRedirect => Route::RootRedirect,
        Endpoint::NamespacesList => Route::NamespacesList,
        Endpoint::NamespacesCreate => Route::NamespacesCreate,
        Endpoint::RunnerConfigsList => Route::RunnerConfigsList,
        Endpoint::RunnerConfigsUpsert { runner_name } => Route::RunnerConfigsUpsert(runner_name@),
        Endpoint::RunnerConfigsDelete { runner_name } => Route::RunnerConfigsDelete(runner_name@),
        Endpoint::ActorsList => Route::ActorsList,
        Endpoint::ActorsCreate => Route::ActorsCreate,
        Endpoint::ActorsGetOrCreate => Route::ActorsGetOrCreate,
        Endpoint::ActorsDelete { actor_id } => Route::ActorsDelete(actor_id@),
        Endpoint::ActorsListNames => Route::ActorsListNames,
        Endpoint::RunnersList => Route::RunnersList,
        Endpoint::RunnersListNames => Route::RunnersListNames,
        Endpoint::DatacentersList => Route::DatacentersList,
        Endpoint::UiIndex => Route::UiIndex,
        Endpoint::UiAsset { path } => Route::UiAsset(path@),
    }
}

/// The one path segment after `prefix`, where the path is `prefix` followed
/// by a non-empty segment without `/`.
pub open spec fn segment_after(path: Seq<char>, prefix: Seq<char>) -> Option<Seq<char>> {
    let rest = path.skip(prefix.len() as int);
    if has_prefix(path, prefix) && rest.len() > 0 && !rest.contains('/') {
        Some(rest)
    } else {
        None
    }
}

/// Everything after `prefix`, where the path starts with it and goes on.
pub open spec fn tail_after(path: Seq<char>, prefix: Seq<char>) -> Option<Seq<char>> {
    let rest = path.skip(prefix.len() as int);
    if has_prefix(path, prefix) && rest.len() > 0 {
        Some(rest)
    } else {
        None
    }
}

/// The API's route table.
pub open spec fn route_spec(m: Method, path: Seq<char>) -> Option<Route> {
    if path == "/"@ {
        if m == Method::Get { Some(Route::RootRedirect) } else { None }
    } else if path == "/namespaces"@ {
        if m == Method::Get {
            Some(Route::NamespacesList)
        } else if m == Method::Post {
            Some(Route::NamespacesCreate)
        } else {
            None
        }
    } else if path == "/runner-configs"@ {
        if m == Method::Get { Some(Route::RunnerConfigsList) } else { None }
    } else if path == "/actors"@ {
        if m == Method::Get {
            Some(Route::ActorsList)
        } else if m == Method::Post {
            Some(Route::ActorsCreate)
        } else if m == Method::Put {
            Some(Route::ActorsGetOrCreate)
        } else {
            None
        }
    } else if path == "/actors/names"@ {
        if m == Method::Get { Some(Route::ActorsListNames) } else { None }
    } else if path == "/runners"@ {
        if m == Method::Get { Some(Route::RunnersList) } else { None }
    } else if path == "/runners/names"@ {
        if m == Method::Get { Some(Route::RunnersListNames) } else { None }
    } else if path == "/datacenters"@ {
        if m == Method::Get { Some(Route::DatacentersList) } else { None }
    } else if path == "/ui"@ || path == "/ui/"@ {
        if m == Method::Get { Some(Route::UiIndex) } else { None }
    } else if segment_after(path, "/runner-configs/"@) is Some {
        let name = segment_after(path, "/runner-configs/"@)->Some_0;
        if m == Method::Put {
            Some(Route::RunnerConfigsUpsert(name))
        } else if m == Method::Delete {
            Some(Route::RunnerConfigsDelete(name))
        } else {
            None
        }
    } else if segment_after(path, "/actors/"@) is Some {
        if m == Method::Delete {
            Some(Route::ActorsDelete(segment_after(path, "/actors/"@)->Some_0))
        } else {
            None
        }
    } else if tail_after(path, "/ui/"@) is Some {
        if m == Method::Get { Some(Route::UiAsset(tail_after(path, "/ui/"@)->Some_0)) } else { None }
    } else {
        None
    }
}

/// Whether `s` holds no `/`.
fn has_no_slash(s: &str) -> (r: bool)
    ensures
        r == !s@.contains('/'),
{
    let n = s.unicode_len();
    let mut i: usize = 0;
    while i < n
        invariant
            n == s@.len(),
            0 <= i <= n,
            forall|j: int| 0 <= j < i ==> s@[j] != '/',
        decreases n - i,
    {
        if s.get_char(i) == '/' {
            return false;
        }
        i = i + 1;
    }
    true
}

fn segment(path: &str, prefix: &str) -> (r: Option<String>)
    ensures
        match r {
            Some(s) => segment_after(path@, prefix@) == Some(s@),
            None => segment_after(path@, prefix@) is None,
        },
{
    match strip_prefix(path, prefix) {
        Some(rest) => {
            if rest.unicode_len() > 0 && has_no_slash(rest) {
                Some(rest.to_owned())
            } else {
                None
            }
        },
        None => None,
    }
}

fn tail(path: &str, prefix: &str) -> (r: Option<String>)
    ensures
        match r {
            Some(s) => tail_after(path@, prefix@) == Some(s@),
            None => tail_after(path@, prefix@) is None,
        },
{
    match strip_prefix(path, prefix) {
        Some(rest) => {
            if rest.unicode_len() > 0 {
                Some(rest.to_owned())
            } else {
                None
            }
        },
        None => None,
    }
}

/// The endpoint that serves `method` on `path`, if any.
pub fn router(method: Method, path: &str) -> (r: Option<Endpoint>)
    ensures
        match r {
            Some(e) => route_spec(method, path@) == Some(endpoint_route(e)),
            None => route_spec(method, path@) is None,
        },
{
    let m = method;
    if str_equal(path, "/") {
        return if m == Method::Get { Some(Endpoint::RootRedirect) } else { None };
    }
    if str_equal(path, "/namespaces") {
        return match m {
            Method::Get => Some(Endpoint::NamespacesList),
            Method::Post => Some(Endpoint::NamespacesCreate),
            _ => None,
        };
    }
    if str_equal(path, "/runner-configs") {
        return if m == Method::Get { Some(Endpoint::RunnerConfigsList) } else { None };
    }
    if str_equal(path, "/actors") {
        return match m {
            Method::Get => Some(Endpoint::ActorsList),
            Method::Post => Some(Endpoint::ActorsCreate),
            Method::Put => Some(Endpoint::ActorsGetOrCreate),
            _ => None,
        };
    }
    if str_equal(path, "/actors/names") {
        return if m == Method::Get { Some(Endpoint::ActorsListNames) } else { None };
    }
    if str_equal(path, "/runners") {
        return if m == Method::Get { Some(Endpoint::RunnersList) } else { None };
    }
    if str_equal(path, "/runners/names") {
        return if m == Method::Get { Some(Endpoint::RunnersListNames) } else { None };
    }
    if str_equal(path, "/datacenters") {
        return if m == Method::Get { Some(Endpoint::DatacentersList) } else { None };
    }
    if str_equal(path, "/ui") || str_equal(path, "/ui/") {
        return if m == Method::Get { Some(Endpoint::UiIndex) } else { None };
    }
    if let Some(runner_name) = segment(path, "/runner-configs/") {
        return match m {
            Method::Put => Some(Endpoint::RunnerConfigsUpsert { runner_name }),
            Method::Delete => Some(Endpoint::RunnerConfigsDelete { runner_name }),
            _ => None,
        };
    }
    if let Some(actor_id) = segment(path, "/actors/") {
        return if m == Method::Delete { Some(Endpoint::ActorsDelete { actor_id }) } else { None };
    }
    if let Some(rest) = tail(path, "/ui/") {
        return if m == Method::Get { Some(Endpoint::UiAsset { path: rest }) } else { None };
    }
    None
}

/// Query of the runner list.
pub struct RunnersListQuery {
    pub namespace: String,
    pub name: Option<String>,
    /// Comma-separated runner ids.
    pub runner_ids: Option<String>,
    pub include_stopped: Option<bool>,
    pub limit: Option<usize>,
    /// Creation time before which runners are listed.
    pub cursor: Option<String>,
}

/// Which lookup a runner list request asks for.
pub enum RunnerListPlan {
    /// The runners with these ids, white space trimmed.
    ByIds(Vec<String>),
    /// A page of the namespace's runners, newest first.
    ForNamespace { name: Option<String>, include_stopped: bool, created_before: Option<i64>, limit: usize },
}

/// An id filter wins; otherwise a page is listed, older than the cursor
/// where one is given. A cursor that is not a number is an error.
pub fn runner_list_plan(query: RunnersListQuery) -> (r: Result<RunnerListPlan, ApiError>)
    ensures
        query.runner_ids is Some ==> (r matches Ok(RunnerListPlan::ByIds(ids)) && ids@.map_values(
            |s: String| s@,
        ) == split_on(query.runner_ids->Some_0@, ',').map_values(|p: Seq<char>| trim_of(p))),
        query.runner_ids is None && query.cursor is Some && parse_i64_spec(query.cursor->Some_0@) is None
            ==> r matches Err(ApiError::InternalError),
        query.runner_ids is None && (query.cursor is None || parse_i64_spec(query.cursor->Some_0@) is Some)
            ==> (r matches Ok(RunnerListPlan::ForNamespace { name, include_stopped, created_before, limit })
            && name == query.name && include_stopped == (query.include_stopped == Some(true))
            && limit == effective_limit(query.limit) && created_before == match query.cursor {
            Some(c) => parse_i64_spec(c@),
            None => None,
        }),
{
    if let Some(ids) = &query.runner_ids {
        return Ok(RunnerListPlan::ByIds(trimmed_pieces(ids.as_str())));
    }
    let created_before = match &query.cursor {
        None => None,
        Some(c) => match parse_i64(c.as_str()) {
            Some(t) => Some(t),
            None => {
                return Err(ApiError::InternalError);
            },
        },
    };
    let include_stopped = match query.include_stopped {
        Some(b) => b,
        None => false,
    };
    let limit = match query.limit {
        Some(l) => l,
        None => DEFAULT_LIMIT,
    };
    Ok(RunnerListPlan::ForNamespace { name: query.name, include_stopped, created_before, limit })
}

/// Where a request is served.
#[derive(Debug, PartialEq, Eq, Structural)]
pub enum Target {
    /// In this datacenter.
    Local,
    /// Forwarded, unchanged, to the datacenter with this label.
    Remote(u16),
}

/// Namespace operations are served by the leader datacenter; the others
/// forward them there.
pub fn namespace_target(is_leader: bool, leader_label: u16) -> (r: Target)
    ensures
        is_leader ==> r == Target::Local,
        !is_leader ==> r == Target::Remote(leader_label),
{
    if is_leader {
        Target::Local
    } else {
        Target::Remote(leader_label)
    }
}

/// The label of the first datacenter named `name`.
pub open spec fn dc_label_for_name(dcs: Seq<Datacenter>, name: Seq<char>) -> Option<u16>
    decreases dcs.len(),
{
    if dcs.len() == 0 {
        None
    } else {
        match dc_label_for_name(dcs.drop_last(), name) {
            Some(l) => Some(l),
            None => if dcs.last().name@ == name {
                Some(dcs.last().datacenter_label)
            } else {
                None
            },
        }
    }
}

/// Where an actor is created: in the datacenter the query names, else in
/// this one. A name that no datacenter has is not found.
pub fn actor_create_target(query: &CreateQuery, topology: &Vec<Datacenter>, current_label: u16) -> (r:
    Result<Target, ApiError>)
    ensures
        match query.datacenter {
            None => r == Ok::<Target, ApiError>(Target::Local),
            Some(name) => match dc_label_for_name(topology@, name@) {
                None => r matches Err(ApiError::NotFound),
                Some(l) => r == Ok::<Target, ApiError>(
                    if l == current_label {
                        Target::Local
                    } else {
                        Target::Remote(l)
                    },
                ),
            },
        },
{
    let name = match &query.datacenter {
        None => {
            return Ok(Target::Local);
        },
        Some(n) => n,
    };
    let mut i: usize = 0;
    while i < topology.len()
        invariant
            0 <= i <= topology@.len(),
            dc_label_for_name(topology@.take(i as int), name@) is None,
            query.datacenter is Some,
            query.datacenter->Some_0@ == name@,
        decreases topology@.len() - i,
    {
        proof {
            assert(topology@.take(i as int + 1).drop_last() =~= topology@.take(i as int));
        }
        if str_equal(topology[i].name.as_str(), name.as_str()) {
            let label = topology[i].datacenter_label;
            proof {
                lemma_dc_label_prefix(topology@, i as int + 1, name@);
            }
            if label == current_label {
                return Ok(Target::Local);
            } else {
                return Ok(Target::Remote(label));
            }
        }
        i = i + 1;
    }
    proof {
        assert(topology@.take(topology@.len() as int) =~= topology@);
    }
    Err(ApiError::NotFound)
}

proof fn lemma_dc_label_prefix(dcs: Seq<Datacenter>, k: int, name: Seq<char>)
    requires
        0 < k <= dcs.len(),
        dc_label_for_name(dcs.take(k), name) is Some,
    ensures
        dc_label_for_name(dcs, name) == dc_label_for_name(dcs.take(k), name),
    decreases dcs.len() - k,
{
    if k < dcs.len() {
        assert(dcs.take(k + 1).drop_last() =~= dcs.take(k));
        lemma_dc_label_prefix(dcs, k + 1, name);
    } else {
        assert(dcs.take(k) =~= dcs);
    }
}

/// The comma-separated pieces of `s`, each with its white space trimmed.
pub fn trimmed_pieces(s: &str) -> (r: Vec<String>)
    ensures
        r@.map_values(|x: String| x@) == split_on(s@, ',').map_values(|p: Seq<char>| trim_of(p)),
{
    let pieces = split_commas(s);
    let ghost target = split_on(s@, ',').map_values(|p: Seq<char>| trim_of(p));
    let mut out: Vec<String> = Vec::new();
    let mut i: usize = 0;
    while i < pieces.len()
        invariant
            0 <= i <= pieces@.len(),
            pieces_view(pieces@) == split_on(s@, ','),
            target == split_on(s@, ',').map_values(|p: Seq<char>| trim_of(p)),
            out@.map_values(|x: String| x@) == target.take(i as int),
        decreases pieces@.len() - i,
    {
        let ghost before = out@;
        let piece = trim(pieces[i]).to_owned();
        out.push(piece);
        proof {
            assert(out@ == before.push(piece));
            assert(pieces_view(pieces@)[i as int] == pieces@[i as int]@);
            assert(piece@ == target[i as int]);
            assert(before.map_values(|x: String| x@).len() == i);
        }
        i = i + 1;
        proof {
            assert(out@.map_values(|x: String| x@) =~= target.take(i as int));
        }
    }
    proof {
        assert(target.take(pieces@.len() as int) =~= target);
    }
    out
}

/// Which lookup a namespace list request asks for.
pub enum NamespaceLookup {
    /// The namespace with this name, if any.
    ByName(String),
    /// The namespaces with these ids: the comma-separated pieces of the
    /// filter, white space trimmed.
    ByIds(Vec<String>),
    /// A page of all namespaces.
    Page { limit: Option<usize> },
}

/// A name filter wins over an id filter; with neither, a page is listed.
pub fn namespace_lookup(query: ListQuery) -> (r: NamespaceLookup)
    ensures
        query.name matches Some(n) ==> (r matches NamespaceLookup::ByName(m) && m@ == n@),
        query.name is None && query.namespace_ids is Some ==> (r matches NamespaceLookup::ByIds(v)
            && v@.map_values(|s: String| s@) == split_on(query.namespace_ids->Some_0@, ',').map_values(
            |p: Seq<char>| trim_of(p),
        )),
        query.name is None && query.namespace_ids is None ==> r == (NamespaceLookup::Page {
            limit: query.limit,
        }),
{
    match query.name {
        Some(n) => NamespaceLookup::ByName(n),
        None => match &query.namespace_ids {
            Some(ids) => NamespaceLookup::ByIds(trimmed_pieces(ids.as_str())),
            None => NamespaceLookup::Page { limit: query.limit },
        },
    }
}

/// A page of namespaces, with the creation time of its last one as the cursor.
pub fn namespace_page(namespaces: Vec<Namespace>) -> (r: ListResponse)
    ensures
        r.namespaces@ == namespaces@,
        namespaces@.len() == 0 ==> r.pagination.cursor is None,
        namespaces@.len() > 0 ==> (r.pagination.cursor matches Some(c) && c@ == int_decimal(
            namespaces@.last().create_ts as int,
        )),
{
    let cursor = if namespaces.len() > 0 {
        Some(crate::fanout::create_ts_cursor(namespaces[namespaces.len() - 1].create_ts))
    } else {
        None
    };
    ListResponse { namespaces, pagination: Pagination { cursor } }
}

/// The namespace a resolution by name returns: the first of the leader's list.
pub fn first_namespace(namespaces: Vec<Namespace>) -> (r: Option<Namespace>)
    ensures
        namespaces@.len() == 0 ==> r is None,
        namespaces@.len() > 0 ==> r == Some(namespaces@[0]),
{
    let mut namespaces = namespaces;
    if namespaces.len() == 0 {
        None
    } else {
        Some(namespaces.remove(0))
    }
}

/// A list of namespaces that a filter selected: no cursor.
pub fn namespace_selection(namespaces: Vec<Namespace>) -> (r: ListResponse)
    ensures
        r.namespaces@ == namespaces@,
        r.pagination.cursor is None,
{
    ListResponse { namespaces, pagination: Pagination { cursor: None } }
}

} // verus!
