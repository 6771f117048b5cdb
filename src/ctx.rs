//! Per-request API context: the caller's token, and whether the endpoint
//! has dealt with authentication.

use vstd::prelude::*;
use vstd::string::*;
use crate::auth::{bearer_token, bearer_token_spec, Auth};
use crate::errors::ApiError;
use crate::text::{has_prefix, str_equal, strip_prefix};

verus! {

/// The context an endpoint runs in.
pub struct ApiCtx {
    /// Authentication settings; `None` where authentication is off.
    pub auth_config: Option<Auth>,
    /// The bearer token the request carried.
    pub token: Option<String>,
    /// Set once the endpoint checked the token or declared it needs none.
    pub authentication_handled: bool,
}

impl ApiCtx {
    pub fn new(auth_config: Option<Auth>, token: Option<String>) -> (r: ApiCtx)
        ensures
            r.auth_config == auth_config,
            r.token == token,
            !r.authentication_handled,
    {
        ApiCtx { auth_config, token, authentication_handled: false }
    }

    /// Checks the request's token against the admin token. Where
    /// authentication is off every request passes.
    pub fn auth(&mut self) -> (r: Result<(), ApiError>)
        ensures
            final(self).auth_config == old(self).auth_config,
            final(self).token == old(self).token,
            old(self).auth_config is None ==> r is Ok && final(self).authentication_handled
                == old(self).authentication_handled,
            old(self).auth_config matches Some(a) ==> {
                &&& final(self).authentication_handled
                &&& (old(self).token matches Some(t) && t@ == a.admin_token@) ==> r is Ok
                &&& !(old(self).token matches Some(t) && t@ == a.admin_token@) ==> r matches Err(
                    ApiError::Forbidden,
                )
            },
    {
        let ok = match &self.auth_config {
            None => {
                return Ok(());
            },
            Some(a) => match &self.token {
                Some(t) => str_equal(t.as_str(), a.admin_token.as_str()),
                None => false,
            },
        };
        self.authentication_handled = true;
        if ok {
            Ok(())
        } else {
            Err(ApiError::Forbidden)
        }
    }

    /// Declares that the endpoint needs no token.
    pub fn skip_auth(&mut self)
        ensures
            final(self).auth_config == old(self).auth_config,
            final(self).token == old(self).token,
            final(self).authentication_handled,
    {
        self.authentication_handled = true;
    }

    /// Whether the endpoint dealt with authentication, or none is configured.
    pub fn is_auth_handled(&self) -> (r: bool)
        ensures
            r == (self.auth_config is None || self.authentication_handled),
    {
        match &self.auth_config {
            None => true,
            Some(_) => self.authentication_handled,
        }
    }

    pub fn token(&self) -> (r: Option<&str>)
        ensures
            match r {
                Some(t) => self.token matches Some(s) && s@ == t@,
                None => self.token is None,
            },
    {
        match &self.token {
            Some(t) => Some(t.as_str()),
            None => None,
        }
    }
}

/// The token of a request's `Authorization` header, if it is a bearer token.
pub fn token_from_authorization(value: Option<&str>) -> (r: Option<String>)
    ensures
        match value {
            None => r is None,
            Some(v) => match bearer_token_spec(v@) {
                Some(t) => r matches Some(s) && s@ == t,
                None => r is None,
            },
        },
{
    match value {
        None => None,
        Some(v) => match bearer_token(v) {
            Some(t) => Some(t.to_owned()),
            None => None,
        },
    }
}

/// Paths that need no authentication: the root redirect and the web UI.
pub open spec fn is_public_path(path: Seq<char>) -> bool {
    path == "/"@ || path == "/ui"@ || has_prefix(path, "/ui/"@)
}

/// After an endpoint ran: a request whose extraction succeeded, on a path
/// that is not public, must have had its authentication dealt with; else
/// this is a developer error that names the path.
pub fn check_auth_handled(failed_extraction: bool, path: &str, auth_handled: bool) -> (r: Result<
    (),
    String,
>)
    ensures
        (failed_extraction || is_public_path(path@) || auth_handled) ==> r is Ok,
        !(failed_extraction || is_public_path(path@) || auth_handled) ==> (r matches Err(m) && m@
            == "developer error: must explicitly handle auth in all endpoints (path: "@ + path@
            + ")"@),
{
    if failed_extraction || auth_handled {
        return Ok(());
    }
    let public = str_equal(path, "/") || str_equal(path, "/ui") || strip_prefix(path, "/ui/").is_some();
    if public {
        return Ok(());
    }
    let m = "developer error: must explicitly handle auth in all endpoints (path: ".to_owned();
    let m = m.concat(path);
    let m = m.concat(")");
    Err(m)
}

} // verus!
