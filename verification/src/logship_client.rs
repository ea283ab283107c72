//! The authenticated client handle and the resolution of which connection
//! an operation runs on.

use vstd::prelude::*;
use crate::config::{find_index, Configuration};
use crate::connect::{Connection, ConnectionView};
use crate::error::{ClientError, ConfigError};
use crate::strutil::{min_name_index, trim_spec, trim_str};

verus! {

/// A handle on one server with the bearer token to talk to it.
#[derive(Debug)]
pub struct LogshClient {
    pub server: String,
    pub token: String,
}

/// An operation that runs against a resolved, authenticated client.
/// Consumers of the library implement this to describe their calls.
pub trait LogshClientHandlerExecute<T> {
    fn execute(&self, client: &LogshClient) -> Result<T, ClientError>;
}

/// Resolves which connection an operation runs on: a named one when set,
/// else the configuration's default.
#[derive(Debug)]
pub struct LogshClientHandler {
    pub override_connection_name: Option<String>,
}

/// `path` without one leading `'/'`, so it can be joined after a base URL.
pub fn get_clean_path(path: &str) -> (r: &str)
    ensures
        path@.len() > 0 && path@[0] == '/' ==> r@ == path@.skip(1),
        !(path@.len() > 0 && path@[0] == '/') ==> r@ == path@,
{
    let len: usize = path.unicode_len();
    if len > 0 && path.get_char(0) == '/' {
        let r = path.substring_char(1, len);
        assert(r@ =~= path@.skip(1));
        r
    } else {
        path
    }
}

impl LogshClient {
    /// A client for `server` using `token`, both with surrounding
    /// whitespace removed.
    pub fn new(server: &str, token: String) -> (r: Self)
        ensures
            r.server@ == trim_spec(server@),
            r.token@ == trim_spec(token@),
    {
        LogshClient { server: trim_str(server), token: trim_str(token.as_str()) }
    }

    /// The full URL of a request: the server, one `'/'`, and the path with
    /// any leading `'/'` dropped.
    pub fn request_url(&self, path: &str) -> (r: String)
        ensures
            path@.len() > 0 && path@[0] == '/' ==> r@ == self.server@ + "/"@ + path@.skip(1),
            !(path@.len() > 0 && path@[0] == '/') ==> r@ == self.server@ + "/"@ + path@,
    {
        let clean = get_clean_path(path);
        let mut r = self.server.clone();
        r.append("/");
        r.append(clean);
        r
    }
}

/// The connection a handler resolves against a configuration: the named
/// override, else the default with its smallest-name fallback.
pub open spec fn resolved_view_spec(h: LogshClientHandler, cfg: Configuration) -> Option<
    ConnectionView,
> {
    match h.override_connection_name {
        Some(n) => if cfg.has_name(n@) {
            Some(cfg.connections@[find_index(cfg.connections@, n@)].1@)
        } else {
            None
        },
        None => if cfg.connections@.len() == 0 {
            None
        } else if cfg.has_name(cfg.default_connection@) {
            Some(cfg.connections@[find_index(cfg.connections@, cfg.default_connection@)].1@)
        } else {
            Some(cfg.connections@[min_name_index(cfg.names(), cfg.names().len() as int)].1@)
        },
    }
}

/// The failure resolution reports when no connection can be picked.
pub open spec fn resolution_error_spec(h: LogshClientHandler, cfg: Configuration) -> Option<
    ClientError,
> {
    match h.override_connection_name {
        Some(n) => if cfg.has_name(n@) {
            None
        } else {
            Some(ClientError::ConnectionNotFound(n))
        },
        None => if cfg.connections@.len() == 0 {
            Some(ClientError::Config(ConfigError::NoDefaultConnection))
        } else {
            None
        },
    }
}

impl LogshClientHandler {
    /// A handler that uses the configuration's default connection.
    pub fn new() -> (r: Self)
        ensures
            r.override_connection_name is None,
    {
        LogshClientHandler { override_connection_name: None }
    }

    /// The connection operations run on: the named one when an override is
    /// set, else the configuration's default, with the failure naming what
    /// is missing.
    pub fn get_connection(&self, cfg: &Configuration) -> (r: Result<Connection, ClientError>)
        ensures
            self.override_connection_name matches Some(n) ==> (cfg.has_name(n@) ==> (
                r matches Ok(c) && c@ == cfg.connections@[find_index(cfg.connections@, n@)].1@
            )),
            self.override_connection_name matches Some(n) ==> (!cfg.has_name(n@) ==> (
                r matches Err(e) && e == ClientError::ConnectionNotFound(n)
            )),
            self.override_connection_name is None && cfg.connections@.len() == 0 ==> (
                r matches Err(e) && e == ClientError::Config(ConfigError::NoDefaultConnection)
            ),
            self.override_connection_name is None && cfg.connections@.len() > 0 && cfg.has_name(
                cfg.default_connection@,
            ) ==> (r matches Ok(c) && c@ == cfg.connections@[
                find_index(cfg.connections@, cfg.default_connection@)
            ].1@),
            self.override_connection_name is None && cfg.connections@.len() > 0 && !cfg.has_name(
                cfg.default_connection@,
            ) ==> (r matches Ok(c) && c@ == cfg.connections@[
                min_name_index(cfg.names(), cfg.names().len() as int)
            ].1@),
    {
        match &self.override_connection_name {
            Some(name) => match cfg.get(name.as_str()) {
                Some(c) => Ok(c.clone()),
                None => Err(ClientError::ConnectionNotFound(name.clone())),
            },
            None => match cfg.get_default_connection() {
                Some(cc) => Ok(cc.connection),
                None => Err(ClientError::Config(ConfigError::NoDefaultConnection)),
            },
        }
    }

    /// Resolves the connection, requires its bearer token, and hands the
    /// operation a client for it.  Resolution failures and a missing token
    /// are the dispatcher's own answers; on the remaining inputs the result
    /// is whatever the operation answered for the authenticated client.
    pub fn execute<T, A: LogshClientHandlerExecute<T>>(&self, cfg: &Configuration, arg: &A) -> (r:
        Result<T, ClientError>)
        ensures
            resolution_error_spec(*self, *cfg) matches Some(e) ==> (r matches Err(e2) && e2
                == e),
            resolution_error_spec(*self, *cfg) is None ==> (resolved_view_spec(*self, *cfg)
                matches Some(cv) ==> (cv.auth is None ==> (r matches Err(e) && e
                == ClientError::NoToken))),
            resolution_error_spec(*self, *cfg) is None ==> (resolved_view_spec(*self, *cfg)
                matches Some(cv) ==> (cv.auth matches Some(a) ==> (exists|client: LogshClient|
                client.server@ == trim_spec(cv.server) && client.token@ == trim_spec(
                crate::auth::bearer_of(a),
            ) && #[trigger] call_ensures(A::execute, (arg, &client), r)))),
    {
        let connection = match self.get_connection(cfg) {
            Ok(c) => c,
            Err(e) => {
                return Err(e);
            },
        };
        proof {
            assert(resolved_view_spec(*self, *cfg) == Some(connection@));
        }
        let token = match connection.get_token() {
            Some(t) => t,
            None => {
                return Err(ClientError::NoToken);
            },
        };
        let client = LogshClient::new(connection.server.as_str(), token);
        let r = arg.execute(&client);
        proof {
            assert(client.server@ == trim_spec(connection@.server));
            assert(call_ensures(A::execute, (arg, &client), r));
        }
        r
    }

    /// As `execute`, for an operation given as a plain function.
    pub fn execute_func<T, F: Fn(&LogshClient) -> Result<T, ClientError>>(
        &self,
        cfg: &Configuration,
        func: &F,
    ) -> (r: Result<T, ClientError>)
        requires
            forall|client: &LogshClient| #[trigger] call_requires(*func, (client,)),
        ensures
            resolution_error_spec(*self, *cfg) matches Some(e) ==> (r matches Err(e2) && e2
                == e),
            resolution_error_spec(*self, *cfg) is None ==> (resolved_view_spec(*self, *cfg)
                matches Some(cv) ==> (cv.auth is None ==> (r matches Err(e) && e
                == ClientError::NoToken))),
            resolution_error_spec(*self, *cfg) is None ==> (resolved_view_spec(*self, *cfg)
                matches Some(cv) ==> (cv.auth matches Some(a) ==> (exists|client: LogshClient|
                client.server@ == trim_spec(cv.server) && client.token@ == trim_spec(
                crate::auth::bearer_of(a),
            ) && #[trigger] call_ensures(*func, (&client,), r)))),
    {
        let connection = match self.get_connection(cfg) {
            Ok(c) => c,
            Err(e) => {
                return Err(e);
            },
        };
        proof {
            assert(resolved_view_spec(*self, *cfg) == Some(connection@));
        }
        let token = match connection.get_token() {
            Some(t) => t,
            None => {
                return Err(ClientError::NoToken);
            },
        };
        let client = LogshClient::new(connection.server.as_str(), token);
        let r = func(&client);
        proof {
            assert(client.server@ == trim_spec(connection@.server));
            assert(call_ensures(*func, (&client,), r));
        }
        r
    }
}

} // verus!
