//! The connection entity: its identity, its subscriptions, its stored
//! credential, and the validity and refresh rules around it.

use vstd::prelude::*;
use crate::auth::{expired_spec, AuthData, AuthDataView};
use crate::error::ConnectError;
use crate::error::AuthError;
use crate::strutil::{chars_lt, min_name_index, str_lt, trim_spec, trim_str, trim_slashes_spec, server_url};

verus! {

/// The OAuth discovery document a server advertises under `/auth/oauth`.
#[derive(Debug)]
pub struct OAuthConfigResponse {
    pub client_id: String,
    pub authorize_endpoint: String,
    pub device_endpoint: String,
    pub token_endpoint: String,
    pub scopes: Vec<String>,
}

/// How usable a connection currently is.
#[derive(Clone, Copy, Debug, PartialEq, Eq, Structural)]
pub enum ConnectionStatus {
    Connected,
    AuthRequired,
    NotConfigured,
}

impl ConnectionStatus {
    /// The human-readable name of the status.
    pub fn label(&self) -> (r: &'static str)
        ensures
            *self is Connected ==> r@ == "Connected"@,
            *self is AuthRequired ==> r@ == "Authentication Required"@,
            *self is NotConfigured ==> r@ == "Configuration Required"@,
    {
        match self {
            ConnectionStatus::Connected => "Connected",
            ConnectionStatus::AuthRequired => "Authentication Required",
            ConnectionStatus::NotConfigured => "Configuration Required",
        }
    }
}

/// The identity the server reports for the authenticated user.
#[derive(Clone, Debug, PartialEq, Eq)]
pub struct UserModel {
    pub user_id: String,
    pub user_name: String,
}

/// One subscription (account) the user can reach through a connection.
#[derive(Debug, PartialEq, Eq)]
pub struct SubscriptionsModel {
    pub permissions: Vec<String>,
    pub account_id: String,
    pub account_name: String,
}

/// One configured server endpoint with its resolved identity and stored
/// credential.
#[derive(Debug, PartialEq, Eq)]
pub struct Connection {
    pub server: String,
    /// Empty until the first successful authentication resolves the user.
    pub user_id: String,
    pub username: String,
    /// The subscription used when none is named, by id.
    pub default_subscription: Option<String>,
    /// The subscriptions reachable through this connection: name and id.
    pub subscriptions: Vec<(String, String)>,
    pub auth: Option<AuthData>,
}

/// The mathematical shape of a `Connection`.
#[verifier::ext_equal]
pub struct ConnectionView {
    pub server: Seq<char>,
    pub user_id: Seq<char>,
    pub username: Seq<char>,
    pub default_subscription: Option<Seq<char>>,
    pub subscriptions: Seq<(Seq<char>, Seq<char>)>,
    pub auth: Option<AuthDataView>,
}

impl View for Connection {
    type V = ConnectionView;

    open spec fn view(&self) -> ConnectionView {
        ConnectionView {
            server: self.server@,
            user_id: self.user_id@,
            username: self.username@,
            default_subscription: match self.default_subscription {
                Some(s) => Some(s@),
                None => None,
            },
            subscriptions: Seq::new(
                self.subscriptions@.len(),
                |i: int|
                    if 0 <= i < self.subscriptions.len() {
                        (self.subscriptions[i].0@, self.subscriptions[i].1@)
                    } else {
                        (Seq::empty(), Seq::empty())
                    },
            ),
            auth: match self.auth {
                Some(a) => Some(a@),
                None => None,
            },
        }
    }
}

impl Clone for Connection {
    fn clone(&self) -> (r: Self)
        ensures
            r@ == self@,
    {
        let r = Connection {
            server: self.server.clone(),
            user_id: self.user_id.clone(),
            username: self.username.clone(),
            default_subscription: match &self.default_subscription {
                Some(s) => Some(s.clone()),
                None => None,
            },
            subscriptions: clone_pairs(&self.subscriptions),
            auth: match &self.auth {
                Some(a) => Some(a.clone()),
                None => None,
            },
        };
        assert(r@ =~= self@);
        r
    }
}

/// The index of the subscription ranked first by account name; ties keep the
/// earliest entry, as a stable sort by name would.
pub open spec fn first_subscription_index(subs: Seq<SubscriptionsModel>) -> int {
    min_name_index(subs.map_values(|s: SubscriptionsModel| s.account_name@), subs.len() as int)
}

/// Copies a list of name-id pairs; the copy holds the same strings.
fn clone_pairs(v: &Vec<(String, String)>) -> (r: Vec<(String, String)>)
    ensures
        r@ == v@,
{
    let mut r: Vec<(String, String)> = Vec::new();
    let mut i: usize = 0;
    while i < v.len()
        invariant
            i <= v.len(),
            r@ =~= v@.take(i as int),
        decreases v.len() - i,
    {
        r.push((v[i].0.clone(), v[i].1.clone()));
        i = i + 1;
    }
    assert(r@ =~= v@);
    r
}

/// The names of a connection's subscriptions, in storage order.
pub open spec fn subscription_names(c: Connection) -> Seq<Seq<char>> {
    c.subscriptions@.map_values(|p: (String, String)| p.0@)
}

/// The name-id pairs of a reported subscription list, in report order.
pub open spec fn listed_pairs(subs: Seq<SubscriptionsModel>) -> Seq<(Seq<char>, Seq<char>)> {
    Seq::new(
        subs.len(),
        |i: int|
            if 0 <= i < subs.len() {
                (subs[i].account_name@, subs[i].account_id@)
            } else {
                (Seq::empty(), Seq::empty())
            },
    )
}

/// The subscription a consumer should use: the recorded default when one is
/// set, else the id of the subscription ranked first by name, else none.
pub open spec fn resolved_subscription_spec(c: Connection) -> Option<Seq<char>> {
    match c.default_subscription {
        Some(s) => Some(s@),
        None => if c.subscriptions@.len() == 0 {
            None
        } else {
            Some(
                c.subscriptions@[
                    min_name_index(subscription_names(c), c.subscriptions@.len() as int)
                ].1@,
            )
        },
    }
}

impl Connection {
    /// A fresh connection to `server` (surrounding whitespace removed), with
    /// no identity and no credential yet.
    pub fn new(server: &str) -> (r: Self)
        ensures
            r.server@ == trim_spec(server@),
            r.user_id@ == Seq::<char>::empty(),
            r.username@ == Seq::<char>::empty(),
            r.default_subscription is None,
            r.subscriptions@.len() == 0,
            r.auth is None,
    {
        Connection {
            server: trim_str(server),
            user_id: String::new(),
            username: String::new(),
            default_subscription: None,
            subscriptions: Vec::new(),
            auth: None,
        }
    }

    /// The subscription to work against: the recorded default, or, when none
    /// is recorded, the stored subscription ranked first by name.
    pub fn default_subscription(&self) -> (r: Option<String>)
        ensures
            resolved_subscription_spec(*self) is None ==> r is None,
            resolved_subscription_spec(*self) matches Some(id) ==> (r matches Some(s) && s@
                == id),
    {
        match &self.default_subscription {
            Some(s) => Some(s.clone()),
            None => {
                if self.subscriptions.len() == 0 {
                    return None;
                }
                let ghost names = subscription_names(*self);
                let mut m: usize = 0;
                let mut i: usize = 1;
                assert(m == min_name_index(names, 1 as int));
                while i < self.subscriptions.len()
                    invariant
                        1 <= i <= self.subscriptions@.len(),
                        m < i,
                        names == subscription_names(*self),
                        names.len() == self.subscriptions@.len(),
                        m == min_name_index(names, i as int),
                    decreases self.subscriptions@.len() - i,
                {
                    assert(names[i as int] == self.subscriptions@[i as int].0@);
                    assert(names[m as int] == self.subscriptions@[m as int].0@);
                    if str_lt(self.subscriptions[i].0.as_str(), self.subscriptions[m].0.as_str()) {
                        m = i;
                    }
                    i = i + 1;
                }
                Some(self.subscriptions[m].1.clone())
            },
        }
    }

    /// Whether the stored credential is a password-exchange token.
    pub fn is_jwt_auth(&self) -> (r: bool)
        ensures
            r == (self.auth matches Some(a) && a is Jwt),
    {
        match &self.auth {
            Some(AuthData::Jwt { .. }) => true,
            _ => false,
        }
    }

    /// Whether the stored credential is an OAuth grant.
    pub fn is_oauth_auth(&self) -> (r: bool)
        ensures
            r == (self.auth matches Some(a) && a is OAuth),
    {
        match &self.auth {
            Some(AuthData::OAuth { .. }) => true,
            _ => false,
        }
    }

    /// The bearer token to authenticate requests with, if any credential is
    /// stored.
    pub fn get_token(&self) -> (r: Option<String>)
        ensures
            self.auth is None ==> r is None,
            self@.auth matches Some(a) ==> (r matches Some(t) && t@ == crate::auth::bearer_of(
                a,
            )),
    {
        match &self.auth {
            None => None,
            Some(a) => Some(a.bearer_token().clone()),
        }
    }

    /// The server's `whoami` endpoint.
    pub fn whoami_url(&self) -> (r: String)
        ensures
            r@ == trim_slashes_spec(self.server@) + "/whoami"@,
    {
        server_url(self.server.as_str(), "/whoami")
    }

    /// The server's OAuth discovery endpoint.
    pub fn oauth_config_url(&self) -> (r: String)
        ensures
            r@ == trim_slashes_spec(self.server@) + "/auth/oauth"@,
    {
        server_url(self.server.as_str(), "/auth/oauth")
    }

    /// The endpoint listing the accounts of user `user_id`.
    pub fn subscriptions_url(&self, user_id: &str) -> (r: String)
        ensures
            r@ == trim_slashes_spec(self.server@) + "/users/"@ + user_id@ + "/accounts"@,
    {
        let mut r = server_url(self.server.as_str(), "/users/");
        r.append(user_id);
        r.append("/accounts");
        r
    }

    /// Whether the connection is usable as it stands at instant `now`: a
    /// stored, unexpired credential answers yes; no credential or an expired
    /// one answers with the matching failure.  Re-authentication, when a new
    /// request is supplied, goes through `refresh_auth` instead.
    pub fn ensure_valid(&self, now: i64) -> (r: Result<(), ConnectError>)
        ensures
            self.auth is None ==> (r matches Err(e) && e == ConnectError::NoAuthentication),
            self@.auth matches Some(a) && expired_spec(a, now) ==> (r matches Err(e) && e
                == ConnectError::Auth(AuthError::Expired)),
            self@.auth matches Some(a) && !expired_spec(a, now) ==> r is Ok,
    {
        match &self.auth {
            None => Err(ConnectError::NoAuthentication),
            Some(a) => {
                if a.is_expired(now) {
                    Err(ConnectError::Auth(AuthError::Expired))
                } else {
                    Ok(())
                }
            },
        }
    }

    /// Merges the outcome of an executed authentication request, or, when
    /// none was executed, checks the stored credential as `ensure_valid`
    /// does.  A supplied credential always replaces the stored one wholesale,
    /// whatever its prior state.
    pub fn refresh_auth(&mut self, new_auth: Option<AuthData>, now: i64) -> (r: Result<
        (),
        ConnectError,
    >)
        ensures
            new_auth matches Some(a) ==> (r is Ok && final(self)@ == ConnectionView {
                auth: Some(a@),
                ..old(self)@
            }),
            new_auth is None ==> final(self)@ == old(self)@,
            new_auth is None && old(self).auth is None ==> (r matches Err(e) && e
                == ConnectError::NoAuthentication),
            new_auth is None ==> (old(self)@.auth matches Some(a) ==> (expired_spec(a, now) ==> (
                r matches Err(e) && e == ConnectError::Auth(AuthError::Expired)
            ))),
            new_auth is None ==> (old(self)@.auth matches Some(a) ==> (!expired_spec(a, now)
                ==> r is Ok)),
    {
        match new_auth {
            Some(a) => {
                self.auth = Some(a);
                assert(final(self)@ =~= (ConnectionView { auth: final(self)@.auth, ..old(self)@ }));
                Ok(())
            },
            None => self.ensure_valid(now),
        }
    }

    /// Records the identity and subscriptions the server reported — one
    /// entry per account name, the first kept — and, when no default
    /// subscription is set yet, adopts the subscription ranked first by
    /// account name.
    pub fn apply_identity(&mut self, user: UserModel, subs: &Vec<SubscriptionsModel>)
        ensures
            final(self).server == old(self).server,
            final(self)@.auth == old(self)@.auth,
            final(self).user_id == user.user_id,
            final(self).username == user.user_name,
            crate::strutil::pairs_view(final(self).subscriptions@)
                == crate::strutil::dedup_keys_spec(listed_pairs(subs@)),
            old(self).default_subscription is Some ==> final(self).default_subscription
                == old(self).default_subscription,
            old(self).default_subscription is None && subs@.len() == 0
                ==> final(self).default_subscription is None,
            old(self).default_subscription is None && subs@.len() > 0 ==> (
                final(self).default_subscription matches Some(id) && id@ == subs@[
                    first_subscription_index(subs@)
                ].account_id@
            ),
    {
        self.user_id = user.user_id;
        self.username = user.user_name;
        let mut listed: Vec<(String, String)> = Vec::new();
        let mut k: usize = 0;
        while k < subs.len()
            invariant
                k <= subs@.len(),
                listed@.len() == k,
                forall|i: int|
                    0 <= i < k ==> (#[trigger] listed@[i]).0@ == subs@[i].account_name@
                        && listed@[i].1@ == subs@[i].account_id@,
            decreases subs@.len() - k,
        {
            listed.push((subs[k].account_name.clone(), subs[k].account_id.clone()));
            k = k + 1;
        }
        proof {
            assert(crate::strutil::pairs_view(listed@) =~= listed_pairs(subs@));
        }
        self.subscriptions = crate::strutil::dedup_by_name(&listed);
        if self.default_subscription.is_none() && subs.len() > 0 {
            let ghost names = subs@.map_values(|s: SubscriptionsModel| s.account_name@);
            let mut m: usize = 0;
            let mut i: usize = 1;
            assert(m == min_name_index(names, 1 as int));
            while i < subs.len()
                invariant
                    1 <= i <= subs@.len(),
                    m < i,
                    names == subs@.map_values(|s: SubscriptionsModel| s.account_name@),
                    names.len() == subs@.len(),
                    m == min_name_index(names, i as int),
                decreases subs@.len() - i,
            {
                assert(names[i as int] == subs@[i as int].account_name@);
                assert(names[m as int] == subs@[m as int].account_name@);
                if str_lt(subs[i].account_name.as_str(), subs[m].account_name.as_str()) {
                    m = i;
                }
                i = i + 1;
            }
            self.default_subscription = Some(subs[m].account_id.clone());
        }
    }
}

/// The connection an add-or-refresh operation works on: the one supplied by
/// the caller, else the one stored under `name`, else a failure naming the
/// missing connection.
pub fn add_connect_target(
    cfg: &crate::config::Configuration,
    name: &str,
    connection: Option<Connection>,
) -> (r: Result<Connection, ConnectError>)
    ensures
        connection matches Some(c) ==> (r matches Ok(out) && out == c),
        connection is None && crate::config::find_index(cfg.connections@, name@) >= 0 ==> (
            r matches Ok(out) && out@ == cfg.connections@[
                crate::config::find_index(cfg.connections@, name@)
            ].1@
        ),
        connection is None && crate::config::find_index(cfg.connections@, name@) < 0 ==> (
            r matches Err(e) && e matches ConnectError::NoConnection(n) && n@ == name@
        ),
{
    match connection {
        Some(c) => Ok(c),
        None => match cfg.get(name) {
            Some(c) => Ok(c.clone()),
            None => Err(ConnectError::NoConnection(name.to_owned())),
        },
    }
}

} // verus!
