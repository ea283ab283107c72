//! The configuration store: the named connection set, the default-
//! connection rule with its fallback, and the file-path decision.

use vstd::prelude::*;
use crate::connect::{Connection, ConnectionView};
use crate::error::ConfigError;
use crate::strutil::{chars_lt, min_name_index, lemma_min_name_index, str_eq, str_lt, trim_spec, trim_str};

verus! {

/// The first position holding a connection named `name`, or -1.
pub open spec fn find_index(s: Seq<(String, Connection)>, name: Seq<char>) -> int
    decreases s.len(),
{
    if s.len() == 0 {
        -1
    } else if s[0].0@ == name {
        0
    } else {
        let r = find_index(s.skip(1), name);
        if r < 0 {
            -1
        } else {
            r + 1
        }
    }
}

/// `find_index` finds the first match, and -1 means there is none.
pub proof fn lemma_find_index(s: Seq<(String, Connection)>, name: Seq<char>)
    ensures
        find_index(s, name) == -1 || 0 <= find_index(s, name) < s.len(),
        find_index(s, name) >= 0 ==> s[find_index(s, name)].0@ == name,
        forall|j: int|
            0 <= j < s.len() && (find_index(s, name) == -1 || j < find_index(s, name))
                ==> s[j].0@ != name,
    decreases s.len(),
{
    if s.len() > 0 && s[0].0@ != name {
        lemma_find_index(s.skip(1), name);
        assert forall|j: int|
            0 <= j < s.len() && (find_index(s, name) == -1 || j < find_index(s, name))
            implies s[j].0@ != name by {
            if j > 0 {
                assert(s.skip(1)[j - 1] == s[j]);
            }
        }
        if find_index(s, name) >= 0 {
            assert(s.skip(1)[find_index(s, name) - 1] == s[find_index(s, name)]);
        }
    }
}

/// The durable record of every configured connection and the name used when
/// the caller picks none.
#[derive(Debug, PartialEq, Eq)]
pub struct Configuration {
    pub default_connection: String,
    /// Named connections, in insertion order, each name held once.
    pub connections: Vec<(String, Connection)>,
}

/// The mathematical shape of a `Configuration`.
#[verifier::ext_equal]
pub struct ConfigurationView {
    pub default_connection: Seq<char>,
    pub connections: Seq<(Seq<char>, ConnectionView)>,
}

impl View for Configuration {
    type V = ConfigurationView;

    open spec fn view(&self) -> ConfigurationView {
        ConfigurationView {
            default_connection: self.default_connection@,
            connections: self.connections@.map_values(
                |p: (String, Connection)| (p.0@, p.1@),
            ),
        }
    }
}

/// A named connection pulled out of the configuration.
#[derive(Debug)]
pub struct ConnectionConfig {
    pub name: String,
    pub connection: Connection,
}

impl Configuration {
    /// Connection names are unique.
    pub open spec fn wf(self) -> bool {
        forall|i: int, j: int|
            0 <= i < j < self.connections@.len() ==> self.connections@[i].0@
                != self.connections@[j].0@
    }

    /// The names of the configured connections, in storage order.
    pub open spec fn names(self) -> Seq<Seq<char>> {
        self.connections@.map_values(|p: (String, Connection)| p.0@)
    }

    /// Whether a connection named `name` exists.
    pub open spec fn has_name(self, name: Seq<char>) -> bool {
        find_index(self.connections@, name) >= 0
    }

    /// The stored connections, keyed by name.
    pub fn get(&self, name: &str) -> (r: Option<&Connection>)
        ensures
            self.has_name(name@) ==> (r matches Some(c) && *c == self.connections@[
                find_index(self.connections@, name@)
            ].1),
            !self.has_name(name@) ==> r is None,
    {
        proof {
            lemma_find_index(self.connections@, name@);
        }
        let mut i: usize = 0;
        while i < self.connections.len()
            invariant
                i <= self.connections@.len(),
                forall|j: int| 0 <= j < i ==> self.connections@[j].0@ != name@,
                find_index(self.connections@, name@) == -1 || 0 <= find_index(
                    self.connections@,
                    name@,
                ) < self.connections@.len(),
                find_index(self.connections@, name@) >= 0 ==> self.connections@[
                    find_index(self.connections@, name@)
                ].0@ == name@,
                forall|j: int|
                    0 <= j < self.connections@.len() && (find_index(self.connections@, name@) == -1
                        || j < find_index(self.connections@, name@)) ==> self.connections@[j].0@
                        != name@,
            decreases self.connections@.len() - i,
        {
            if str_eq(self.connections[i].0.as_str(), name) {
                assert(find_index(self.connections@, name@) == i);
                return Some(&self.connections[i].1);
            }
            i = i + 1;
        }
        None
    }

    /// How many connections are configured.
    pub fn len(&self) -> (r: usize)
        ensures
            r == self.connections@.len(),
    {
        self.connections.len()
    }

    /// Stores `connection` under `name`, replacing any entry of that name.
    /// The new entry becomes the default when the caller asks for it — or
    /// always when it is the first connection, whatever the caller asked.
    pub fn set_connection(&mut self, name: String, connection: Connection, make_default: bool)
        requires
            old(self).wf(),
        ensures
            final(self).wf(),
            old(self).has_name(name@) ==> final(self).connections@ =~= old(self).connections@.update(
                find_index(old(self).connections@, name@),
                (name, connection),
            ),
            !old(self).has_name(name@) ==> final(self).connections@ =~= old(self).connections@.push(
                (name, connection),
            ),
            (make_default || old(self).connections@.len() == 0) ==> final(self).default_connection
                == name,
            !(make_default || old(self).connections@.len() == 0) ==> final(self).default_connection
                == old(self).default_connection,
    {
        proof {
            lemma_find_index(self.connections@, name@);
        }
        if make_default || self.connections.len() == 0 {
            self.default_connection = name.clone();
        }
        let mut i: usize = 0;
        while i < self.connections.len()
            invariant
                old(self).wf(),
                i <= self.connections@.len(),
                self.connections@ == old(self).connections@,
                (make_default || old(self).connections@.len() == 0)
                    ==> self.default_connection == name,
                !(make_default || old(self).connections@.len() == 0)
                    ==> self.default_connection == old(self).default_connection,
                forall|j: int| 0 <= j < i ==> self.connections@[j].0@ != name@,
                find_index(self.connections@, name@) == -1 || 0 <= find_index(
                    self.connections@,
                    name@,
                ) < self.connections@.len(),
                find_index(self.connections@, name@) >= 0 ==> self.connections@[
                    find_index(self.connections@, name@)
                ].0@ == name@,
                forall|j: int|
                    0 <= j < self.connections@.len() && (find_index(self.connections@, name@) == -1
                        || j < find_index(self.connections@, name@)) ==> self.connections@[j].0@
                        != name@,
            decreases self.connections@.len() - i,
        {
            if str_eq(self.connections[i].0.as_str(), name.as_str()) {
                assert(find_index(self.connections@, name@) == i);
                self.connections.set(i, (name, connection));
                assert forall|a: int, b: int|
                    0 <= a < b < self.connections@.len() implies self.connections@[a].0@
                    != self.connections@[b].0@ by {
                    assert(old(self).connections@[a].0@ != old(self).connections@[b].0@);
                }
                return ;
            }
            i = i + 1;
        }
        self.connections.push((name, connection));
        assert forall|a: int, b: int|
            0 <= a < b < self.connections@.len() implies self.connections@[a].0@
            != self.connections@[b].0@ by {
            if b < self.connections@.len() - 1 {
                assert(old(self).connections@[a].0@ != old(self).connections@[b].0@);
            } else {
                assert(old(self).connections@[a].0@ != name@);
            }
        }
    }

    /// Removes and returns the connection stored under `name`, if any.
    pub fn remove_connection(&mut self, name: &str) -> (r: Option<Connection>)
        requires
            old(self).wf(),
        ensures
            final(self).wf(),
            final(self).default_connection == old(self).default_connection,
            !old(self).has_name(name@) ==> (r is None && final(self).connections@
                == old(self).connections@),
            old(self).has_name(name@) ==> (r matches Some(c) && c == old(self).connections@[
                find_index(old(self).connections@, name@)
            ].1 && final(self).connections@ =~= old(self).connections@.remove(
                find_index(old(self).connections@, name@),
            )),
    {
        proof {
            lemma_find_index(self.connections@, name@);
        }
        let mut i: usize = 0;
        while i < self.connections.len()
            invariant
                old(self).wf(),
                i <= self.connections@.len(),
                self.connections@ == old(self).connections@,
                self.default_connection == old(self).default_connection,
                forall|j: int| 0 <= j < i ==> self.connections@[j].0@ != name@,
                find_index(self.connections@, name@) == -1 || 0 <= find_index(
                    self.connections@,
                    name@,
                ) < self.connections@.len(),
                find_index(self.connections@, name@) >= 0 ==> self.connections@[
                    find_index(self.connections@, name@)
                ].0@ == name@,
                forall|j: int|
                    0 <= j < self.connections@.len() && (find_index(self.connections@, name@) == -1
                        || j < find_index(self.connections@, name@)) ==> self.connections@[j].0@
                        != name@,
            decreases self.connections@.len() - i,
        {
            if str_eq(self.connections[i].0.as_str(), name) {
                assert(find_index(self.connections@, name@) == i);
                let p = self.connections.remove(i);
                assert forall|a: int, b: int|
                    0 <= a < b < self.connections@.len() implies self.connections@[a].0@
                    != self.connections@[b].0@ by {
                    let sa: int = if a < i { a } else { a + 1 };
                    let sb: int = if b < i { b } else { b + 1 };
                    assert(old(self).connections@[sa].0@ != old(self).connections@[sb].0@);
                }
                return Some(p.1);
            }
            i = i + 1;
        }
        None
    }

    /// Whether the recorded default name no longer matches any connection,
    /// though connections exist — the situation a warning is logged for.
    pub fn default_is_stale(&self) -> (r: bool)
        ensures
            r == (self.connections@.len() > 0 && !self.has_name(self.default_connection@)),
    {
        proof {
            lemma_find_index(self.connections@, self.default_connection@);
        }
        if self.connections.len() == 0 {
            return false;
        }
        match self.get(self.default_connection.clone().as_str()) {
            Some(_) => false,
            None => true,
        }
    }

    /// The connection used when the caller names none: the entry the recorded
    /// default names; if that name is stale, the entry ranked first by name;
    /// none at all only when no connection is configured.
    pub fn get_default_connection(&self) -> (r: Option<ConnectionConfig>)
        ensures
            self.connections@.len() == 0 ==> r is None,
            self.connections@.len() > 0 ==> r is Some,
            self.has_name(self.default_connection@) ==> (r matches Some(cc) && cc.name
                == self.default_connection && cc.connection@ == self.connections@[
                find_index(self.connections@, self.default_connection@)
            ].1@),
            self.connections@.len() > 0 && !self.has_name(self.default_connection@) ==> (
                r matches Some(cc) && {
                    let m = min_name_index(self.names(), self.names().len() as int);
                    &&& cc.name == self.connections@[m].0
                    &&& cc.connection@ == self.connections@[m].1@
                    &&& forall|j: int|
                        0 <= j < self.connections@.len() ==> !chars_lt(self.names()[j], cc.name@)
                }
            ),
    {
        if self.connections.len() == 0 {
            return None;
        }
        proof {
            lemma_find_index(self.connections@, self.default_connection@);
        }
        let named = self.get(self.default_connection.clone().as_str());
        match named {
            Some(c) => Some(
                ConnectionConfig { name: self.default_connection.clone(), connection: c.clone() },
            ),
            None => {
                let ghost names = self.names();
                let mut m: usize = 0;
                let mut i: usize = 1;
                assert(m == min_name_index(names, 1 as int));
                while i < self.connections.len()
                    invariant
                        1 <= i <= self.connections@.len(),
                        m < i,
                        names == self.names(),
                        names.len() == self.connections@.len(),
                        m == min_name_index(names, i as int),
                    decreases self.connections@.len() - i,
                {
                    assert(names[i as int] == self.connections@[i as int].0@);
                    assert(names[m as int] == self.connections@[m as int].0@);
                    if str_lt(self.connections[i].0.as_str(), self.connections[m].0.as_str()) {
                        m = i;
                    }
                    i = i + 1;
                }
                proof {
                    lemma_min_name_index(names, names.len() as int);
                }
                assert(names[m as int] == self.connections@[m as int].0@);
                Some(
                    ConnectionConfig {
                        name: self.connections[m].0.clone(),
                        connection: self.connections[m].1.clone(),
                    },
                )
            },
        }
    }
}

impl Default for Configuration {
    /// An empty configuration: no connections, no default name.
    fn default() -> (r: Self)
        ensures
            r.default_connection@ == Seq::<char>::empty(),
            r.connections@.len() == 0,
            r.wf(),
    {
        Configuration { default_connection: String::new(), connections: Vec::new() }
    }
}

/// The configuration file path the store must use, decided from plain
/// inputs: an explicit override wins when it is set and non-blank but must
/// name an existing path; otherwise the file lives under `.logsh` in the
/// home directory, which must be resolvable.
pub fn resolve_config_path(
    env_override: Option<String>,
    override_exists: bool,
    home_dir: Option<String>,
) -> (r: Result<String, ConfigError>)
    ensures
        env_override matches Some(p) ==> ((trim_spec(p@).len() > 0 && override_exists) ==> (
            r matches Ok(out) && out@ == p@
        )),
        env_override matches Some(p) ==> ((trim_spec(p@).len() > 0 && !override_exists) ==> (
            r matches Err(e) && e is InvalidConfigPath
        )),
        (env_override is None || (env_override matches Some(p) && trim_spec(p@).len() == 0)) ==> {
            &&& (home_dir matches Some(h) ==> (r matches Ok(out) && out@ == h@
                + "/.logsh/logsh-config.json"@))
            &&& (home_dir is None ==> (r matches Err(e) && e == ConfigError::NoHome))
        },
{
    if let Some(p) = env_override {
        let trimmed = trim_str(p.as_str());
        if trimmed.as_str().unicode_len() > 0 {
            if !override_exists {
                let mut msg = p;
                msg.append(" does not exist.");
                return Err(ConfigError::InvalidConfigPath(msg));
            }
            return Ok(p);
        }
    }
    match home_dir {
        Some(h) => {
            let mut out = h;
            out.append("/.logsh/logsh-config.json");
            Ok(out)
        },
        None => Err(ConfigError::NoHome),
    }
}

} // verus!
