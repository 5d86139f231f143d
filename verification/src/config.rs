//! Saved connection configuration.
//!
//! Connections carry a generated id, host data, an authentication method and
//! bookkeeping timestamps (held as milliseconds since the Unix epoch).  The
//! configuration file keeps the connections, group names and a most-recent
//! list capped at ten entries.

use vstd::prelude::*;
use vstd::string::StringSliceAdditionalSpecFns;
use crate::util::{lower_bytes, lower_bytes_of, now_ms, spec_contains, str_eq, utf8_lossy_of};

verus! {

/// Current configuration version.
pub const CONFIG_VERSION: u32 = 1;

/// Authentication method for saved connections.
#[derive(Debug, Clone, PartialEq)]
pub enum SavedAuth {
    /// Password stored in the system keychain.
    Password { keychain_id: String },
    /// SSH key file.
    Key { key_path: String, has_passphrase: bool, passphrase_keychain_id: Option<String> },
    /// Use the SSH agent.
    Agent,
    /// SSH certificate authentication.
    Certificate {
        key_path: String,
        cert_path: String,
        has_passphrase: bool,
        passphrase_keychain_id: Option<String>,
    },
}

/// Proxy hop for multi-hop connections.
#[derive(Debug, Clone, PartialEq)]
pub struct ProxyHopConfig {
    pub host: String,
    pub port: u16,
    pub username: String,
    pub auth: SavedAuth,
}

/// Connection options.
#[derive(Debug, Clone, PartialEq)]
pub struct ConnectionOptions {
    /// Keep-alive interval in seconds (0 = disabled).
    pub keep_alive_interval: u32,
    /// Enable compression.
    pub compression: bool,
    /// Legacy jump host reference.
    pub jump_host: Option<String>,
    /// Custom terminal type.
    pub term_type: Option<String>,
}

impl Default for ConnectionOptions {
    /// All options off.
    fn default() -> (r: Self)
        ensures
            r.keep_alive_interval == 0,
            !r.compression,
            r.jump_host is None,
            r.term_type is None,
    {
        ConnectionOptions {
            keep_alive_interval: 0,
            compression: false,
            jump_host: None,
            term_type: None,
        }
    }
}

/// Relies on `uuid::Uuid::new_v4` and its `Display` form: a random
/// identifier rendered in the hyphenated format, which is 36 characters.
/// Nothing else is promised of the value.
#[verifier::external_body]
pub(crate) fn new_uuid_string() -> (r: String)
    ensures
        r@.len() == 36,
{
    uuid::Uuid::new_v4().to_string()
}

/// A saved connection configuration.
#[derive(Debug, Clone)]
pub struct SavedConnection {
    /// Unique identifier.
    pub id: String,
    /// Configuration version.
    pub version: u32,
    /// Display name.
    pub name: String,
    /// Group name for organization.
    pub group: Option<String>,
    /// SSH host.
    pub host: String,
    /// SSH port.
    pub port: u16,
    /// SSH username.
    pub username: String,
    /// Authentication method.
    pub auth: SavedAuth,
    /// Connection options.
    pub options: ConnectionOptions,
    /// Creation time, milliseconds since the Unix epoch.
    pub created_at_ms: u64,
    /// Last use, milliseconds since the Unix epoch.
    pub last_used_at_ms: Option<u64>,
    /// Custom color for the UI.
    pub color: Option<String>,
    /// Tags for filtering.
    pub tags: Vec<String>,
    /// Intermediate jump hosts; the target stays in the fields above.
    pub proxy_chain: Vec<ProxyHopConfig>,
}

/// The fresh-connection fields shared by the constructors.
pub open spec fn fresh_connection_fields(
    c: SavedConnection,
    name: Seq<char>,
    host: Seq<char>,
    port: u16,
    username: Seq<char>,
) -> bool {
    &&& c.id@.len() == 36
    &&& c.version == CONFIG_VERSION
    &&& c.name@ == name
    &&& c.group is None
    &&& c.host@ == host
    &&& c.port == port
    &&& c.username@ == username
    &&& c.options.keep_alive_interval == 0
    &&& !c.options.compression
    &&& c.options.jump_host is None
    &&& c.options.term_type is None
    &&& c.last_used_at_ms is None
    &&& c.color is None
    &&& c.tags@ =~= Seq::<String>::empty()
    &&& c.proxy_chain@ =~= Seq::<ProxyHopConfig>::empty()
}

impl SavedConnection {
    /// A new connection with password auth: the password itself lives in the
    /// keychain under the given id.
    pub fn new_password(name: &str, host: &str, port: u16, username: &str, keychain_id: &str)
        -> (r: Self)
        ensures
            fresh_connection_fields(r, name@, host@, port, username@),
            r.auth matches SavedAuth::Password { keychain_id: k } && k@ == keychain_id@,
    {
        SavedConnection {
            id: new_uuid_string(),
            version: CONFIG_VERSION,
            name: name.to_owned(),
            group: None,
            host: host.to_owned(),
            port,
            username: username.to_owned(),
            auth: SavedAuth::Password { keychain_id: keychain_id.to_owned() },
            options: ConnectionOptions::default(),
            created_at_ms: now_ms(),
            last_used_at_ms: None,
            color: None,
            tags: Vec::new(),
            proxy_chain: Vec::new(),
        }
    }

    /// A new connection with key auth, no passphrase recorded.
    pub fn new_key(name: &str, host: &str, port: u16, username: &str, key_path: &str) -> (r: Self)
        ensures
            fresh_connection_fields(r, name@, host@, port, username@),
            r.auth matches SavedAuth::Key {
                key_path: k,
                has_passphrase: false,
                passphrase_keychain_id: None,
            } && k@ == key_path@,
    {
        SavedConnection {
            id: new_uuid_string(),
            version: CONFIG_VERSION,
            name: name.to_owned(),
            group: None,
            host: host.to_owned(),
            port,
            username: username.to_owned(),
            auth: SavedAuth::Key {
                key_path: key_path.to_owned(),
                has_passphrase: false,
                passphrase_keychain_id: None,
            },
            options: ConnectionOptions::default(),
            created_at_ms: now_ms(),
            last_used_at_ms: None,
            color: None,
            tags: Vec::new(),
            proxy_chain: Vec::new(),
        }
    }

    /// Stamp the last-used time with the wall clock.
    pub fn touch(&mut self)
        ensures
            final(self).last_used_at_ms is Some,
            *final(self) == (SavedConnection {
                last_used_at_ms: final(self).last_used_at_ms,
                ..*old(self)
            }),
    {
        self.last_used_at_ms = Some(now_ms());
    }

    /// The display text: `user@host`, with `:port` appended for a port other
    /// than 22.
    pub open spec fn spec_display(&self) -> Seq<u8> {
        if self.port == 22 {
            vstd::utf8::encode_utf8(self.username@) + "@".spec_bytes() + vstd::utf8::encode_utf8(
                self.host@,
            )
        } else {
            vstd::utf8::encode_utf8(self.username@) + "@".spec_bytes() + vstd::utf8::encode_utf8(
                self.host@,
            ) + ":".spec_bytes() + crate::util::dec_bytes(self.port as int)
        }
    }

    /// Get the display string: `user@host` or `user@host:port`.
    pub fn display_string(&self) -> (r: String)
        ensures
            r@ == utf8_lossy_of(self.spec_display()),
    {
        let mut buf: Vec<u8> = Vec::new();
        buf.extend_from_slice(self.username.as_str().as_bytes());
        buf.extend_from_slice("@".as_bytes());
        buf.extend_from_slice(self.host.as_str().as_bytes());
        if self.port != 22 {
            buf.extend_from_slice(":".as_bytes());
            let digits = crate::util::u64_to_dec(self.port as u64);
            buf.extend_from_slice(digits.as_slice());
        }
        proof {
            assert(buf@ =~= self.spec_display());
        }
        crate::util::lossy_string(buf.as_slice())
    }
}

/// First index of the connection with the given id, if any, from `k` on.
pub open spec fn find_conn(s: Seq<SavedConnection>, id: Seq<char>, k: int) -> Option<int>
    decreases s.len() - k,
{
    if k < 0 || k >= s.len() {
        None
    } else if s[k].id@ == id {
        Some(k)
    } else {
        find_conn(s, id, k + 1)
    }
}

/// The connections with a different id, in order.
pub open spec fn drop_conn(
    s: Seq<SavedConnection>,
    id: Seq<char>,
    k: int,
    acc: Seq<SavedConnection>,
) -> Seq<SavedConnection>
    decreases s.len() - k,
{
    if k < 0 || k >= s.len() {
        acc
    } else if s[k].id@ == id {
        drop_conn(s, id, k + 1, acc)
    } else {
        drop_conn(s, id, k + 1, acc.push(s[k]))
    }
}

/// The recent ids other than `id`, in order.
pub open spec fn drop_recent(s: Seq<String>, id: Seq<char>, k: int, acc: Seq<String>) -> Seq<
    String,
>
    decreases s.len() - k,
{
    if k < 0 || k >= s.len() {
        acc
    } else if s[k]@ == id {
        drop_recent(s, id, k + 1, acc)
    } else {
        drop_recent(s, id, k + 1, acc.push(s[k]))
    }
}

/// Root configuration file structure.
#[derive(Debug, Clone)]
pub struct ConfigFile {
    /// Configuration version.
    pub version: u32,
    /// Saved connections.
    pub connections: Vec<SavedConnection>,
    /// Connection groups, for ordering.
    pub groups: Vec<String>,
    /// Recently used connection ids, most recent first, at most ten.
    pub recent: Vec<String>,
}

impl Default for ConfigFile {
    /// An empty configuration at the current version.
    fn default() -> (r: Self)
        ensures
            r.version == CONFIG_VERSION,
            r.connections@ =~= Seq::<SavedConnection>::empty(),
            r.groups@ =~= Seq::<String>::empty(),
            r.recent@ =~= Seq::<String>::empty(),
    {
        ConfigFile {
            version: CONFIG_VERSION,
            connections: Vec::new(),
            groups: Vec::new(),
            recent: Vec::new(),
        }
    }
}

impl ConfigFile {
    /// Add a connection, replacing any existing one with the same id.
    pub fn add_connection(&mut self, connection: SavedConnection)
        ensures
            final(self).connections@ == drop_conn(
                old(self).connections@,
                connection.id@,
                0,
                Seq::empty(),
            ).push(connection),
            final(self).version == old(self).version,
            final(self).groups == old(self).groups,
            final(self).recent == old(self).recent,
    {
        let ghost orig = self.connections@;
        let mut rest: Vec<SavedConnection> = Vec::new();
        core::mem::swap(&mut rest, &mut self.connections);
        proof {
            assert(self.connections@ =~= Seq::<SavedConnection>::empty());
            assert(rest@ =~= orig.skip(0));
        }
        let ghost mut j: int = 0;
        while rest.len() > 0
            invariant
                0 <= j <= orig.len(),
                rest@ == orig.skip(j),
                self.version == old(self).version,
                self.groups == old(self).groups,
                self.recent == old(self).recent,
                drop_conn(orig, connection.id@, 0, Seq::empty()) == drop_conn(
                    orig,
                    connection.id@,
                    j,
                    self.connections@,
                ),
            decreases rest@.len(),
        {
            let c = rest.remove(0);
            proof {
                assert(orig.skip(j)[0] == orig[j]);
                assert(c == orig[j]);
            }
            if !str_eq(c.id.as_str(), connection.id.as_str()) {
                self.connections.push(c);
            }
            proof {
                assert(rest@ =~= orig.skip(j + 1));
                j = j + 1;
            }
        }
        self.connections.push(connection);
    }

    /// Remove the first connection with this id, dropping it from the recent
    /// list too; with no such connection nothing changes.
    pub fn remove_connection(&mut self, id: &str) -> (r: Option<SavedConnection>)
        ensures
            final(self).version == old(self).version,
            final(self).groups == old(self).groups,
            match find_conn(old(self).connections@, id@, 0) {
                Some(i) => r == Some(old(self).connections@[i]) && final(self).connections@
                    == old(self).connections@.remove(i) && final(self).recent@ == drop_recent(
                    old(self).recent@,
                    id@,
                    0,
                    Seq::empty(),
                ),
                None => r is None && *final(self) == *old(self),
            },
    {
        let mut pos: usize = 0;
        let mut found = false;
        let n = self.connections.len();
        while pos < n
            invariant_except_break
                0 <= pos <= self.connections@.len(),
                !found,
                find_conn(self.connections@, id@, 0) == find_conn(
                    self.connections@,
                    id@,
                    pos as int,
                ),
            invariant
                *self == *old(self),
                n == self.connections@.len(),
            ensures
                found ==> pos < n && find_conn(self.connections@, id@, 0) == Some(pos as int),
                !found ==> find_conn(self.connections@, id@, 0) is None,
            decreases n - pos,
        {
            if str_eq(self.connections[pos].id.as_str(), id) {
                found = true;
                break;
            }
            pos = pos + 1;
        }
        if !found {
            return None;
        }
        let ghost origr = self.recent@;
        let mut rest: Vec<String> = Vec::new();
        core::mem::swap(&mut rest, &mut self.recent);
        proof {
            assert(self.recent@ =~= Seq::<String>::empty());
            assert(rest@ =~= origr.skip(0));
        }
        let ghost mut j: int = 0;
        while rest.len() > 0
            invariant
                0 <= j <= origr.len(),
                rest@ == origr.skip(j),
                self.connections == old(self).connections,
                self.groups == old(self).groups,
                self.version == old(self).version,
                drop_recent(origr, id@, 0, Seq::empty()) == drop_recent(
                    origr,
                    id@,
                    j,
                    self.recent@,
                ),
            decreases rest@.len(),
        {
            let s = rest.remove(0);
            proof {
                assert(origr.skip(j)[0] == origr[j]);
                assert(s == origr[j]);
            }
            if !str_eq(s.as_str(), id) {
                self.recent.push(s);
            }
            proof {
                assert(rest@ =~= origr.skip(j + 1));
                j = j + 1;
            }
        }
        Some(self.connections.remove(pos))
    }

    /// Borrow the first connection with this id, if any.
    pub fn get_connection(&self, id: &str) -> (r: Option<&SavedConnection>)
        ensures
            match find_conn(self.connections@, id@, 0) {
                Some(i) => r matches Some(c) && *c == self.connections@[i],
                None => r is None,
            },
    {
        let mut pos: usize = 0;
        let n = self.connections.len();
        while pos < n
            invariant
                0 <= pos <= self.connections@.len(),
                n == self.connections@.len(),
                find_conn(self.connections@, id@, 0) == find_conn(
                    self.connections@,
                    id@,
                    pos as int,
                ),
            decreases n - pos,
        {
            if str_eq(self.connections[pos].id.as_str(), id) {
                return Some(&self.connections[pos]);
            }
            pos = pos + 1;
        }
        None
    }

    /// Mark a connection as recently used: its id moves to the front of the
    /// recent list, the list keeps at most ten entries, and the connection's
    /// last-used time is stamped.
    pub fn mark_used(&mut self, id: &str)
        ensures
            final(self).version == old(self).version,
            final(self).groups == old(self).groups,
            ({
                let cleaned = drop_recent(old(self).recent@, id@, 0, Seq::empty());
                let pushed = seq![final(self).recent@[0]].add(cleaned);
                &&& final(self).recent@.len() <= 10
                &&& final(self).recent@[0]@ == id@
                &&& final(self).recent@ == pushed.take(
                    if pushed.len() <= 10 {
                        pushed.len() as int
                    } else {
                        10
                    },
                )
            }),
            match find_conn(old(self).connections@, id@, 0) {
                Some(i) => final(self).connections@.len() == old(self).connections@.len()
                    && final(self).connections@[i].last_used_at_ms is Some && final(self).connections@[i] == (SavedConnection {
                    last_used_at_ms: final(self).connections@[i].last_used_at_ms,
                    ..old(self).connections@[i]
                }) && forall|k: int|
                    0 <= k < old(self).connections@.len() && k != i ==> final(self).connections@[k] == old(self).connections@[k],
                None => final(self).connections == old(self).connections,
            },
    {
        let ghost origr = self.recent@;
        let mut rest: Vec<String> = Vec::new();
        core::mem::swap(&mut rest, &mut self.recent);
        proof {
            assert(self.recent@ =~= Seq::<String>::empty());
            assert(rest@ =~= origr.skip(0));
        }
        let ghost mut j: int = 0;
        while rest.len() > 0
            invariant
                0 <= j <= origr.len(),
                rest@ == origr.skip(j),
                self.connections == old(self).connections,
                self.groups == old(self).groups,
                self.version == old(self).version,
                drop_recent(origr, id@, 0, Seq::empty()) == drop_recent(
                    origr,
                    id@,
                    j,
                    self.recent@,
                ),
            decreases rest@.len(),
        {
            let s = rest.remove(0);
            proof {
                assert(origr.skip(j)[0] == origr[j]);
                assert(s == origr[j]);
            }
            if !str_eq(s.as_str(), id) {
                self.recent.push(s);
            }
            proof {
                assert(rest@ =~= origr.skip(j + 1));
                j = j + 1;
            }
        }
        self.recent.insert(0, id.to_owned());
        self.recent.truncate(10);
        proof {
            let cleaned = drop_recent(origr, id@, 0, Seq::empty());
            let pushed = seq![self.recent@[0]].add(cleaned);
            assert(self.recent@ =~= pushed.take(
                if pushed.len() <= 10 {
                    pushed.len() as int
                } else {
                    10
                },
            ));
        }
        let mut pos: usize = 0;
        let n = self.connections.len();
        while pos < n
            invariant_except_break
                0 <= pos <= self.connections@.len(),
                find_conn(self.connections@, id@, 0) == find_conn(
                    self.connections@,
                    id@,
                    pos as int,
                ),
            invariant
                n == self.connections@.len(),
                self.connections == old(self).connections,
                self.groups == old(self).groups,
                self.version == old(self).version,
                self.recent@.len() <= 10,
                self.recent@[0]@ == id@,
                ({
                    let cleaned = drop_recent(old(self).recent@, id@, 0, Seq::empty());
                    let pushed = seq![self.recent@[0]].add(cleaned);
                    self.recent@ == pushed.take(
                        if pushed.len() <= 10 {
                            pushed.len() as int
                        } else {
                            10
                        },
                    )
                }),
            ensures
                (pos < n && find_conn(self.connections@, id@, 0) == Some(pos as int)) || (pos
                    == n && find_conn(self.connections@, id@, 0) is None),
            decreases n - pos,
        {
            if str_eq(self.connections[pos].id.as_str(), id) {
                break;
            }
            pos = pos + 1;
        }
        if pos < n {
            let mut c = self.connections.remove(pos);
            c.touch();
            self.connections.insert(pos, c);
            proof {
                assert(self.connections@ =~= old(self).connections@.update(
                    pos as int,
                    self.connections@[pos as int],
                ));
            }
        }
    }
}

} // verus!

verus! {

/// The recent connections resolved against the connection list, keeping
/// order, at most `limit` ids considered, unknown ids skipped.
pub open spec fn recent_conns(
    conns: Seq<SavedConnection>,
    recent: Seq<String>,
    k: int,
    limit: int,
    acc: Seq<SavedConnection>,
) -> Seq<SavedConnection>
    decreases recent.len() - k,
{
    if k < 0 || k >= recent.len() || k >= limit {
        acc
    } else {
        match find_conn(conns, recent[k]@, 0) {
            Some(i) => recent_conns(conns, recent, k + 1, limit, acc.push(conns[i])),
            None => recent_conns(conns, recent, k + 1, limit, acc),
        }
    }
}

/// The connections in a group (or ungrouped, for `None`), in order.
pub open spec fn group_filter(
    conns: Seq<SavedConnection>,
    group: Option<Seq<char>>,
    k: int,
    acc: Seq<SavedConnection>,
) -> Seq<SavedConnection>
    decreases conns.len() - k,
{
    if k < 0 || k >= conns.len() {
        acc
    } else {
        let matches_group = match (conns[k].group, group) {
            (Some(a), Some(b)) => a@ == b,
            (None, None) => true,
            _ => false,
        };
        if matches_group {
            group_filter(conns, group, k + 1, acc.push(conns[k]))
        } else {
            group_filter(conns, group, k + 1, acc)
        }
    }
}

/// Whether a connection matches a lower-cased query: its lower-cased name,
/// host or username contains it.
pub open spec fn matches_query(c: SavedConnection, qlow: Seq<u8>) -> bool {
    ||| spec_contains(lower_bytes_of(vstd::utf8::encode_utf8(c.name@)), qlow)
    ||| spec_contains(lower_bytes_of(vstd::utf8::encode_utf8(c.host@)), qlow)
    ||| spec_contains(lower_bytes_of(vstd::utf8::encode_utf8(c.username@)), qlow)
}

/// The connections matching a lower-cased query, in order.
pub open spec fn search_filter(
    conns: Seq<SavedConnection>,
    qlow: Seq<u8>,
    k: int,
    acc: Seq<SavedConnection>,
) -> Seq<SavedConnection>
    decreases conns.len() - k,
{
    if k < 0 || k >= conns.len() {
        acc
    } else if matches_query(conns[k], qlow) {
        search_filter(conns, qlow, k + 1, acc.push(conns[k]))
    } else {
        search_filter(conns, qlow, k + 1, acc)
    }
}

/// The values behind a list of borrowed connections.
pub open spec fn deref_conns(s: Seq<&SavedConnection>) -> Seq<SavedConnection> {
    s.map_values(|c: &SavedConnection| *c)
}

impl ConfigFile {
    /// The most recently used connections, most recent first, at most
    /// `limit` of them; ids without a connection are skipped.
    pub fn get_recent(&self, limit: usize) -> (r: Vec<&SavedConnection>)
        ensures
            deref_conns(r@) == recent_conns(
                self.connections@,
                self.recent@,
                0,
                limit as int,
                Seq::empty(),
            ),
    {
        let mut out: Vec<&SavedConnection> = Vec::new();
        proof {
            assert(deref_conns(out@) =~= Seq::<SavedConnection>::empty());
        }
        let mut k: usize = 0;
        while k < self.recent.len() && k < limit
            invariant
                0 <= k <= self.recent@.len(),
                recent_conns(self.connections@, self.recent@, 0, limit as int, Seq::empty())
                    == recent_conns(
                    self.connections@,
                    self.recent@,
                    k as int,
                    limit as int,
                    deref_conns(out@),
                ),
            decreases self.recent@.len() - k,
        {
            match self.get_connection(self.recent[k].as_str()) {
                Some(c) => {
                    let ghost prev = deref_conns(out@);
                    out.push(c);
                    proof {
                        assert(deref_conns(out@) =~= prev.push(*c));
                    }
                },
                None => {},
            }
            k = k + 1;
        }
        out
    }

    /// The connections in a group; `None` selects the ungrouped ones.
    pub fn get_by_group(&self, group: Option<&str>) -> (r: Vec<&SavedConnection>)
        ensures
            deref_conns(r@) == group_filter(
                self.connections@,
                match group {
                    Some(g) => Some(g@),
                    None => None,
                },
                0,
                Seq::empty(),
            ),
    {
        let ghost g = match group {
            Some(g) => Some(g@),
            None => None,
        };
        let mut out: Vec<&SavedConnection> = Vec::new();
        proof {
            assert(deref_conns(out@) =~= Seq::<SavedConnection>::empty());
        }
        let mut k: usize = 0;
        let n = self.connections.len();
        while k < n
            invariant
                0 <= k <= self.connections@.len(),
                n == self.connections@.len(),
                g == match group {
                    Some(g2) => Some(g2@),
                    None => None::<Seq<char>>,
                },
                group_filter(self.connections@, g, 0, Seq::empty()) == group_filter(
                    self.connections@,
                    g,
                    k as int,
                    deref_conns(out@),
                ),
            decreases n - k,
        {
            let c = &self.connections[k];
            let matches_group = match (&c.group, group) {
                (Some(a), Some(b)) => str_eq(a.as_str(), b),
                (None, None) => true,
                _ => false,
            };
            if matches_group {
                let ghost prev = deref_conns(out@);
                out.push(c);
                proof {
                    assert(deref_conns(out@) =~= prev.push(*c));
                }
            }
            k = k + 1;
        }
        out
    }

    /// Search connections by name, host or username, case-insensitively.
    pub fn search(&self, query: &str) -> (r: Vec<&SavedConnection>)
        ensures
            deref_conns(r@) == search_filter(
                self.connections@,
                lower_bytes_of(query.spec_bytes()),
                0,
                Seq::empty(),
            ),
    {
        let qlow = lower_bytes(query);
        let mut out: Vec<&SavedConnection> = Vec::new();
        proof {
            assert(deref_conns(out@) =~= Seq::<SavedConnection>::empty());
        }
        let mut k: usize = 0;
        let n = self.connections.len();
        while k < n
            invariant
                0 <= k <= self.connections@.len(),
                n == self.connections@.len(),
                qlow@ == lower_bytes_of(query.spec_bytes()),
                search_filter(self.connections@, qlow@, 0, Seq::empty()) == search_filter(
                    self.connections@,
                    qlow@,
                    k as int,
                    deref_conns(out@),
                ),
            decreases n - k,
        {
            let c = &self.connections[k];
            let name_low = lower_bytes(c.name.as_str());
            let host_low = lower_bytes(c.host.as_str());
            let user_low = lower_bytes(c.username.as_str());
            let hit = crate::util::contains_sub(name_low.as_slice(), qlow.as_slice())
                || crate::util::contains_sub(host_low.as_slice(), qlow.as_slice())
                || crate::util::contains_sub(user_low.as_slice(), qlow.as_slice());
            if hit {
                let ghost prev = deref_conns(out@);
                out.push(c);
                proof {
                    assert(deref_conns(out@) =~= prev.push(*c));
                }
            }
            k = k + 1;
        }
        out
    }
}

} // verus!

verus! {

/// The default SSH port.
pub fn default_port() -> (r: u16)
    ensures
        r == 22,
{
    22
}

} // verus!
