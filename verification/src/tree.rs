//! Session tree request shapes and connection building.
//!
//! The tree commands receive host, port, user and an authentication choice
//! from the caller; building the node connection from them is plain logic
//! and lives here.

use vstd::prelude::*;

verus! {

/// Authentication method for a tree node connection.
#[derive(Debug, Clone, PartialEq)]
pub enum AuthMethod {
    Password { password: String },
    Key { key_path: String, passphrase: Option<String> },
    Agent,
}

/// Connection data of one tree node.
#[derive(Debug, Clone)]
pub struct NodeConnection {
    pub host: String,
    pub port: u16,
    pub username: String,
    pub auth: AuthMethod,
    pub display_name: Option<String>,
}

impl NodeConnection {
    /// A new connection with agent auth and no display name.
    pub fn new(host: String, port: u16, username: String) -> (r: Self)
        ensures
            r.host == host,
            r.port == port,
            r.username == username,
            r.auth == AuthMethod::Agent,
            r.display_name is None,
    {
        NodeConnection { host, port, username, auth: AuthMethod::Agent, display_name: None }
    }
}

/// The default authentication type of a request that names none.
pub fn default_auth_type() -> (r: String)
    ensures
        r@ == "agent"@,
{
    "agent".to_owned()
}

/// Default terminal width.
pub fn default_cols() -> (r: u32)
    ensures
        r == 80,
{
    80
}

/// Default terminal height.
pub fn default_rows() -> (r: u32)
    ensures
        r == 24,
{
    24
}

/// Connect request for a root server.
#[derive(Debug, Clone)]
pub struct ConnectServerRequest {
    pub host: String,
    pub port: u16,
    pub username: String,
    pub auth_type: String,
    pub password: Option<String>,
    pub key_path: Option<String>,
    pub passphrase: Option<String>,
    pub display_name: Option<String>,
}

/// Drill-down request: connect onward from an existing node.
#[derive(Debug, Clone)]
pub struct DrillDownRequest {
    pub parent_node_id: String,
    pub host: String,
    pub port: u16,
    pub username: String,
    pub auth_type: String,
    pub password: Option<String>,
    pub key_path: Option<String>,
    pub passphrase: Option<String>,
    pub display_name: Option<String>,
}

/// One hop of a preset chain.
#[derive(Debug, Clone)]
pub struct HopInfo {
    pub host: String,
    pub port: u16,
    pub username: String,
    pub auth_type: String,
    pub password: Option<String>,
    pub key_path: Option<String>,
    pub passphrase: Option<String>,
}

/// Connect request for a whole preset chain.
#[derive(Debug, Clone)]
pub struct ConnectPresetChainRequest {
    pub saved_connection_id: String,
    pub hops: Vec<HopInfo>,
    pub target: HopInfo,
}

/// Summary of the session tree.
#[derive(Debug, Clone, PartialEq, Eq, Structural)]
pub struct SessionTreeSummary {
    pub total_nodes: usize,
    pub root_count: usize,
    pub connected_count: usize,
    pub max_depth: u32,
}

/// Request to open a terminal on a tree node.
#[derive(Debug, Clone)]
pub struct ConnectTreeNodeRequest {
    pub node_id: String,
    pub cols: u32,
    pub rows: u32,
}

/// Response to a tree node connect.
#[derive(Debug, Clone)]
pub struct ConnectTreeNodeResponse {
    pub node_id: String,
    pub session_id: String,
}

/// Response to connecting a manual preset chain.
#[derive(Debug, Clone)]
pub struct ConnectManualPresetResponse {
    pub node_ids: Vec<String>,
    pub target_node_id: String,
}

/// Request to expand an automatically routed path.
#[derive(Debug, Clone)]
pub struct ExpandAutoRouteRequest {
    pub from_node_id: String,
    pub to_host: String,
}

/// Response to an auto-route expansion.
#[derive(Debug, Clone)]
pub struct ExpandAutoRouteResponse {
    pub target_node_id: String,
    pub route: Vec<String>,
    pub total_cost: u64,
    pub all_node_ids: Vec<String>,
}

/// Build the authentication choice out of request fields: `password` and
/// `key` demand their respective secret or path, `agent` stands alone, and
/// anything else is rejected by name.
pub fn build_auth(
    auth_type: &str,
    password: Option<String>,
    key_path: Option<String>,
    passphrase: Option<String>,
) -> (r: Result<AuthMethod, String>)
    ensures
        auth_type@ == "password"@ ==> (match (r, password) {
            (Ok(AuthMethod::Password { password: p }), Some(given)) => p == given,
            (Err(_), None) => true,
            _ => false,
        }),
        auth_type@ == "key"@ ==> (match (r, key_path) {
            (Ok(AuthMethod::Key { key_path: k, passphrase: pp }), Some(given)) => k == given
                && pp == passphrase,
            (Err(_), None) => true,
            _ => false,
        }),
        auth_type@ == "agent"@ ==> r == Ok::<_, String>(AuthMethod::Agent),
        (auth_type@ != "password"@ && auth_type@ != "key"@ && auth_type@ != "agent"@) ==> r
            is Err,
{
    proof {
        reveal_strlit("password");
        reveal_strlit("key");
        reveal_strlit("agent");
        assert("password"@.len() == 8);
        assert("key"@.len() == 3);
        assert("agent"@.len() == 5);
    }
    if crate::util::str_eq(auth_type, "password") {
        match password {
            Some(pwd) => Ok(AuthMethod::Password { password: pwd }),
            None => Err("Password required for password authentication".to_owned()),
        }
    } else if crate::util::str_eq(auth_type, "key") {
        match key_path {
            Some(path) => Ok(AuthMethod::Key { key_path: path, passphrase }),
            None => Err("Key path required for key authentication".to_owned()),
        }
    } else if crate::util::str_eq(auth_type, "agent") {
        Ok(AuthMethod::Agent)
    } else {
        Err("Unknown auth type".to_owned())
    }
}

/// Assemble a node connection from its parts.
pub fn build_connection(
    host: String,
    port: u16,
    username: String,
    auth: AuthMethod,
    display_name: Option<String>,
) -> (r: NodeConnection)
    ensures
        r.host == host,
        r.port == port,
        r.username == username,
        r.auth == auth,
        r.display_name == display_name,
{
    let mut conn = NodeConnection::new(host, port, username);
    conn.auth = auth;
    conn.display_name = display_name;
    conn
}

/// Convert a topology authentication choice to a session one: passwords are
/// not stored in the topology and are refused, keys need their path, and
/// everything else falls back to the agent.
pub fn topology_auth_to_session_auth(auth_type: &str, key_path: &Option<String>) -> (r: Result<
    AuthMethod,
    String,
>)
    ensures
        auth_type@ == "password"@ ==> r is Err,
        auth_type@ == "key"@ ==> (match (r, key_path) {
            (Ok(AuthMethod::Key { key_path: k, passphrase: None }), Some(given)) => k@ == given@,
            (Err(_), None) => true,
            _ => false,
        }),
        (auth_type@ != "password"@ && auth_type@ != "key"@) ==> r == Ok::<_, String>(
            AuthMethod::Agent,
        ),
{
    proof {
        reveal_strlit("password");
        reveal_strlit("key");
        assert("password"@.len() == 8);
        assert("key"@.len() == 3);
    }
    if crate::util::str_eq(auth_type, "password") {
        Err(
            "Password authentication requires password which is not stored in topology".to_owned(),
        )
    } else if crate::util::str_eq(auth_type, "key") {
        match key_path {
            Some(path) => Ok(AuthMethod::Key { key_path: path.clone(), passphrase: None }),
            None => Err("Key path required for key authentication".to_owned()),
        }
    } else {
        Ok(AuthMethod::Agent)
    }
}

} // verus!
