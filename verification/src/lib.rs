//! Remote-agent core for a terminal/SSH client.
//!
//! The crate models the wire protocol, the RPC transport bookkeeping and the
//! deployment decisions for a small helper binary that runs on a remote host,
//! together with the supporting parsers and registries of the surrounding
//! application.  Asynchronous I/O stays outside; everything here is plain
//! logic with contracts.

pub mod codec;
pub mod config;
pub mod deploy;
pub mod frame;
pub mod health;
pub mod metrics;
pub mod oxide;
pub mod ports;
pub mod rpc;
pub mod search;
pub mod session_state;
pub mod sftp_err;
pub mod transport;
pub mod tree;
pub mod types;
pub mod util;
