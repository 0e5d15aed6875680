//! Bootstrap of a restricted display-server connection for a sandboxed
//! application: capability discovery, listening-endpoint preparation and the
//! security-context handshake, as verified decision logic.

pub mod bootstrap;
pub mod endpoint;
pub mod registry;
pub mod session;
pub mod trace;
