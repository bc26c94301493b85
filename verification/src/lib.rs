//! Connection-routing logic of a multi-protocol tunnelling proxy: it names
//! the protocol a client speaks from its first bytes, decides how to serve
//! the connection, runs the SOCKS5 and WebSocket handshakes, and limits the
//! connections per address.

pub mod cli;
pub mod config;
pub mod digest;
pub mod protocol;
pub mod routing;
pub mod security;
pub mod socks5;
pub mod text;
pub mod unicode;
pub mod websocket;
pub mod xhttp;

pub use config::{Config, DEFAULT_STATUS};
pub use protocol::ProtocolDetector;
pub use security::SecurityManager;
pub use xhttp::XHTTPHandler;
