//! Non-blocking TLS stream adapter: drives an in-memory TLS session engine
//! over a transport that may report "would block" at any point, exposing
//! read/write/flush/shutdown operations that never busy-wait.

pub mod connector;
pub mod dns;
pub mod error;
pub mod handshake;
pub mod session;
pub mod state;
pub mod stream;
pub mod transport;

pub use connector::{Accept, ClientConfig, Connect, ServerConfig, TlsAcceptor, TlsConnector};
pub use error::{ProtocolError, TlsError};
pub use handshake::{HandshakePoll, MidHandshake};
pub use session::Session;
pub use state::TlsState;
pub use stream::{FlushResult, Progress, ReadResult, TlsStream, WriteResult};
pub use transport::{IoEvent, MemTransport, WriteEvent};
