//! Protocol engine of a proxy-tunnelled node session: frame parsing, reply
//! construction and the per-message decisions of a session's reader loop.

pub mod inbound;
pub mod laws;
pub mod router;
pub mod session;
pub mod wire;

pub use inbound::{parse_frame, Inbound, ProtocolError};
pub use router::{authority, is_verification, route, Config, Dispatch};
pub use session::{after_push, answer_fetch, fetch_reply, FetchedResponse, Transport, ConfigError, Grass, ReadEvent, ReaderStep};
pub use wire::{auth_frame, decimal, headers_frame, http_reply_frame, ping_frame, pong_frame};
