//! Composable byte-stream transitions: an upgrade/downgrade lifecycle
//! primitive, a two-armed union stream, and a topology resolver that
//! sequences tunnel and encryption transitions over a raw transport.

pub mod byte_stream;
pub mod errors;
pub mod gradable;
pub mod grader;
pub mod http;
pub mod http_tunnel;
pub mod imap;
pub mod smtp;
pub mod syncable_with_context;
pub mod syncable_with_waker;
pub mod timeoutable;
pub mod tls;
pub mod unionable;
pub mod upgradable;
pub mod upgradable_ext;
