//! Storage core of a local message archive.

pub mod archive;
pub mod catalog;
pub mod chatroom;
pub mod contact;
pub mod database;
pub mod favorite;
pub mod index;
pub mod keyed;
pub mod lock;
pub mod message;
pub mod meta;
pub mod moment;
pub mod payment;
pub mod plan;
pub mod redact;
pub mod relation;
pub mod schema;
pub mod search;
pub mod session;
pub mod source;
pub mod sql;
pub mod tables;
pub mod text;
pub mod thin;
pub mod throttle;
pub mod wal;
pub mod watermark;
pub mod write_lease;
