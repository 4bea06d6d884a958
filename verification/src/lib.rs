//! Verified core of a mail server that speaks a JSON command protocol.
pub mod text;
pub mod json;
pub mod oid;
pub mod cmd;
pub mod comm;
pub mod session;
pub mod token;
pub mod connection;
pub mod commands;
pub mod timefmt;
pub mod mailbox;
pub mod records;
pub mod router;
pub mod stream;
