//! The protocol's commands: what each decides, before and after the work it
//! hands to the document store.
pub mod gate;
pub mod session_cmds;
pub mod info_cmds;
pub mod views;
pub mod message_cmds;
pub mod args;
pub mod compose_cmds;
pub mod bulk_cmds;
pub mod query_cmds;
pub mod mailbox_cmds;
pub mod user_cmds;
pub mod attach_cmds;
