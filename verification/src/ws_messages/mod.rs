//! The messages exchanged with the backup server.
pub mod incoming;
pub mod outgoing;
