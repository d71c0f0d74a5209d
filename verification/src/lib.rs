//! A backup client for mealpedant: it reads its configuration from the
//! environment, asks the backup server for a new backup once a day at a
//! configured local time, and stores the backups that the server sends back.
//!
//! This crate holds the decisions of that client, each with a contract:
//! configuration parsing, the daily schedule, the classification of incoming
//! messages and the framing of outgoing ones.

pub mod app_env;
pub mod app_error;
pub mod digits;
pub mod env_map;
pub mod tz;
pub mod ws_messages;
pub mod cron;
pub mod ws;
