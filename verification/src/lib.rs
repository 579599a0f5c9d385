//! Protocol core for a serial-attached WiFi co-processor driven through an
//! AT-command dialect: command encoding, response classification, per-client
//! message queues, and the session state machine that walks the bring-up
//! sequence and the two-phase send handshake.

pub mod clients;
pub mod cmd;
pub mod com;
pub mod handler;
pub mod ip;
pub mod resp;
pub mod serial;
pub mod state;
pub mod time;
pub mod wifi;
