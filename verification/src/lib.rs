//! Decision logic for a live vehicle-position feed: scraping the session
//! fields from a kiosk page, decoding pushed payloads, and the connection and
//! keep-alive state machines.  Network I/O is left to the caller; every
//! function here is a verified transform on plain values.

pub mod codec;
pub mod connection;
pub mod decoder;
pub mod feed;
pub mod keepalive;
pub mod pattern;
pub mod session;
