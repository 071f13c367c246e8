//! Synchronisation between the giver device (which serves its data) and baby devices
//! (which push their changes and pull the giver's).
pub mod apply;
pub mod client;
pub mod coordinator;
pub mod discovery;
pub mod merge;
pub mod protocol;
pub mod server;
