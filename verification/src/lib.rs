//! The core of a peer-to-peer gossip service: which peers are reachable on
//! which protocol, where an outbound message goes, and what becomes of an
//! inbound batch of frames.

pub mod channel;
pub mod driver;
pub mod error;
pub mod event;
pub mod history;
pub mod interface;
pub mod peer_sender;
pub mod protocol;
pub mod service;
pub mod table;
pub mod text;
