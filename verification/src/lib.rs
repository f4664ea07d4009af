//! Local process bridge between a browser-hosted wallet UI and a native
//! application: single-slot mailboxes for cross-listener hand-off, a push
//! channel that drains the payload mailbox, a polling rendezvous for address
//! retrieval, and the gateway decision logic shared by both HTTP listeners.

pub mod gateway;
pub mod mailbox;
pub mod push;
pub mod rendezvous;
pub mod wire;
