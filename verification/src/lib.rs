//! A peer-to-peer overlay coordinator: one node that discovers nearby peers
//! automatically and disseminates short text messages to all of them over a
//! topic-scoped publish/subscribe gossip protocol. The crate holds the
//! coordination logic itself — the event-loop decisions, the explicit-peer
//! bookkeeping driven by discovery, the content-derived message identity, and
//! the non-blocking outbound enqueue — each with a verified contract; the
//! network transports and the runtime that drive it live outside.

pub mod identity;
pub mod laws;
pub mod message_id;
pub mod event_loop;
pub mod events;
pub mod facade;
pub mod peers;
