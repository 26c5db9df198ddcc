//! Client-side session logic for the Discord gateway: a persistent,
//! event-driven protocol over one long-lived websocket.
//!
//! The crate decides; it does not perform. It owns neither socket nor clock.
//! Its caller opens the transport, sends what the gateway asks to be sent,
//! and hands in what arrived and what time it is. In return every decision is
//! a function of plain values with a contract that the verifier has checked:
//!
//! * [`codec`] turns text frames into envelopes and back, with `serde_json`
//!   behind the boundary in [`json`];
//! * [`signal`] reads what an envelope means to the session;
//! * [`heartbeat`] schedules heartbeats and notices a dead connection;
//! * [`reconnect`] classifies close codes and spaces out reconnects;
//! * [`gateway`] is the session state machine, proved to take exactly the
//!   steps of the mathematical [`model`];
//! * [`laws`] states what holds across steps;
//! * [`subscriber`] picks the application's handler for an event;
//! * [`snowflake`], [`intents`] and [`user`] are the value types around it.

pub mod codec;
pub mod error;
pub mod event;
pub mod gateway;
pub mod heartbeat;
pub mod intents;
pub mod json;
pub mod laws;
pub mod model;
pub mod opcode;
pub mod outbound;
pub mod reconnect;
pub mod signal;
pub mod snowflake;
pub mod subscriber;
pub mod user;
