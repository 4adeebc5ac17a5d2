//! Session-lock authentication controller.
//!
//! The crate holds the decision logic of a background agent that unlocks a
//! locked workstation session by face recognition: the lock controller, the
//! bounded matching loop, the retry governor, camera backend selection and the
//! text protocol of the local credential channel. Everything that touches a
//! device, a store or the operating system is left to the caller, which feeds
//! the state machines here with events and carries out the actions they return.

pub mod limits;
pub mod governor;
pub mod matching;
pub mod text;
pub mod channel;
pub mod config;
pub mod camera;
pub mod state;
pub mod attempt;
pub mod controller;
pub mod listener;
pub mod lock_retry;
pub mod paths;
