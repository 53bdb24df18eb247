//! Interaction tracking for a multi-tenant conversational bot platform.
//!
//! The core of the crate is an event-driven tracking pipeline: producers
//! translate observed message traffic into event envelopes, a single
//! processor applies them to per-session state in arrival order, and a
//! periodic reaper retires idle sessions.  The pipeline state, its
//! transitions and the laws they obey are verified; the surrounding
//! async plumbing and the persistence sink live outside this crate and
//! speak to it through plain values.

pub mod config;
pub mod events;
pub mod interp;
pub mod laws;
pub mod session;
pub mod sink;
pub mod tracker;
