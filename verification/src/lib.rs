//! Relay between a CI/CD webhook API and a chat interface.
//!
//! A relational store of repos (deployable units, addressed by opaque
//! bearer tokens) and jobs (single deployment runs) is the source of
//! truth.  Webhook handlers authenticate a bearer token, mutate the
//! store and mirror the change to the repo's chat as a formatted
//! notification; a per-chat dialogue state machine registers repos and
//! inspects job history.
//!
//! The store is modelled here as an in-memory value; the surrounding
//! binary mirrors every mutation to the real database and performs the
//! network sends that the handlers request.

pub mod command;
pub mod dialogue;
pub mod error;
pub mod format;
pub mod session;
pub mod status;
pub mod store;
pub mod telemetry;
pub mod text;
pub mod token;
pub mod webhook;
