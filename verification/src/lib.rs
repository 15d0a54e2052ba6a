//! A relay for weather observations.
//!
//! A producer submits one observation per request as a JSON document. The
//! relay checks the shape of the document, encodes the observation again and
//! hands it to a single downstream service; what the downstream service
//! answers, or the failure to reach it, becomes the reply to the producer.
//!
//! This crate holds the decisions: what counts as an observation, what is
//! sent downstream and where, and which reply each outcome gets. It performs
//! no network or environment access itself. A server built on it calls
//! [`relay::dispatch`] for each request, carries out a
//! [`relay::Action::Forward`] if that is the decision, and turns what came
//! back into the reply with [`relay::respond`].

pub mod config;
pub mod forward;
pub mod json;
pub mod observation;
pub mod payload;
pub mod relay;
pub mod response;
pub mod text;
