//! Response-format negotiation and rendering for a small greeting service.
//!
//! The service answers with the machine's host name, the caller's user agent
//! and, for the echo route, the caller's JSON payload, either as a JSON object
//! or as an HTML page. This library decides between the two and builds both,
//! on plain values: reading requests and sending replies is left to the
//! program around it.
//!
//! - [`negotiation`] decides the format of a reply, with [`text`] for the
//!   search in the `Accept` header.
//! - [`render`] builds the body in either format, with [`markup`] for the
//!   HTML page and [`json`] for JSON values and their texts.
//! - [`routes`] and [`form`] are the service's routes, [`response`] what they
//!   return and [`error`] what they fail with.
//! - [`hostname`] looks the host name up once and keeps it.
//! - [`logging`] lays out log lines.

pub mod error;
pub mod form;
pub mod hostname;
pub mod json;
pub mod logging;
pub mod markup;
pub mod negotiation;
pub mod render;
pub mod response;
pub mod routes;
pub mod text;
