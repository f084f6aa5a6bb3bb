//! A verified core for a contact-form mail relay.
//!
//! The relay accepts one four-field form submission, forwards it as a
//! transactional-email request to a mail-sending provider, and maps the
//! provider's answer back into a client-facing response.  Everything the
//! relay decides or computes lives here: configuration validation, outbound
//! request composition, parsing of the provider's JSON error body, and the
//! mapping from upstream outcome to relay response.  The HTTP edges (the
//! listener and the outbound call) live outside, hand this library plain
//! values, and take plain values back.

pub mod config;
pub mod errorbody;
pub mod outcome;
pub mod submission;
