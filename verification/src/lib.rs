//! A minimal newsletter-subscription backend: domain validation for
//! subscriber names and email addresses, layered configuration selection,
//! the subscription request pipeline, and the outbound email request
//! builder. The HTTP server, database driver and file readers live outside
//! this crate and exchange plain values with it.

pub mod configuration;
pub mod domain;
pub mod email_client;
pub mod form;
pub mod routes;
