//! Provider-agnostic chat-completion gateway core.
//!
//! Clients submit one normalized completion request; the gateway resolves
//! which upstream vendor serves the requested model, translates the request
//! into that vendor's wire format, and translates the result back. This
//! crate holds the routing-and-translation layer: the domain model, the
//! provider and key-store ports, the completion dispatcher, and the error
//! taxonomy. HTTP transport, credential storage and process bootstrap live
//! outside it.

pub mod config;
pub mod domain;
pub mod env_key;
pub mod error;
pub mod openai;
pub mod ports;
pub mod rest;
pub mod service;
pub mod text;
