//! Request authentication and validation pipeline for a profile-management
//! API gated by externally issued identity tokens.
//!
//! The library verifies a bearer token's signature, expiry and audience
//! before any handler runs, extracts a trusted identity from the token's
//! claims, deserializes and validates request bodies against declared
//! constraints, and converts every failure in this pipeline into a uniform,
//! client-safe error response.

pub mod auth;
pub mod config;
pub mod errors;
pub mod jwt;
pub mod migrate;
pub mod pipeline;
pub mod profile;
pub mod strutil;
pub mod update_request;
pub mod validated_json;
