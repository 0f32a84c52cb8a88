//! Verified core of a small HTTP relay: per-route JSON reshaping between an
//! inbound surface and a fixed upstream text-inference provider, a CORS
//! preflight gate, and response assembly. All I/O stays outside this crate's
//! verified code; the logic here is pure and fully specified.
pub mod adapters;
pub mod cors;
pub mod handler;
pub mod http;
pub mod json;
pub mod laws;
pub mod outside;
