//! A verified gateway core for a land-title registry: session key custody,
//! signed transaction construction, receipt resolution and request routing.

pub mod hex;
pub mod error;
pub mod session;
pub mod crypto;
pub mod encoding;
pub mod tx;
pub mod registry;
pub mod gateway;
pub mod route;
