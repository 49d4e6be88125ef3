//! Client library for a healthcare pricing and procedure-likelihood web
//! service.
//!
//! The library validates caller-supplied parameters before they leave the
//! process, builds the request URL, and maps HTTP status codes and decoded
//! error payloads into a typed error with a retry classification. The HTTP
//! transport and the JSON codec are external collaborators: the transport
//! sends a request and hands back a status code and a body, and the codec
//! turns bodies into the plain data types declared here.

use vstd::prelude::*;

pub mod client;
pub mod error;
pub mod models;
pub mod pricing;
pub mod procedures;
pub mod strings;
pub mod transport;
pub mod validate;

pub use client::DocarooClient;
pub use error::DocarooError;

verus! {

/// The base URL that clients use when no other is configured.
pub const API_BASE_URL: &'static str = "https://care-navigation-gateway-ccg16t89.wl.gateway.dev";

} // verus!
