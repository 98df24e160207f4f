//! Access-gating membership-tier library.
//!
//! The crate models an HTTP gateway that exchanges an OAuth authorization
//! code for an access token, resolves the caller's membership tier against
//! a provider's identity payload, and maps the tier to a configured output
//! value. It also holds the hot-reloadable configuration store and the
//! tier-directory scanner feeding it. Network and file I/O live outside
//! the library; every function here is pure logic with a verified contract.

pub mod config;
pub mod handler;
pub mod resolver;
pub mod scanner;
pub mod text;
pub mod token;
pub mod types;
