//! Client-side request construction and response parsing for the ip-api.com
//! geolocation service.
//!
//! The library renders the two query modes (single lookup, batch lookup) into
//! plain request descriptors, parses the service's JSON responses into typed
//! success/failure results, and extracts rate-limit metadata from response
//! headers. Transport is left to the caller.

pub mod batch;
pub mod common;
pub mod encode;
pub mod json;
pub mod json_value;
pub mod lang;
pub mod rate_limit;
pub mod response;
