//! A toolkit for building Torznab indexer backends.
//!
//! The library normalizes and validates incoming search requests, gates
//! them on an optional host-supplied credential check, and renders the
//! server's capability declarations and search results as Torznab XML.
//! The HTTP layer is left to the host program: it hands raw query
//! parameters to [`api::handle_search`] / [`api::handle_caps`] and sends
//! the returned [`data::Response`] back to the client.

pub mod api;
pub mod caps_xml;
pub mod data;
pub mod dummy;
pub mod feed_xml;
pub mod text;
pub mod xml_emit;
