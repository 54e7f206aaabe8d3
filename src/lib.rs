//! Typed message envelopes for actors that talk to a host runtime.
//!
//! Messages travel as MessagePack maps keyed by field name, so that a field
//! can be added to a schema without breaking peers that were built against
//! an older revision of it. The library has four layers:
//!
//! - the envelope format: `value` (the data model), `wire` (its bytes, as
//!   spec functions, and the round-trip proof) and `envelope` (the encoder
//!   and decoder);
//! - schemas: `schema` (how records are read by field name, with the laws of
//!   schema evolution), `reader` (schemas as a program holds them) and
//!   `message` (typed records and their envelopes);
//! - calls: `dispatch` (operation names bound to handlers) and `host` (calls
//!   to the host runtime);
//! - one module per capability, declaring its operations and schemas.
pub mod bytes;
pub mod dispatch;
pub mod envelope;
pub mod error;
pub mod fieldkit;
pub mod host;
pub mod message;
pub mod reader;
pub mod schema;
pub mod text;
pub mod value;
pub mod wire;

pub mod actor;
pub mod blobstore;
pub mod eventstreams;
pub mod extras;
pub mod graphdb;
pub mod http_client;
pub mod http_server;
pub mod keyvalue;
pub mod logging;
pub mod messaging;
pub mod telnet;
