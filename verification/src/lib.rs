//! A minimal JSON-RPC 2.0 client core.
//!
//! The crate builds the JSON-RPC request envelope, frames it as a minimal
//! HTTP/1.1 POST over a raw byte stream, and classifies the reply into a
//! decoded JSON value or a typed error. Opening the connection and moving
//! bytes is left to the caller; everything that decides or computes is here,
//! with its contract.

mod address;
mod config;
mod credential;
mod envelope;
mod error;
mod text;
mod transport;

pub use address::ServiceAddress;
pub use address::lemma_normalize_endpoint_idempotent;
pub use address::lemma_trim_leading_idempotent;
pub use address::lemma_trim_trailing_idempotent;
pub use address::normalize_endpoint;
pub use config::ClientConfig;
pub use credential::APIKey;
pub use envelope::Params;
pub use envelope::Request;
pub use envelope::json_quoted;
pub use envelope::lemma_envelope_canonical;
pub use envelope::plain_json_text;
pub use envelope::spec_request_body;
pub use error::JsonRpcError;
pub use text::dec_digits;
pub use text::trim_leading_slashes;
pub use text::trim_trailing_slashes;
pub use transport::ExchangeEvent;
pub use transport::byte_len;
pub use transport::complete_exchange;
pub use transport::find_sep_from;
pub use transport::frame_http_request;
pub use transport::has_sep;
pub use transport::is_sep_at;
pub use transport::is_ws_byte;
pub use transport::json_parses;
pub use transport::lossy_decode;
pub use transport::parse_response;
pub use transport::sep_index;
pub use transport::spec_body_bytes;
pub use transport::spec_body_text;
pub use transport::spec_credential_line;
pub use transport::spec_http_request;
pub use transport::spec_key_view;
pub use transport::trim_trailing_ws;
