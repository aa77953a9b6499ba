//! A minimal, embeddable HTTP/1.1 server library: the verified core.
//!
//! The library holds everything that can be stated and proved about the
//! server: the wire enumerations, request-line and header parsing, the
//! header map with last-wins insertion, the route registry with exact-path
//! dispatch, the middleware-chain state machine, and response-head
//! rendering.  Socket, file and thread handling live in the embedding
//! application, which feeds plain values (lines read from a connection)
//! into this crate and writes the rendered bytes back out.

mod app;
mod assoc;
mod chain;
mod error;
mod headers;
mod method;
mod mime;
mod request;
mod response;
mod status;
mod text;

pub use app::App;
pub use app::lemma_register_overwrites;
pub use app::lemma_routing;
pub use app::spec_dispatch;
pub use assoc::key_index;
pub use assoc::lemma_key_index_is;
pub use assoc::lemma_map_of_pairs_absent;
pub use assoc::lemma_map_of_pairs_covers;
pub use assoc::lemma_map_of_pairs_get;
pub use assoc::lemma_map_of_pairs_update;
pub use assoc::map_of_pairs;
pub use chain::ChainDriver;
pub use chain::ChainOutcome;
pub use chain::ChainState;
pub use chain::ChainStep;
pub use chain::chain_dispatches;
pub use chain::chain_init;
pub use chain::chain_run;
pub use chain::chain_running;
pub use chain::chain_step;
pub use chain::lemma_chain_in_order;
pub use chain::lemma_chain_stuck;
pub use chain::lemma_continue_chain_dispatches;
pub use chain::lemma_stop_short_circuits;
pub use chain::step_of;
pub use error::HttpError;
pub use headers::HeaderMap;
pub use method::Method;
pub use method::lemma_parse_method_inverse;
pub use method::lemma_wire_method_inverse;
pub use method::spec_parse_method;
pub use mime::MimeType;
pub use request::HttpRequest;
pub use request::get_req;
pub use request::lemma_last_duplicate_wins;
pub use request::lemma_no_colon_ignored;
pub use request::spec_get_req;
pub use request::spec_headers_from;
pub use request::spec_parse_headers;
pub use response::HttpResponse;
pub use response::spec_byte_len;
pub use response::spec_render_headers;
pub use response::spec_res_head;
pub use status::Status;
pub use text::dec_string;
pub use text::is_blank_line;
pub use text::spec_dec;
pub use text::spec_split3;
pub use text::spec_split_header_line;
pub use text::spec_trim;
pub use text::split3;
pub use text::split_header_line;
pub use text::str_eq;
pub use text::trim_str;
