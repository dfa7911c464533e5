//! Backend core of a desktop HTTP API-testing client.
//!
//! Three independent pieces, each a pure function from plain values to plain
//! values, so that every decision is stated and proved here:
//!
//! * the request executor: turning a method/URL/headers/body tuple into an
//!   outbound request plan, and folding a transport's raw answer into a
//!   normalized response record;
//! * the collection store: deciding what is written to the one collections
//!   file and what a load returns, falling back to a built-in example
//!   document when nothing was ever saved;
//! * a small closed set of error variants with their user-visible messages.
//!
//! All I/O — the network call itself, the file read and write — lives
//! outside this library, in a thin host layer that performs the planned
//! actions and hands the raw outcomes back.

mod errors;
mod executor;
mod headers;
mod method;
mod store;

pub use errors::ApiError;
pub use executor::ApiResponse;
pub use executor::RequestPlan;
pub use executor::collect_response;
pub use executor::lemma_json_content_type_policy;
pub use executor::plan_request;
pub use executor::spec_folded_headers;
pub use executor::spec_given_headers;
pub use executor::spec_payload;
pub use executor::spec_text_or_empty;
pub use headers::HeaderMap;
pub use headers::lemma_distinct_keys_kept;
pub use headers::lemma_last_write_wins;
pub use method::Method;
pub use method::method_of;
pub use store::DEFAULT_COLLECTIONS;
pub use store::SavePlan;
pub use store::collections_file_name;
pub use store::default_collections;
pub use store::default_collections_view;
pub use store::finish_save;
pub use store::lemma_missing_file_yields_default;
pub use store::lemma_save_load_round_trip;
pub use store::load_document;
pub use store::load_view;
pub use store::plan_save;
