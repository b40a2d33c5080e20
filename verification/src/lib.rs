//! Inventory of deployed cloud functions and their tags.
//!
//! The crate holds the verified core of a small command-line tool: it drains
//! two paginated remote listings (function records and tag mappings) under a
//! retry/backoff policy, joins them by the shared function identifier, and
//! prepares the result for display. The remote calls themselves are I/O and
//! live outside this crate; everything that decides, accumulates, joins and
//! orders is here, with contracts.

pub mod cli;
pub mod error;
pub mod filters;
pub mod join;
pub mod model;
pub mod page;
pub mod present;
pub mod retry;
pub mod session;
pub mod strorder;

pub use cli::parse_key_val;
pub use error::Error;
pub use error::ListingError;
pub use error::TaggingError;
pub use filters::TagFilter;
pub use filters::filters;
pub use join::join_functions;
pub use join::tag_keys;
pub use model::Func;
pub use model::FunctionRecord;
pub use model::Tag;
pub use model::TagMapping;
pub use model::human_size_of;
pub use page::PageResult;
pub use page::Paginator;
pub use present::Sort;
pub use present::rows;
pub use present::sort_funcs;
pub use session::GetResourcesRequest;
pub use session::ListFunctionsRequest;
pub use session::PagedSession;
pub use session::listing_request;
pub use session::listing_session;
pub use session::tagging_request;
pub use session::tagging_session;
pub use retry::RetryPolicy;
pub use retry::apply_jitter;
pub use retry::Retryable;
pub use retry::run_retry;
