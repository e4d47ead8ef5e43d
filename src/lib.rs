//! Client-side orchestration of a guardian's setup protocol: endpoint and
//! argument validation, construction of the authenticated request for each
//! setup operation, the diagnostic `curl` rendering of that request, and the
//! interpretation of what the guardian answered.

mod remote;

pub mod echo;
pub mod error;
pub mod operation;
pub mod outcome;
pub mod laws;

pub use remote::{
    json_string_text, local_params_text, optional_json_text, optional_text, request_text,
    url_parses,
};
