//! Host-side logic of a desktop shell bridge: path classification, the
//! file-selection query against the active shell window, and the checks
//! around outbound HTTP requests.

pub mod envelope;
pub mod paths;
pub mod request;
pub mod selection;
pub mod text;
