//! Transaction viewer core: chain registry, request construction, response
//! decoding and report rendering for receipt-style and explorer-style APIs.

pub mod chain;
pub mod explorer;
pub mod json;
pub mod numeric;
pub mod receipt;
pub mod render;
pub mod request;
pub mod response;
pub mod text;
