pub mod cache;
pub mod decode;
pub mod errors;
pub mod fetch;
pub mod fingerprint;
pub mod grid;
pub mod hex;
pub mod pipeline;
pub mod reduce;
