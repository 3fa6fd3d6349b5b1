pub mod api;
pub mod facade;
pub mod hashing;
pub mod laws;
pub mod prompt;
pub mod status;
pub mod store;
pub mod text;

pub use facade::infer_chain;
pub use facade::query;
pub use facade::query_hash;
pub use facade::InferResult;
pub use prompt::INFER_CHECK_FAIL;
pub use prompt::INFER_CHECK_SUCCESS;
pub use status::InferStatus;
pub use status::LlmError;
