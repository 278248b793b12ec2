pub mod cache;
pub mod classify;
pub mod digest;
pub mod error;
pub mod json;
pub mod node;
pub mod paths;
pub mod resolver;
pub mod responses;
pub mod retry;
pub mod session;
pub mod text;

pub use error::Error;
pub use node::NodeId;
