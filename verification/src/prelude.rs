//! What most users of the crate need in scope.

pub use crate::clients::{Error, RequestFactory};
pub use crate::objects::{JsonError, RpcError};
