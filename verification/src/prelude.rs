//! The names that most callers need.

pub use crate::client::response::{Reply, Response};
pub use crate::client::{Client, ClientBuilder, Request, SyncClient};
pub use crate::error::{Error, FaunaError, FaunaErrors};
pub use crate::expr::{Expr, IndexPermission, Level, Object, Ref};
pub use crate::json::Json;
pub use crate::query::write::create_index::{CreateIndex, IndexParams, IndexValue, Term};
pub use crate::query::Query;
