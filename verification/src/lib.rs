//! A write-serialising core for a small "create post" service.
//!
//! One [`handle::StorageHandle`] owns the only connection to an embedded SQLite
//! store. Every write runs inside an immediate transaction
//! ([`transaction::immediate_tx`]) that either commits as a whole or is rolled
//! back, and the handle keeps a ghost journal of the statements it has sent,
//! so that the contracts can say exactly which statements a call sends, in
//! which order, and what becomes of the call for each answer of the store.
//! In front of the handle stands the [`coordinator::WriteCoordinator`], which
//! queues requests and writes them one at a time in the order of acceptance.
pub mod error;
pub mod post;
pub mod journal;
mod sqlite;
pub mod handle;
pub mod transaction;
pub mod validation;
pub mod ingress;
pub mod coordinator;

pub use crate::coordinator::{Completion, Mailbox, Pending, WriteCoordinator};
pub use crate::error::{classify, SqlFailure, StoreError};
pub use crate::post::{NewPost, Post};
pub use crate::handle::{new_conn, Closed, StorageHandle};
pub use crate::ingress::{reject, respond, Response};
pub use crate::transaction::{create_post, immediate_tx, settle, transact};
pub use crate::validation::{validate, verdict, ValidationError};
