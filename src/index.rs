//! Statements on indexes.
pub mod create;
pub mod drop;

pub use self::create::{CreateIndex, IndexMethod, IndexOption};
pub use self::drop::DropIndex;
