//! Statements on schemas.
pub mod drop;

pub use self::drop::DropSchema;
