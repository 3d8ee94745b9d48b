//! A PostgreSQL query builder.
//!
//! Expressions and statements are assembled as plain trees and rendered to
//! PostgreSQL text, either with every literal inlined or with the literals
//! collected as positional parameters. The rendering of every tree is given
//! by spec functions, and each writer is proved to produce exactly that text.

pub mod expr;
pub mod func;
pub mod index;
pub mod query;
pub mod render;
pub mod schema;
pub mod table;
pub mod text;
pub mod types;
pub mod value;
pub mod writer;
