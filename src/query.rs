//! Statements that read and change rows.
pub mod conflict;
pub mod delete;
pub mod explain;
pub mod insert;
pub mod order;
pub mod returning;
pub mod select;
pub mod update;
pub mod with;

pub use self::conflict::{OnConflict, OnConflictAction, OnConflictTarget, OnConflictUpdate};
pub use self::delete::Delete;
pub use self::explain::{Explain, ExplainableStatement, IntoExplainable};
pub use self::insert::{Insert, InsertValueSource};
pub use self::order::Order;
pub use self::returning::Returning;
pub use self::update::Update;
pub use self::with::{CommonTableExpression, CteQuery, With};
pub use self::select::{JoinExpr, RowLevelLock, SampleMethod, Select, SelectExpr, TableSample, select};
