//! Statements on tables.
pub mod alter;
pub mod column;
pub mod create;
pub mod drop;

pub use self::alter::{AddColumnOption, AlterTable, DropColumnOption, TableAlterOption};
pub use self::column::{ColumnDef, ColumnSpec, ColumnType, GeneratedColumn, GeneratedColumnKind};
pub use self::create::CreateTable;
pub use self::drop::DropTable;
