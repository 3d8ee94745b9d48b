use pqb::expr::Expr;
use pqb::index::CreateIndex;
use pqb::table::{AlterTable, ColumnDef, ColumnType, CreateTable};

#[test]
fn create_table_basic() {
    assert_eq!(
        CreateTable::new()
            .table("users")
            .column(ColumnDef::new("id").bigint().not_null())
            .column(ColumnDef::new("email").text().not_null())
            .column(ColumnDef::new("nickname").text().null())
            .column(ColumnDef::new("created_at").timestamp_with_time_zone())
            .to_sql(),
        r#"CREATE TABLE "users" ( "id" bigint NOT NULL, "email" text NOT NULL, "nickname" text NULL, "created_at" timestamp with time zone )"#
    );
}

#[test]
fn create_table_if_not_exists_temporary() {
    assert_eq!(
        CreateTable::new()
            .temporary()
            .if_not_exists()
            .table("cache")
            .column(ColumnDef::new("key").text().not_null())
            .column(ColumnDef::new("value").json_binary())
            .to_sql(),
        r#"CREATE TEMPORARY TABLE IF NOT EXISTS "cache" ( "key" text NOT NULL, "value" jsonb )"#
    );
}

#[test]
fn create_table_primary_key_index() {
    assert_eq!(
        CreateTable::new()
            .table("widgets")
            .column(ColumnDef::new("id").integer())
            .column(ColumnDef::new("name").text())
            .primary_key(CreateIndex::new().column("id"))
            .to_sql(),
        r#"CREATE TABLE "widgets" ( "id" integer, "name" text, PRIMARY KEY ("id") )"#
    );
}

#[test]
fn create_table_generated_column() {
    assert_eq!(
        CreateTable::new()
            .table("calc")
            .column(ColumnDef::new("a").integer())
            .column(ColumnDef::new("b").integer())
            .column(
                ColumnDef::new("sum")
                    .integer()
                    .generated_as_stored(Expr::column("a").add(Expr::column("b"))),
            )
            .column(
                ColumnDef::new("avg")
                    .integer()
                    .generated_as_virtual(Expr::column("sum").div(Expr::value(2))),
            )
            .to_sql(),
        r#"CREATE TABLE "calc" ( "a" integer, "b" integer, "sum" integer GENERATED ALWAYS AS ("a" + "b") STORED, "avg" integer GENERATED ALWAYS AS ("sum" / 2) VIRTUAL )"#
    );
}

#[test]
fn create_table_all_column_types() {
    assert_eq!(
        CreateTable::new()
            .table("all_types")
            .column(ColumnDef::new("col_char").char(4))
            .column(ColumnDef::new("col_varchar").varchar(10))
            .column(ColumnDef::new("col_text").text())
            .column(ColumnDef::new("col_bytea").bytea())
            .column(ColumnDef::new("col_smallint").smallint())
            .column(ColumnDef::new("col_int").integer())
            .column(ColumnDef::new("col_bigint").bigint())
            .column(ColumnDef::new("col_float").float())
            .column(ColumnDef::new("col_double").double())
            .column(ColumnDef::new("col_numeric").numeric(10, 2))
            .column(ColumnDef::new("col_smallserial").smallserial())
            .column(ColumnDef::new("col_serial").serial())
            .column(ColumnDef::new("col_bigserial").bigserial())
            .column(ColumnDef::new("col_int4range").int4_range())
            .column(ColumnDef::new("col_int8range").int8_range())
            .column(ColumnDef::new("col_numrange").num_range())
            .column(ColumnDef::new("col_tsrange").ts_range())
            .column(ColumnDef::new("col_tstzrange").ts_tz_range())
            .column(ColumnDef::new("col_daterange").date_range())
            .column(ColumnDef::new("col_datetime").date_time())
            .column(ColumnDef::new("col_timestamp").timestamp())
            .column(ColumnDef::new("col_timestamptz").timestamp_with_time_zone())
            .column(ColumnDef::new("col_time").time())
            .column(ColumnDef::new("col_date").date())
            .column(ColumnDef::new("col_bool").boolean())
            .column(ColumnDef::new("col_json").json())
            .column(ColumnDef::new("col_jsonb").json_binary())
            .column(ColumnDef::new("col_uuid").uuid())
            .column(ColumnDef::new("col_int_array").array_of(ColumnType::Int))
            .to_sql(),
        r#"CREATE TABLE "all_types" ( "col_char" char(4), "col_varchar" varchar(10), "col_text" text, "col_bytea" bytea, "col_smallint" smallint, "col_int" integer, "col_bigint" bigint, "col_float" real, "col_double" double precision, "col_numeric" numeric(10, 2), "col_smallserial" smallserial, "col_serial" serial, "col_bigserial" bigserial, "col_int4range" int4range, "col_int8range" int8range, "col_numrange" numrange, "col_tsrange" tsrange, "col_tstzrange" tstzrange, "col_daterange" daterange, "col_datetime" timestamp without time zone, "col_timestamp" timestamp, "col_timestamptz" timestamp with time zone, "col_time" time, "col_date" date, "col_bool" bool, "col_json" json, "col_jsonb" jsonb, "col_uuid" uuid, "col_int_array" integer[] )"#
    );
}

#[test]
fn create_table_defaults_and_constraints() {
    assert_eq!(
        CreateTable::new()
            .table("t")
            .column(ColumnDef::new("a").integer().default(Expr::value(1)).not_null())
            .column(ColumnDef::new("b").numeric_unbounded().default(Expr::column("a").add(1)))
            .column(ColumnDef::new("c").array_of(ColumnType::Array(Box::new(ColumnType::Text))))
            .primary_key(CreateIndex::new().column("a").column("b"))
            .to_sql(),
        r#"CREATE TABLE "t" ( "a" integer NOT NULL DEFAULT 1, "b" numeric DEFAULT ("a" + 1), "c" text[][], PRIMARY KEY ("a", "b") )"#
    );
    assert_eq!(
        CreateTable::new().table("e").primary_key(CreateIndex::new().column("id")).to_sql(),
        r#"CREATE TABLE "e" ( PRIMARY KEY ("id") )"#
    );
    assert_eq!(
        CreateTable::new().table("n").column(ColumnDef::new("x").numeric(-5, -7)).to_sql(),
        r#"CREATE TABLE "n" ( "x" numeric(-5, -7) )"#
    );
}

#[test]
fn alter_table_changes() {
    assert_eq!(
        AlterTable::new()
            .table("t")
            .add_column(ColumnDef::new("a").text().not_null())
            .drop_column("b")
            .rename_column("c", "d")
            .to_sql(),
        r#"ALTER TABLE "t" ADD COLUMN "a" text NOT NULL, DROP COLUMN "b", RENAME COLUMN "c" TO "d""#
    );
    assert_eq!(
        AlterTable::new()
            .table("t")
            .modify_column(ColumnDef::new("a").bigint().null().default(Expr::value(0)))
            .to_sql(),
        r#"ALTER TABLE "t" ALTER COLUMN "a" TYPE bigint, ALTER COLUMN "a" DROP NOT NULL, ALTER COLUMN "a" SET DEFAULT 0"#
    );
    assert_eq!(
        AlterTable::new().table("t").modify_column(ColumnDef::new("a").not_null()).to_sql(),
        r#"ALTER TABLE "t" ALTER COLUMN "a" SET NOT NULL"#
    );
}

#[test]
fn create_index_expressions_and_predicate() {
    assert_eq!(
        CreateIndex::new()
            .unique()
            .table("t")
            .expr(Expr::column("a").add(1))
            .column("b")
            .index_where(Expr::column("b").is_not_null())
            .to_sql(),
        r#"CREATE INDEX UNIQUE ON "t" (("a" + 1), "b") WHERE "b" IS NOT NULL"#
    );
}
