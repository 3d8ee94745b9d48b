use pqb::index::DropIndex;
use pqb::schema::DropSchema;
use pqb::table::DropTable;

#[test]
fn drop_index_sql() {
    assert_eq!(
        DropIndex::new()
            .index(("public", "idx_users_email"))
            .if_exists()
            .concurrently()
            .cascade()
            .to_sql(),
        r#"DROP INDEX CONCURRENTLY IF EXISTS "public"."idx_users_email" CASCADE"#
    );
}

#[test]
fn drop_table_sql() {
    assert_eq!(
        DropTable::new()
            .tables(vec![("public", "users"), ("public", "accounts")])
            .if_exists()
            .restrict()
            .to_sql(),
        r#"DROP TABLE IF EXISTS "public"."users", "public"."accounts" RESTRICT"#
    );
}

#[test]
fn drop_schema_sql() {
    assert_eq!(
        DropSchema::new()
            .schemas(vec!["public", "analytics"])
            .if_exists()
            .cascade()
            .to_sql(),
        r#"DROP SCHEMA IF EXISTS "public", "analytics" CASCADE"#
    );
}

#[test]
fn drop_plain_and_to_values() {
    assert_eq!(DropTable::new().table("t").to_sql(), r#"DROP TABLE "t""#);
    assert_eq!(DropSchema::new().schema(("db", "s")).to_sql(), r#"DROP SCHEMA "db"."s""#);
    let (sql, values) = DropIndex::new().index("i").restrict().to_values().into_parts();
    assert_eq!(sql, r#"DROP INDEX "i" RESTRICT"#);
    assert!(values.is_empty());
}
