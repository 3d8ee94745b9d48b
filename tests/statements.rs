use pqb::expr::Expr;
use pqb::query::{CommonTableExpression, Delete, Explain, Insert, Returning, Select, Update, With};
use pqb::value::{Uuid, Value};

#[test]
fn delete_with_conditions_and_returning() {
    let d = Delete::new()
        .from_table("glyph")
        .and_where(Expr::column("id").eq(1))
        .and_where(Expr::column("aspect").gt(2).or(Expr::column("aspect").lt(0)))
        .returning(Returning::all());
    assert_eq!(
        d.to_sql(),
        r#"DELETE FROM "glyph" WHERE "id" = 1 AND ("aspect" > 2 OR "aspect" < 0) RETURNING *"#
    );
    let (sql, values) = d.to_values().into_parts();
    assert_eq!(
        sql,
        r#"DELETE FROM "glyph" WHERE "id" = $1 AND ("aspect" > $2 OR "aspect" < $3) RETURNING *"#
    );
    assert_eq!(format!("{:?}", values), "[Int(Some(1)), Int(Some(2)), Int(Some(0))]");
}

#[test]
fn update_sets_and_returns() {
    let u = Update::new()
        .table("glyph")
        .values(vec![("aspect", Expr::value(2)), ("image", Expr::column("aspect").add(1))])
        .and_where(Expr::column("id").eq(3))
        .returning(Returning::columns(vec!["id", "aspect"]));
    assert_eq!(
        u.to_sql(),
        r#"UPDATE "glyph" SET "aspect" = 2, "image" = "aspect" + 1 WHERE "id" = 3 RETURNING "id", "aspect""#
    );
}

#[test]
fn insert_rows_and_select() {
    let i = Insert::new()
        .into_table("glyph")
        .columns(vec!["aspect", "image"])
        .values(vec![Expr::value(1), Expr::value("a")])
        .values(vec![Expr::value(2), Expr::value("b")])
        .returning(Returning::column("id"));
    assert_eq!(
        i.to_sql(),
        r#"INSERT INTO "glyph" ("aspect", "image") VALUES (1, 'a'), (2, 'b') RETURNING "id""#
    );
    let (sql, values) = i.to_values().into_parts();
    assert_eq!(
        sql,
        r#"INSERT INTO "glyph" ("aspect", "image") VALUES ($1, $2), ($3, $4) RETURNING "id""#
    );
    assert_eq!(values.len(), 4);
    let s = Insert::new()
        .into_table("t")
        .columns(vec!["a"])
        .select_from(Select::new().column("b").from("u"));
    assert_eq!(s.to_sql(), r#"INSERT INTO "t" ("a") SELECT "b" FROM "u""#);
}

#[test]
fn insert_default_rows() {
    assert_eq!(
        Insert::new().into_table("t").or_default_values(2).to_sql(),
        r#"INSERT INTO "t" VALUES (DEFAULT), (DEFAULT)"#
    );
    assert_eq!(Insert::new().into_table("t").to_sql(), r#"INSERT INTO "t" ()"#);
}

#[test]
fn with_clause_on_select() {
    let cte = CommonTableExpression::new("nums")
        .columns(vec!["n", "s"])
        .values(vec![
            vec![Value::Int(Some(1)), Value::String(Some("x".to_string()))],
            vec![Value::Int(Some(2)), Value::String(None)],
        ]);
    let q = Select::new()
        .column("n")
        .from("nums")
        .and_where(Expr::column("n").gt(0))
        .with(With::new().cte(cte));
    assert_eq!(
        q.to_sql(),
        r#"WITH "nums" ("n", "s")  AS VALUES (1, 'x'), (2, NULL) SELECT "n" FROM "nums" WHERE "n" > 0"#
    );
    let (sql, values) = q.to_values().into_parts();
    assert_eq!(
        sql,
        r#"WITH "nums" ("n", "s")  AS VALUES (1, 'x'), (2, NULL) SELECT "n" FROM "nums" WHERE "n" > $1"#
    );
    assert_eq!(values.len(), 1);
    let inner = CommonTableExpression::new("q")
        .select(Select::new().column("a").from("t"))
        .materialized(true);
    assert_eq!(
        Delete::new().from_table("q").with(With::new().cte(inner)).to_sql(),
        r#"WITH "q"  AS MATERIALIZED (SELECT "a" FROM "t") DELETE FROM "q""#
    );
}

#[test]
fn uuid_values_render_hyphenated() {
    let u = Uuid::from_bytes([
        0x67, 0xe5, 0x50, 0x44, 0x10, 0xb1, 0x42, 0x6f, 0x92, 0x47, 0xbb, 0x68, 0x0e, 0x5f, 0xe0,
        0xc8,
    ]);
    assert_eq!(
        Select::new().expr(Expr::value(u)).to_sql(),
        "SELECT '67e55044-10b1-426f-9247-bb680e5fe0c8'"
    );
    assert_eq!(Select::new().expr(Expr::value(Value::Uuid(None))).to_sql(), "SELECT NULL");
}

#[test]
fn json_values_render_as_text() {
    let doc: serde_json::Value = serde_json::from_str(r#"{"a": [1, "it's"]}"#).unwrap();
    assert_eq!(
        Select::new().expr(Expr::value(Value::json(&doc))).to_sql(),
        r#"SELECT E'{"a":[1,"it\'s"]}'"#
    );
    assert_eq!(Select::new().expr(Expr::value(Value::Json(None))).to_sql(), "SELECT NULL");
}

#[test]
fn explain_postgres_select_with_options() {
    assert_eq!(
        Explain::new()
            .analyze()
            .verbose(false)
            .costs(true)
            .settings(false)
            .generic_plan(true)
            .buffers(true)
            .serialize_text()
            .wal(true)
            .timing(false)
            .summary(true)
            .memory(true)
            .format_json()
            .statement(Select::new().column("character").from("character"))
            .to_sql(),
        r#"EXPLAIN (ANALYZE, VERBOSE 0, COSTS, SETTINGS 0, GENERIC_PLAN, BUFFERS, SERIALIZE TEXT, WAL, TIMING 0, SUMMARY, MEMORY, FORMAT JSON) SELECT "character" FROM "character""#
    );
}

#[test]
fn explain_postgres_serialize_text() {
    assert_eq!(
        Explain::new()
            .serialize_text()
            .statement(Select::new().column("character").from("character"))
            .to_sql(),
        r#"EXPLAIN (SERIALIZE TEXT) SELECT "character" FROM "character""#
    );
}

#[test]
fn explain_postgres_serialize_binary() {
    assert_eq!(
        Explain::new()
            .serialize_binary()
            .statement(Select::new().column("character").from("character"))
            .to_sql(),
        r#"EXPLAIN (SERIALIZE BINARY) SELECT "character" FROM "character""#
    );
}

#[test]
fn explain_postgres_serialize_none() {
    assert_eq!(
        Explain::new()
            .serialize_none()
            .statement(Select::new().column("character").from("character"))
            .to_sql(),
        r#"EXPLAIN (SERIALIZE NONE) SELECT "character" FROM "character""#
    );
}

#[test]
fn explain_other_statements() {
    assert_eq!(Explain::new().to_sql(), "EXPLAIN");
    assert_eq!(
        Explain::new().format_yaml().statement(Delete::new().from_table("t")).to_sql(),
        r#"EXPLAIN (FORMAT YAML) DELETE FROM "t""#
    );
    let (sql, values) = Explain::new()
        .statement(Update::new().table("t").values(vec![("a", Expr::value(1))]))
        .to_values()
        .into_parts();
    assert_eq!(sql, r#"EXPLAIN UPDATE "t" SET "a" = $1"#);
    assert_eq!(values.len(), 1);
}
