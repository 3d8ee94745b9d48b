use pqb::expr::Expr;
use pqb::query::{Insert, OnConflict, Select};
use pqb::value::{Decimal, Value};

#[test]
fn insert_on_conflict_1() {
    let query = Insert::new()
        .into_table("glyph")
        .columns(vec!["aspect", "image"])
        .values(vec![
            Expr::value("04108048005887010020060000204E0180400400"),
            Expr::value(Value::Double(Decimal::new(&3.14f64.to_string()))),
        ])
        .on_conflict(OnConflict::column("id").update_column("aspect"));
    assert_eq!(
        query.to_sql(),
        [
            r#"INSERT INTO "glyph" ("aspect", "image")"#,
            r#"VALUES ('04108048005887010020060000204E0180400400', 3.14)"#,
            r#"ON CONFLICT ("id") DO UPDATE SET "aspect" = "excluded"."aspect""#,
        ]
        .join(" ")
    );
}

#[test]
fn insert_on_conflict_2() {
    assert_eq!(
        Insert::new()
            .into_table("glyph")
            .columns(vec!["aspect", "image"])
            .values(vec![
                Expr::value("04108048005887010020060000204E0180400400"),
                Expr::value(Value::Double(Decimal::new(&3.14f64.to_string()))),
            ])
            .on_conflict(
                OnConflict::columns(vec!["id", "aspect"])
                    .update_columns(vec!["aspect", "image"])
            )
            .to_sql(),
        [
            r#"INSERT INTO "glyph" ("aspect", "image")"#,
            r#"VALUES ('04108048005887010020060000204E0180400400', 3.14)"#,
            r#"ON CONFLICT ("id", "aspect") DO UPDATE SET "aspect" = "excluded"."aspect", "image" = "excluded"."image""#,
        ]
            .join(" ")
    );
}

#[test]
fn insert_on_conflict_3() {
    assert_eq!(
        Insert::new()
            .into_table("glyph")
            .columns(vec!["aspect", "image"])
            .values(vec![
                Expr::value("04108048005887010020060000204E0180400400"),
                Expr::value(Value::Double(Decimal::new(&3.14f64.to_string()))),
            ])
            .on_conflict(
                OnConflict::columns(vec!["id", "aspect"])
                    .values(vec![
                        ("aspect", Expr::value("04108048005887010020060000204E0180400400")),
                        ("image", Expr::value(Value::Double(Decimal::new(&3.14f64.to_string())))),
                    ])
            )
            .to_sql(),
        [
            r#"INSERT INTO "glyph" ("aspect", "image")"#,
            r#"VALUES ('04108048005887010020060000204E0180400400', 3.14)"#,
            r#"ON CONFLICT ("id", "aspect") DO UPDATE SET "aspect" = '04108048005887010020060000204E0180400400', "image" = 3.14"#,
        ]
            .join(" ")
    );
}

#[test]
fn insert_on_conflict_4() {
    assert_eq!(
        Insert::new()
            .into_table("glyph")
            .columns(vec!["aspect", "image"])
            .values(vec![
                Expr::value("04108048005887010020060000204E0180400400"),
                Expr::value(Value::Double(Decimal::new(&3.14f64.to_string()))),
            ])
            .on_conflict(
                OnConflict::columns(vec!["id", "aspect"]).value("image", Expr::value(1).add(2))
            )
            .to_sql(),
        [
            r#"INSERT INTO "glyph" ("aspect", "image")"#,
            r#"VALUES ('04108048005887010020060000204E0180400400', 3.14)"#,
            r#"ON CONFLICT ("id", "aspect") DO UPDATE SET "image" = 1 + 2"#,
        ]
        .join(" ")
    );
}

#[test]
fn insert_on_conflict_5() {
    assert_eq!(
        Insert::new()
            .into_table("glyph")
            .columns(vec!["aspect", "image"])
            .values(vec![
                Expr::value("04108048005887010020060000204E0180400400"),
                Expr::value(Value::Double(Decimal::new(&3.14f64.to_string()))),
            ])
            .on_conflict(
                OnConflict::columns(vec!["id", "aspect"])
                    .value("aspect", Expr::value("04108048005887010020060000204E0180400400"))
                    .update_column("image")
            )
            .to_sql(),
        [
            r#"INSERT INTO "glyph" ("aspect", "image")"#,
            r#"VALUES ('04108048005887010020060000204E0180400400', 3.14)"#,
            r#"ON CONFLICT ("id", "aspect") DO UPDATE SET "aspect" = '04108048005887010020060000204E0180400400', "image" = "excluded"."image""#,
        ]
            .join(" ")
    );
}

#[test]
fn insert_on_conflict_6() {
    assert_eq!(
        Insert::new()
            .into_table("glyph")
            .columns(vec!["aspect", "image"])
            .values(vec![
                Expr::value("04108048005887010020060000204E0180400400"),
                Expr::value(Value::Double(Decimal::new(&3.14f64.to_string()))),
            ])
            .on_conflict(
                OnConflict::columns(vec!["id", "aspect"])
                    .update_column("aspect")
                    .value("image", Expr::value(1).add(2))
            )
            .to_sql(),
        [
            r#"INSERT INTO "glyph" ("aspect", "image")"#,
            r#"VALUES ('04108048005887010020060000204E0180400400', 3.14)"#,
            r#"ON CONFLICT ("id", "aspect") DO UPDATE SET "aspect" = "excluded"."aspect", "image" = 1 + 2"#,
        ]
            .join(" ")
    );
}

#[test]
fn insert_on_conflict_7() {
    assert_eq!(
        Insert::new()
            .into_table("glyph")
            .columns(vec!["aspect", "image"])
            .values(vec![
                Expr::value("04108048005887010020060000204E0180400400"),
                Expr::value(Value::Double(Decimal::new(&3.14f64.to_string()))),
            ])
            .on_conflict(OnConflict::expr(Expr::column("id")).update_column("aspect"))
            .to_sql(),
        [
            r#"INSERT INTO "glyph" ("aspect", "image")"#,
            r#"VALUES ('04108048005887010020060000204E0180400400', 3.14)"#,
            r#"ON CONFLICT ("id") DO UPDATE SET "aspect" = "excluded"."aspect""#,
        ]
        .join(" ")
    );
}

#[test]
fn insert_on_conflict_8() {
    assert_eq!(
        Insert::new()
            .into_table("glyph")
            .columns(vec!["aspect", "image"])
            .values(vec![
                Expr::value("04108048005887010020060000204E0180400400"),
                Expr::value(Value::Double(Decimal::new(&3.14f64.to_string()))),
            ])
            .on_conflict(
                OnConflict::exprs(vec![Expr::column("id"), Expr::column("aspect")])
                    .update_column("aspect")
            )
            .to_sql(),
        [
            r#"INSERT INTO "glyph" ("aspect", "image")"#,
            r#"VALUES ('04108048005887010020060000204E0180400400', 3.14)"#,
            r#"ON CONFLICT ("id", "aspect") DO UPDATE SET "aspect" = "excluded"."aspect""#,
        ]
        .join(" ")
    );
}

#[test]
fn insert_on_conflict_do_nothing() {
    assert_eq!(
        Insert::new()
            .into_table("glyph")
            .columns(vec!["aspect", "image"])
            .values(vec![Expr::value("abcd"), Expr::value(Value::Double(Decimal::new(&3.14f64.to_string())))])
            .on_conflict(OnConflict::columns(vec!["id", "aspect"]).do_nothing(),)
            .to_sql(),
        [
            r#"INSERT INTO "glyph" ("aspect", "image")"#,
            r#"VALUES ('abcd', 3.14)"#,
            r#"ON CONFLICT ("id", "aspect") DO NOTHING"#,
        ]
        .join(" ")
    );
}

#[test]
fn insert_on_conflict_10() {
    assert_eq!(
        Insert::new()
            .into_table("font")
            .columns(vec!["id", "name"])
            .values(vec![Expr::value(15), Expr::value("CyberFont Sans Serif")])
            .on_conflict(OnConflict::constraint("name_unique").do_nothing())
            .to_sql(),
        [
            r#"INSERT INTO "font" ("id", "name")"#,
            r#"VALUES (15, 'CyberFont Sans Serif')"#,
            r#"ON CONFLICT ON CONSTRAINT "name_unique" DO NOTHING"#,
        ]
        .join(" ")
    );
}

#[test]
fn insert_on_conflict_11() {
    assert_eq!(
        Insert::new()
            .into_table("font")
            .columns(vec!["id", "name"])
            .values(vec![Expr::value(20), Expr::value("Monospaced terminal")])
            .on_conflict(
                OnConflict::exprs(vec![Expr::column("name"), Expr::is_null(Expr::column("variant"))])
                    .do_nothing()
            )
            .to_sql(),
        [
            r#"INSERT INTO "font" ("id", "name")"#,
            r#"VALUES (20, 'Monospaced terminal')"#,
            r#"ON CONFLICT ("name", "variant" IS NULL) DO NOTHING"#,
        ]
        .join(" ")
    );
}

#[test]
fn insert_on_conflict_updates() {
    let q = Insert::new()
        .into_table("glyph")
        .columns(vec!["aspect", "image"])
        .values(vec![Expr::value("abcd"), Expr::value(3i64)])
        .on_conflict(
            OnConflict::columns(vec!["id", "aspect"])
                .update_column("aspect")
                .value("image", Expr::value(1).add(2))
                .update_columns(vec!["x"])
                .target_and_where(Expr::column("id").gt(0))
                .action_and_where(Expr::column("aspect").ne("z")),
        );
    assert_eq!(
        q.to_sql(),
        r#"INSERT INTO "glyph" ("aspect", "image") VALUES ('abcd', 3) ON CONFLICT ("id", "aspect") WHERE "id" > 0 DO UPDATE SET "aspect" = "excluded"."aspect", "image" = 1 + 2, "x" = "excluded"."x" WHERE "aspect" <> 'z'"#
    );
    let (sql, values) = q.to_values().into_parts();
    assert_eq!(
        sql,
        r#"INSERT INTO "glyph" ("aspect", "image") VALUES ($1, $2) ON CONFLICT ("id", "aspect") WHERE "id" > $3 DO UPDATE SET "aspect" = "excluded"."aspect", "image" = $4 + $5, "x" = "excluded"."x" WHERE "aspect" <> $6"#
    );
    assert_eq!(values.len(), 6);
    assert_eq!(
        Insert::new()
            .into_table("t")
            .columns(vec!["a"])
            .select_from(Select::new().column("b"))
            .on_conflict(OnConflict::column("a").do_nothing())
            .to_sql(),
        r#"INSERT INTO "t" ("a") SELECT "b" ON CONFLICT ("a") DO NOTHING"#
    );
}

#[test]
fn optional_values_become_typed_nulls() {
    let none: Option<i32> = None;
    assert_eq!(Expr::value(none), Expr::Value(Value::Int(None)));
    assert_eq!(Expr::value(Some(7u8)), Expr::Value(Value::TinyUnsigned(Some(7))));
    let no_text: Option<&str> = None;
    assert_eq!(Expr::value(no_text), Expr::Value(Value::String(None)));
    assert_eq!(
        Select::new().expr(Expr::value(none)).expr(Expr::value(Some("a"))).to_sql(),
        "SELECT NULL, 'a'"
    );
}
