use pqb::expr::{BinaryOp, Expr};
use pqb::func::{FunctionCall, col};
use pqb::query::{Order, RowLevelLock, Select, TableSample, select};
use pqb::value::{Decimal, Value};

fn where_sql(e: Expr) -> String {
    let sql = Select::new().from("t").and_where(e).to_sql();
    sql.strip_prefix(r#"SELECT  FROM "t" WHERE "#).unwrap().to_string()
}

#[test]
fn empty_in_becomes_false() {
    assert_eq!(where_sql(Expr::column("x").is_in(Vec::<i32>::new())), "1 = 2");
}

#[test]
fn empty_not_in_becomes_true() {
    assert_eq!(where_sql(Expr::column("x").is_not_in(Vec::<i32>::new())), "1 = 1");
}

#[test]
fn empty_in_parameterized() {
    let (sql, values) = Select::new()
        .and_where(Expr::column("x").is_in(Vec::<i32>::new()))
        .to_values()
        .into_parts();
    assert_eq!(sql, "SELECT  WHERE $1 = $2");
    assert_eq!(format!("{:?}", values), "[Int(Some(1)), Int(Some(2))]");
}

#[test]
fn left_associative_chain_has_no_parentheses() {
    let e = Expr::column("a").add(Expr::column("b")).add(Expr::column("c"));
    assert_eq!(where_sql(e), r#""a" + "b" + "c""#);
}

#[test]
fn right_nested_chain_keeps_parentheses() {
    let e = Expr::column("a").add(Expr::column("b").add(Expr::column("c")));
    assert_eq!(where_sql(e), r#""a" + ("b" + "c")"#);
}

#[test]
fn arithmetic_binds_tighter_than_comparison() {
    let e = Expr::column("x").mul(2).eq(Expr::column("y").div(2));
    assert_eq!(where_sql(e), r#""x" * 2 = "y" / 2"#);
}

#[test]
fn and_under_or_gets_parentheses() {
    let e = Expr::column("x")
        .eq(1)
        .or(Expr::column("y").eq(2).and(Expr::column("z").eq(3)));
    assert_eq!(where_sql(e), r#""x" = 1 OR ("y" = 2 AND "z" = 3)"#);
}

#[test]
fn between_has_no_parentheses_around_its_bounds() {
    assert_eq!(where_sql(Expr::column("col").between(3, 5)), r#""col" BETWEEN 3 AND 5"#);
    assert_eq!(
        where_sql(Expr::column("col").not_between(Expr::column("a").add(1), 5)),
        r#""col" NOT BETWEEN "a" + 1 AND 5"#
    );
}

#[test]
fn end_to_end_inline_and_parameterized() {
    let q = select().column("region").from("t").and_where(col("region").eq(Expr::value("CN")));
    assert_eq!(q.to_sql(), r#"SELECT "region" FROM "t" WHERE "region" = 'CN'"#);
    let (sql, values) = q.to_values().into_parts();
    assert_eq!(sql, r#"SELECT "region" FROM "t" WHERE "region" = $1"#);
    assert_eq!(values.len(), 1);
    assert_eq!(values[0], Value::String(Some("CN".to_string())));
}

#[test]
fn placeholders_follow_emission_order() {
    let q = Select::new()
        .expr(Expr::value(10))
        .from("t")
        .and_where(Expr::column("a").eq("x"))
        .and_where(Expr::column("b").between(1u8, 2i64))
        .and_having(Expr::column("c").is_in(vec![true, false]));
    let (sql, values) = q.to_values().into_parts();
    assert_eq!(
        sql,
        r#"SELECT $1 FROM "t" WHERE "a" = $2 AND "b" BETWEEN $3 AND $4 HAVING "c" IN ($5, $6)"#
    );
    assert_eq!(
        format!("{:?}", values),
        r#"[Int(Some(10)), String(Some("x")), TinyUnsigned(Some(1)), BigInt(Some(2)), Bool(Some(true)), Bool(Some(false))]"#
    );
    assert_eq!(
        q.to_sql(),
        r#"SELECT 10 FROM "t" WHERE "a" = 'x' AND "b" BETWEEN 1 AND 2 HAVING "c" IN (TRUE, FALSE)"#
    );
}

#[test]
fn rendering_twice_is_identical() {
    let q = Select::new().column("a").from("t").and_where(Expr::column("a").gt(-5i64));
    assert_eq!(q.to_sql(), q.to_sql());
    assert_eq!(q.to_sql(), r#"SELECT "a" FROM "t" WHERE "a" > -5"#);
}

#[test]
fn string_literals_are_escaped() {
    assert_eq!(where_sql(Expr::value("it's")), r"E'it\'s'");
    assert_eq!(where_sql(Expr::value("a\nb\\c\td")), r"E'a\nb\\c\td'");
    assert_eq!(where_sql(Expr::value("\u{1}x\u{7f}\0")), r"E'\001x\177\0'");
    assert_eq!(where_sql(Expr::value("\u{8}\u{c}\r")), r"E'\b\f\r'");
    assert_eq!(where_sql(Expr::value("plain ünïcode")), "'plain ünïcode'");
    assert_eq!(where_sql(Expr::value("")), "''");
}

#[test]
fn value_literals() {
    assert_eq!(where_sql(Expr::value(Value::Int(None))), "NULL");
    assert_eq!(where_sql(Expr::value(Value::String(None))), "NULL");
    assert_eq!(where_sql(Expr::value(i64::MIN)), "-9223372036854775808");
    assert_eq!(where_sql(Expr::value(u64::MAX)), "18446744073709551615");
    assert_eq!(where_sql(Expr::value(-128i8)), "-128");
    assert_eq!(where_sql(Expr::value(0u16)), "0");
    assert_eq!(where_sql(Expr::value(Value::array(vec![]))), "'{}'");
    assert_eq!(
        where_sql(Expr::value(Value::array(vec![Value::Int(Some(1)), Value::String(Some("a".to_string()))]))),
        "ARRAY [1, 'a']"
    );
    assert_eq!(where_sql(Expr::value(Value::Array(None))), "NULL");
}

#[test]
fn value_clone_is_equal() {
    let v = Value::array(vec![Value::Int(Some(1)), Value::array(vec![Value::Bool(None)])]);
    assert_eq!(v.clone(), v);
}

#[test]
fn functions_subqueries_and_custom() {
    let e = Expr::column("a").sum().add(Expr::column("b").avg()).gt(Expr::column("c").count());
    assert_eq!(where_sql(e), r#"SUM("a") + AVG("b") > COUNT("c")"#);
    assert_eq!(
        Select::new().expr(FunctionCall::count_all()).from("t").to_sql(),
        r#"SELECT COUNT(*) FROM "t""#
    );
    assert_eq!(
        where_sql(Expr::column("a").in_subquery(Select::new().expr(Expr::custom("1")))),
        r#""a" IN (SELECT 1)"#
    );
    assert_eq!(
        where_sql(Expr::column("a").min().lte(Expr::column("b").max())),
        r#"MIN("a") <= MAX("b")"#
    );
    assert_eq!(where_sql(Expr::column("a").ne(Expr::asterisk())), r#""a" <> *"#);
    assert_eq!(
        where_sql(Expr::tuple(vec![Expr::column("a"), Expr::value(1)]).binary(BinaryOp::In, Expr::tuple(vec![]))),
        "1 = 2"
    );
}

#[test]
fn not_of_comparison_has_no_parentheses() {
    assert_eq!(where_sql(Expr::column("a").eq(1).not()), r#"NOT "a" = 1"#);
    assert_eq!(
        where_sql(Expr::column("a").eq(1).or(Expr::column("b").lt(2)).not()),
        r#"NOT ("a" = 1 OR "b" < 2)"#
    );
}

#[test]
fn arithmetic_under_is_has_no_parentheses() {
    assert_eq!(where_sql(Expr::column("a").sub(1).is_null()), r#""a" - 1 IS NULL"#);
    assert_eq!(
        where_sql(Expr::column("a").eq(1).is_null()),
        r#"("a" = 1) IS NULL"#
    );
}

#[test]
fn between_under_logical_operators_has_no_parentheses() {
    assert_eq!(
        where_sql(Expr::column("a").between(1, 2).not()),
        r#"NOT "a" BETWEEN 1 AND 2"#
    );
    assert_eq!(
        where_sql(Expr::column("a").between(1, 2).or(Expr::column("b").not_between(3, 4))),
        r#""a" BETWEEN 1 AND 2 OR "b" NOT BETWEEN 3 AND 4"#
    );
    assert_eq!(
        where_sql(Expr::column("a").add(1).between(1, 2)),
        r#""a" + 1 BETWEEN 1 AND 2"#
    );
}

#[test]
fn order_limit_offset_lock() {
    let q = Select::new()
        .column("a")
        .from_as("t", "x")
        .order_by(vec![Order::column("a").desc().nulls_last(), Order::expr(Expr::column("b")).nulls_first()])
        .limit(5)
        .offset(0)
        .lock(RowLevelLock::for_update().tables(vec!["t", "u"]).skip_locked());
    assert_eq!(
        q.to_sql(),
        r#"SELECT "a" FROM "t" AS "x" ORDER BY "a" DESC NULLS LAST, "b" ASC NULLS FIRST LIMIT 5 OFFSET 0 FOR UPDATE OF "t", "u" SKIP LOCKED"#
    );
    assert_eq!(
        Select::new().column("a").from("t").lock(RowLevelLock::for_share().no_wait()).to_sql(),
        r#"SELECT "a" FROM "t" FOR SHARE NOWAIT"#
    );
}

#[test]
fn group_by_expressions_and_like() {
    let q = Select::new()
        .column("a")
        .from("t")
        .and_where(Expr::column("a").not_like("x%"))
        .group_by_exprs(vec![Expr::column("a"), Expr::column("b").mul(2)]);
    assert_eq!(
        q.to_sql(),
        r#"SELECT "a" FROM "t" WHERE "a" NOT LIKE 'x%' GROUP BY "a", "b" * 2"#
    );
}

#[test]
fn from_conditions_folds_with_and() {
    assert!(Expr::from_conditions(vec![]).is_none());
    let c = Expr::from_conditions(vec![Expr::column("a").eq(1), Expr::column("b").eq(2), Expr::column("c").eq(3)])
        .unwrap();
    assert_eq!(where_sql(c), r#""a" = 1 AND "b" = 2 AND "c" = 3"#);
}

#[test]
fn table_sample_clause() {
    assert_eq!(
        Select::new()
            .column("a")
            .from("t")
            .table_sample(TableSample::system())
            .left_join("u", Expr::column("a").eq(Expr::column("b")))
            .to_sql(),
        r#"SELECT "a" FROM "t" TABLESAMPLE SYSTEM (100) LEFT JOIN "u" ON "a" = "b""#
    );
    assert_eq!(
        Select::new()
            .column("a")
            .from("t")
            .table_sample(TableSample::bernoulli().percentage(Decimal::new(&12.5f64.to_string()).unwrap()).repeatable(Decimal::new("7").unwrap()))
            .to_sql(),
        r#"SELECT "a" FROM "t" TABLESAMPLE BERNOULLI (12.5) REPEATABLE (7)"#
    );
}

#[test]
fn floating_point_values_render_their_text() {
    assert_eq!(where_sql(Expr::value(Value::Double(Decimal::new(&3.14f64.to_string())))), "3.14");
    assert_eq!(where_sql(Expr::value(Value::Float(Decimal::new(&0.5f32.to_string())))), "0.5");
    assert_eq!(where_sql(Expr::value(Value::Float(None))), "NULL");
}

#[test]
fn decimal_text_is_checked() {
    for ok in ["0", "3.14", "-2.5", "100", "NaN", "inf", "-inf", "-0"] {
        assert_eq!(Decimal::new(ok).map(|d| d.as_str().to_string()), Some(ok.to_string()));
    }
    for bad in ["", ".5", "5.", "1.2.3", "-", "1e5", "1'; DROP TABLE t; --", "- 1", "--1"] {
        assert!(Decimal::new(bad).is_none(), "{bad}");
    }
}
