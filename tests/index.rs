use pqb::expr::Expr;
use pqb::index::{CreateIndex, IndexMethod, IndexOption};

#[test]
fn create_index_gist_with_options() {
    assert_eq!(
        CreateIndex::new()
            .table("spatial")
            .column("geom")
            .gist()
            .with_option("fillfactor", 80)
            .with_option("buffering", "auto")
            .to_sql(),
        r#"CREATE INDEX ON "spatial" USING gist ("geom") WITH ("fillfactor" = 80, "buffering" = 'auto')"#
    );
}

#[test]
fn create_index_brin_with_options() {
    assert_eq!(
        CreateIndex::new()
            .table("events")
            .column("created_at")
            .brin()
            .with_options(vec![IndexOption::new("pages_per_range", Expr::value(32)), IndexOption::new("autosummarize", Expr::value(true))])
            .to_sql(),
        r#"CREATE INDEX ON "events" USING brin ("created_at") WITH ("pages_per_range" = 32, "autosummarize" = TRUE)"#
    );
}

#[test]
fn create_index_hash() {
    assert_eq!(
        CreateIndex::new()
            .table("tokens")
            .column("value")
            .hash()
            .to_sql(),
        r#"CREATE INDEX ON "tokens" USING hash ("value")"#
    );
}

#[test]
fn create_index_named() {
    assert_eq!(
        CreateIndex::new()
            .name("idx_tokens_value")
            .table("tokens")
            .column("value")
            .to_sql(),
        r#"CREATE INDEX "idx_tokens_value" ON "tokens" ("value")"#
    );
}

#[test]
fn create_index_if_not_exists_named() {
    assert_eq!(
        CreateIndex::new()
            .name("idx_events_created_at_brin")
            .table("events")
            .column("created_at")
            .brin()
            .if_not_exists()
            .to_sql(),
        r#"CREATE INDEX IF NOT EXISTS "idx_events_created_at_brin" ON "events" USING brin ("created_at")"#
    );
}

#[test]
fn create_index_named_with_options() {
    assert_eq!(
        CreateIndex::new()
            .name("idx_spatial_geom_gist")
            .table("spatial")
            .column("geom")
            .gist()
            .with_option("fillfactor", 90)
            .with_option("buffering", "auto")
            .to_sql(),
        r#"CREATE INDEX "idx_spatial_geom_gist" ON "spatial" USING gist ("geom") WITH ("fillfactor" = 90, "buffering" = 'auto')"#
    );
}

#[test]
fn create_index_if_not_exists_custom_method() {
    assert_eq!(
        CreateIndex::new()
            .name("idx_tokens_value_hnsw")
            .table("tokens")
            .column("value")
            .if_not_exists()
            .using(IndexMethod::custom("hnsw"))
            .to_sql(),
        r#"CREATE INDEX IF NOT EXISTS "idx_tokens_value_hnsw" ON "tokens" USING hnsw ("value")"#
    );
}

#[test]
fn create_index_include_columns() {
    assert_eq!(
        CreateIndex::new()
            .name("idx_orders_customer")
            .table("orders")
            .column("customer_id")
            .include_columns(vec!["id", "created_at"])
            .to_sql(),
        r#"CREATE INDEX "idx_orders_customer" ON "orders" ("customer_id") INCLUDE ("id", "created_at")"#
    );
}

#[test]
fn create_index_concurrently() {
    assert_eq!(
        CreateIndex::new()
            .name("idx_orders_customer")
            .table("orders")
            .column("customer_id")
            .concurrently()
            .if_not_exists()
            .to_sql(),
        r#"CREATE INDEX CONCURRENTLY IF NOT EXISTS "idx_orders_customer" ON "orders" ("customer_id")"#
    );
}
