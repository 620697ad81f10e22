use sdkwork_inventory::repository::{BackendInventoryListPage, MerchantInventoryListQuery};
use sdkwork_inventory::sqlite;
use sdkwork_inventory::statement::{SqlArg, SqlStatement};
use sqlx::sqlite::{SqliteArguments, SqliteRow};
use sqlx::{Row, Sqlite, SqlitePool};

fn bound(statement: &SqlStatement) -> sqlx::query::Query<'_, Sqlite, SqliteArguments<'_>> {
    let mut query = sqlx::query(&statement.sql);
    for arg in &statement.args {
        query = match arg {
            SqlArg::Text(text) => query.bind(text.as_str()),
            SqlArg::Int(value) => query.bind(*value),
        };
    }
    query
}

fn row_id(row: &SqliteRow) -> serde_json::Value {
    serde_json::Value::String(row.try_get::<String, _>("id").unwrap())
}

#[test]
fn merchant_stock_list_applies_limit_offset_and_reports_total() {
    let runtime = tokio::runtime::Builder::new_multi_thread().enable_all().build().expect("runtime");
    runtime.block_on(async {
        let pool = SqlitePool::connect("sqlite::memory:").await.expect("sqlite pool");
        sqlx::query(
            r#"
            CREATE TABLE commerce_inventory_stock (
                id TEXT PRIMARY KEY,
                tenant_id TEXT NOT NULL,
                organization_id TEXT,
                sku_id TEXT NOT NULL,
                warehouse_id TEXT,
                fulfillment_node_id TEXT,
                available_quantity INTEGER NOT NULL,
                reserved_quantity INTEGER NOT NULL,
                inbound_quantity INTEGER NOT NULL,
                damaged_quantity INTEGER NOT NULL,
                status TEXT NOT NULL,
                version INTEGER NOT NULL,
                created_at TEXT NOT NULL,
                updated_at TEXT NOT NULL
            )
            "#,
        )
        .execute(&pool)
        .await
        .expect("inventory fixture table");

        for index in 1..=5 {
            sqlx::query(
                r#"
                INSERT INTO commerce_inventory_stock (
                    id, tenant_id, organization_id, sku_id, warehouse_id,
                    fulfillment_node_id, available_quantity, reserved_quantity,
                    inbound_quantity, damaged_quantity, status, version, created_at, updated_at
                ) VALUES (?, 'tenant-1', NULL, ?, NULL, NULL, 10, 0, 0, 0, 'active', 1, ?, ?)
                "#,
            )
            .bind(format!("stock-{index}"))
            .bind(format!("sku-{index}"))
            .bind(format!("2026-07-22T00:00:0{index}Z"))
            .bind(format!("2026-07-22T00:00:0{index}Z"))
            .execute(&pool)
            .await
            .expect("inventory fixture row");
        }

        let query = MerchantInventoryListQuery::new("tenant-1", None, 2, 2).expect("list query");
        let statements = sqlite::merchant_stock_list_statements(&query);
        let total = bound(&statements.count).fetch_one(&pool).await.expect("count").try_get::<i64, _>("total").ok();
        let rows = bound(&statements.list).fetch_all(&pool).await.expect("rows");
        let page = BackendInventoryListPage::from_window(rows.iter().map(row_id).collect(), statements.window, total);

        assert_eq!(page.items.len(), 2);
        assert_eq!(page.total, 5);
        assert_eq!(page.page, 2);
        assert_eq!(page.page_size, 2);
        assert_eq!(page.items[0], "stock-3");
        assert_eq!(page.items[1], "stock-2");
    });
}
