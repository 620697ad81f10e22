use sdkwork_inventory::json::{merchant_adjustment_quantity_delta, resolve_quantity_delta};
use sdkwork_inventory::paging::{fits_page_window, page_window};
use sdkwork_inventory::postgres;
use sdkwork_inventory::repository::{
    found_stock, i64_cell, stock_update_outcome, store_error, string_cell, BackendInventoryListPage,
    BackendInventoryMovementListQuery, BackendInventoryReservationListQuery, BackendInventoryStockListQuery,
    MerchantInventoryListQuery, MerchantInventoryScopeQuery, UpdateBackendInventoryStockCommand,
};
use sdkwork_inventory::sqlite;
use sdkwork_inventory::statement::SqlArg;

fn text(s: &str) -> SqlArg {
    SqlArg::Text(s.to_string())
}

fn stock_query(page: i64, page_size: i64) -> BackendInventoryStockListQuery {
    BackendInventoryStockListQuery {
        tenant_id: "tenant-1".to_string(),
        organization_id: None,
        sku_id: Some("sku-1".to_string()),
        warehouse_id: None,
        status: Some("active".to_string()),
        page,
        page_size,
    }
}

#[test]
fn page_windows_are_bounded() {
    let w = page_window(0, 500);
    assert_eq!((w.page, w.page_size, w.offset), (1, 200, 0));
    let w = page_window(3, 10);
    assert_eq!((w.page, w.page_size, w.offset), (3, 10, 20));
    let w = page_window(2, -4);
    assert_eq!((w.page, w.page_size, w.offset), (2, 1, 1));
}

#[test]
fn sqlite_stock_list_appends_filters_and_binds_in_order() {
    let s = sqlite::backend_stock_list_statements(&stock_query(2, 20));
    assert!(s.count.sql.starts_with(sqlite::STOCK_COUNT_SQL));
    assert!(s.count.sql.ends_with(" AND sku_id = CAST(? AS TEXT) AND status = CAST(? AS TEXT)"));
    assert_eq!(s.count.args, vec![text("tenant-1"), text(""), text(""), text("sku-1"), text("active")]);
    assert!(s.list.sql.ends_with(
        " AND sku_id = CAST(? AS TEXT) AND status = CAST(? AS TEXT) ORDER BY updated_at DESC, id DESC LIMIT ? OFFSET ?"
    ));
    assert_eq!(
        s.list.args,
        vec![text("tenant-1"), text(""), text(""), text("sku-1"), text("active"), SqlArg::Int(20), SqlArg::Int(20)]
    );
    assert_eq!(s.list.sql.matches('?').count(), s.list.args.len());
    assert_eq!(s.count.sql.matches('?').count(), s.count.args.len());
}

#[test]
fn sqlite_stock_update_sets_only_given_fields() {
    let command = UpdateBackendInventoryStockCommand {
        tenant_id: "tenant-1".to_string(),
        organization_id: None,
        stock_id: "stock-9".to_string(),
        available_quantity: Some(-5),
        safety_stock_quantity: None,
        status: Some("frozen".to_string()),
    };
    let s = sqlite::backend_stock_update_statement(&command, "1753142401").unwrap();
    assert_eq!(
        s.sql,
        "UPDATE commerce_inventory_stock SET updated_at = ?, available_quantity = CAST(? AS INTEGER), status = ? WHERE tenant_id = CAST(? AS TEXT) AND id = CAST(? AS TEXT)"
    );
    assert_eq!(s.args, vec![text("1753142401"), text("-5"), text("frozen"), text("tenant-1"), text("stock-9")]);
    let empty = UpdateBackendInventoryStockCommand { available_quantity: None, status: None, ..command };
    let err = sqlite::backend_stock_update_statement(&empty, "1").err().unwrap();
    assert_eq!(err.message, "at least one stock field must be provided");
    assert!(postgres::backend_stock_update_statement(&empty, "1").is_err());
}

#[test]
fn postgres_stock_update_writes_defaults() {
    let command = UpdateBackendInventoryStockCommand {
        tenant_id: "tenant-1".to_string(),
        organization_id: None,
        stock_id: "stock-9".to_string(),
        available_quantity: None,
        safety_stock_quantity: Some(4),
        status: None,
    };
    let s = postgres::backend_stock_update_statement(&command, "77").unwrap();
    assert_eq!(s.sql, postgres::PG_STOCK_UPDATE_SQL);
    assert_eq!(
        s.args,
        vec![SqlArg::Int(0), SqlArg::Int(4), text("active"), text("77"), text("tenant-1"), text("stock-9")]
    );
}

#[test]
fn sqlite_paged_lists_order_by_table() {
    let reservations = sqlite::backend_reservation_list_statements(&BackendInventoryReservationListQuery {
        tenant_id: "t".to_string(),
        organization_id: Some("o".to_string()),
        order_id: Some("order-1".to_string()),
        sku_id: None,
        status: Some("reserved".to_string()),
        page: 1,
        page_size: 5,
    });
    assert!(reservations.count.sql.starts_with("SELECT COUNT(*) AS total FROM commerce_inventory_reservation WHERE"));
    assert!(reservations.list.sql.ends_with(
        " AND order_id = CAST(? AS TEXT) AND status = CAST(? AS TEXT) ORDER BY updated_at DESC, id DESC LIMIT ? OFFSET ?"
    ));
    assert_eq!(reservations.count.args, vec![text("t"), text("o"), text("o"), text("order-1"), text("reserved")]);
    let movements = sqlite::backend_movement_list_statements(&BackendInventoryMovementListQuery {
        tenant_id: "t".to_string(),
        organization_id: None,
        sku_id: None,
        movement_type: Some("adjust".to_string()),
        page: 4,
        page_size: 300,
    });
    assert!(movements.list.sql.starts_with(&format!("SELECT {} FROM commerce_inventory_movement", sqlite::movement_select_columns())));
    assert!(movements.list.sql.ends_with(
        " AND movement_type = CAST(? AS TEXT) ORDER BY occurred_at DESC, id DESC LIMIT ? OFFSET ?"
    ));
    assert_eq!(movements.window.offset, 600);
    assert_eq!(movements.list.args.len(), 6);
    assert_eq!(movements.list.sql.matches('?').count(), movements.list.args.len());
}

#[test]
fn postgres_lists_scope_and_page() {
    let s = postgres::backend_stock_list_statements(&stock_query(0, 0));
    assert_eq!(s.count.sql, postgres::PG_STOCK_COUNT_SQL);
    assert_eq!(s.list.args, vec![text("tenant-1"), text(""), text(""), SqlArg::Int(1), SqlArg::Int(0)]);
    let merchant = postgres::merchant_stock_list_statements(
        &MerchantInventoryListQuery::new("tenant-1", None, 2, 2).unwrap(),
    );
    assert_eq!(
        merchant.list.sql,
        format!(
            "SELECT {} FROM commerce_inventory_stock WHERE tenant_id = $1 AND ((organization_id = $2) OR (organization_id IS NULL AND $3 = '')) ORDER BY updated_at DESC, id DESC LIMIT $4 OFFSET $5",
            postgres::merchant_stock_select_columns()
        )
    );
    assert_eq!(merchant.list.args[3..], [SqlArg::Int(2), SqlArg::Int(2)]);
}

#[test]
fn merchant_statements_bind_scope() {
    let scope = MerchantInventoryScopeQuery::new("tenant-1", Some("org-1")).unwrap();
    let query = MerchantInventoryListQuery::new("tenant-1", Some("org-1"), 2, 2).unwrap();
    let list = sqlite::merchant_stock_list_statements(&query);
    assert_eq!(list.count.args, vec![text("tenant-1"), text("org-1"), text("org-1")]);
    assert_eq!(
        list.list.args,
        vec![text("tenant-1"), text("org-1"), text("org-1"), SqlArg::Int(2), SqlArg::Int(2)]
    );
    assert!(list.list.sql.ends_with("ORDER BY updated_at DESC, id DESC LIMIT ? OFFSET ?"));
    assert!(list.count.sql.starts_with("SELECT COUNT(*) AS total FROM commerce_inventory_stock WHERE"));
    let adjust = sqlite::merchant_adjustment_statement(&scope, "stock-1", -3, "99");
    assert_eq!(adjust.args, vec![SqlArg::Int(-3), text("99"), text("tenant-1"), text("stock-1")]);
    let read = postgres::merchant_stock_by_id_statement(&scope, "stock-1");
    assert_eq!(read.args, vec![text("tenant-1"), text("stock-1")]);
}

#[test]
fn quantity_delta_prefers_camel_case_member() {
    let parse = |s: &str| serde_json::from_str::<serde_json::Value>(s).unwrap();
    assert_eq!(merchant_adjustment_quantity_delta(&parse(r#"{"quantityDelta": 5}"#)), 5);
    assert_eq!(merchant_adjustment_quantity_delta(&parse(r#"{"quantity_delta": -2}"#)), -2);
    assert_eq!(merchant_adjustment_quantity_delta(&parse(r#"{"quantityDelta": "7", "quantity_delta": 3}"#)), 0);
    assert_eq!(merchant_adjustment_quantity_delta(&parse(r#"{"quantityDelta": 1, "quantity_delta": 3}"#)), 1);
    assert_eq!(merchant_adjustment_quantity_delta(&parse("[1, 2]")), 0);
    assert_eq!(resolve_quantity_delta(None, Some(None)), 0);
    assert_eq!(resolve_quantity_delta(None, Some(Some(9))), 9);
}

#[test]
fn store_outcomes() {
    assert!(stock_update_outcome(1).is_ok());
    assert_eq!(stock_update_outcome(0).unwrap_err().message, "inventory stock was not found");
    assert_eq!(found_stock(Some(3)), Ok(3));
    assert_eq!(found_stock::<i32>(None).unwrap_err().code(), "not_found");
    let e = store_error("failed to list inventory rows");
    assert_eq!(e.message, "failed to list inventory rows");
    assert_eq!(e.code(), "storage");
    assert_eq!(string_cell(None), "");
    assert_eq!(i64_cell(Some(4)), 4);
    let page = BackendInventoryListPage::from_window(Vec::new(), page_window(3, 7), None);
    assert_eq!((page.page, page.page_size, page.total), (3, 7, 0));
}

#[test]
fn page_windows_that_overflow_are_detected() {
    assert!(fits_page_window(1, 200));
    assert!(fits_page_window(i64::MAX / 200, 200));
    assert!(!fits_page_window(i64::MAX, 200));
    assert!(fits_page_window(i64::MAX, 1));
}
