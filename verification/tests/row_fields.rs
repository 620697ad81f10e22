use sdkwork_inventory::rows::{
    merchant_stock_row_fields, movement_row_fields, pg_movement_row_fields, pg_reservation_row_fields,
    reservation_row_fields, stock_row_fields, CellKind, RowField,
};
use std::collections::HashSet;

fn keys_unique(fields: &[RowField]) -> bool {
    let keys: HashSet<&str> = fields.iter().map(|f| f.key).collect();
    keys.len() == fields.len()
}

#[test]
fn row_tables_name_each_member_once() {
    let tables = [
        (stock_row_fields(), 17),
        (merchant_stock_row_fields(), 14),
        (reservation_row_fields(), 26),
        (movement_row_fields(), 19),
        (pg_reservation_row_fields(), 10),
        (pg_movement_row_fields(), 9),
    ];
    for (fields, len) in tables {
        assert_eq!(fields.len(), len);
        assert!(keys_unique(&fields));
    }
}

#[test]
fn stock_rows_read_columns_into_camel_case_members() {
    let fields = stock_row_fields();
    assert_eq!(fields[1].column, "tenant_id");
    assert_eq!(fields[1].key, "tenantId");
    assert_eq!(fields[1].kind, CellKind::Text);
    assert_eq!(fields[2].kind, CellKind::OptionalText);
    let movement = movement_row_fields();
    let before = movement.iter().find(|f| f.column == "quantity_before").unwrap();
    assert_eq!(before.key, "quantityBefore");
    assert_eq!(before.kind, CellKind::OptionalInteger);
}
