use sdkwork_inventory::commands::CreateInventoryReservationCommand;
use sdkwork_inventory::domain::{
    InventoryMovementDraft, InventoryMovementType, InventoryReservationDraft, InventoryReservationStatus,
    InventoryReservationTransition, InventoryStockDraft,
};
use sdkwork_inventory::error::{CommerceErrorKind, CommerceServiceError};
use sdkwork_inventory::queries::{InventoryReservationListQuery, InventoryStockQuery};
use sdkwork_inventory::text::{current_timestamp_string, optional_text, required_text};

#[test]
fn required_text_trims_unicode_white_space() {
    assert_eq!(required_text("sku_id", "\u{2003} sku-1 \u{3000}\n").unwrap(), "sku-1");
    let err = required_text("sku_id", " \u{85}\u{200a} ").unwrap_err();
    assert_eq!(err, CommerceServiceError::validation("sku_id is required"));
    assert_eq!(optional_text(Some("  w-1  ")), Some("w-1".to_string()));
    assert_eq!(optional_text(Some(" \t ")), None);
    assert_eq!(optional_text(None), None);
}

#[test]
fn stock_draft_checks_quantities_before_texts_and_texts_in_order() {
    let negative = InventoryStockDraft::new(" ", " ", None, 0, 0, 0, -1).unwrap_err();
    assert_eq!(negative.message, "inventory quantities and version must not be negative");
    let tenant = InventoryStockDraft::new(" ", " ", None, 0, 0, 0, 0).unwrap_err();
    assert_eq!(tenant.message, "tenant_id is required");
    let sku = InventoryStockDraft::new("t", " ", None, 0, 0, 0, 0).unwrap_err();
    assert_eq!(sku.message, "sku_id is required");
    let stock = InventoryStockDraft::new(" t ", " s ", Some("   "), 0, 0, 0, 0).unwrap();
    assert_eq!(stock.tenant_id, "t");
    assert_eq!(stock.sku_id, "s");
    assert_eq!(stock.warehouse_id, None);
}

#[test]
fn reservation_draft_reports_first_blank_field() {
    let err = InventoryReservationDraft::new("t", "r", "o", "s", None, 1, " ", " ").unwrap_err();
    assert_eq!(err.message, "expires_at is required");
    let err = InventoryReservationDraft::new("t", "r", "o", "s", None, -3, " ", " ").unwrap_err();
    assert_eq!(err.message, "inventory reservation quantity must be greater than zero");
    let ok = InventoryReservationDraft::new("t", " r ", "o", "s", Some(" w "), 1, "e", "k").unwrap();
    assert_eq!(ok.reservation_id, "r");
    assert_eq!(ok.warehouse_id, Some("w".to_string()));
}

#[test]
fn movement_draft_reports_first_blank_field() {
    let err = InventoryMovementDraft::new("t", "m", "s", None, InventoryMovementType::Adjust, 4, "b", "").unwrap_err();
    assert_eq!(err.message, "source_id is required");
    let err = InventoryMovementDraft::new("t", "m", "s", None, InventoryMovementType::Adjust, 0, "", "").unwrap_err();
    assert_eq!(err.message, "inventory movement quantity must be greater than zero");
}

#[test]
fn reservation_command_checks_idempotency_key_first() {
    let err = CreateInventoryReservationCommand::new(" ", " ", " ", 1, " ", " ").unwrap_err();
    assert_eq!(err.message, "idempotency_key is required");
    let err = CreateInventoryReservationCommand::new(" ", "o", "s", 1, "r", "k").unwrap_err();
    assert_eq!(err.message, "tenant_id is required");
    let err = CreateInventoryReservationCommand::new("t", "o", "s", 0, "r", "k").unwrap_err();
    assert_eq!(err.kind, CommerceErrorKind::Validation);
    let command = CreateInventoryReservationCommand::new(" t ", "o", "s", 3, "r", "k").unwrap();
    assert_eq!(command.tenant_id, "t");
    assert_eq!(command.quantity, 3);
}

#[test]
fn queries_check_their_fields() {
    let err = InventoryStockQuery::new(" ", " ", None).unwrap_err();
    assert_eq!(err.message, "sku_id is required");
    let query = InventoryStockQuery::new(" t ", " s ", Some(" w ")).unwrap();
    assert_eq!(query.warehouse_id, Some("w".to_string()));
    let err = InventoryReservationListQuery::new("", Some("o"), None).unwrap_err();
    assert_eq!(err.message, "tenant_id is required");
    let list = InventoryReservationListQuery::new("t", Some(" "), Some(" s ")).unwrap();
    assert_eq!(list.order_id, None);
    assert_eq!(list.sku_id, Some("s".to_string()));
}

#[test]
fn final_reservation_statuses_never_move() {
    let all = [
        InventoryReservationStatus::Reserved,
        InventoryReservationStatus::Consumed,
        InventoryReservationStatus::Released,
        InventoryReservationStatus::Expired,
    ];
    for from in all {
        for to in all {
            let allowed = InventoryReservationTransition::new(from, to).validate().is_ok();
            assert_eq!(
                allowed,
                from == InventoryReservationStatus::Reserved && to != InventoryReservationStatus::Reserved
            );
        }
    }
    assert_eq!(InventoryReservationStatus::Expired.as_storage_str(), "expired");
}

#[test]
fn error_codes_name_their_kind() {
    assert_eq!(CommerceServiceError::validation("m").code(), "validation");
    assert_eq!(CommerceServiceError::invalid_state("m").code(), "invalid_state");
    assert_eq!(CommerceServiceError::not_found("m").code(), "not_found");
    assert_eq!(CommerceServiceError::conflict("m").code(), "conflict");
    assert_eq!(CommerceServiceError::storage("m").code(), "storage");
    assert_eq!(CommerceServiceError::storage("m").message(), "m");
}

#[test]
fn timestamps_are_decimal_seconds() {
    assert_eq!(current_timestamp_string(Some(1_753_142_401)), "1753142401");
    assert_eq!(current_timestamp_string(Some(0)), "0");
    assert_eq!(current_timestamp_string(None), "0");
}
