use sdkwork_inventory::error::CommerceErrorKind;
use sdkwork_inventory::http::{
    app_error_reply, app_route_manifest, app_unauthorized_reply, app_validation_reply, backend_error_reply,
    backend_route_manifest, backend_unauthorized_reply, gateway_route_manifest, merchant_request_scope,
    merchant_stock_list_request, merchant_stock_page_info, CallerSubject, HttpMethod, MISSING_SUBJECT_MESSAGE,
};
use sdkwork_inventory::paging::page_window;
use sdkwork_inventory::repository::{
    BackendInventoryListPage, BackendInventoryMovementListQuery, BackendInventoryReservationListQuery,
    BackendInventoryStockListQuery, UpdateBackendInventoryStockCommand,
};

#[test]
fn route_tables_list_each_operation_once() {
    let app = app_route_manifest();
    assert_eq!(app.routes.len(), 2);
    assert_eq!(app.routes[1].method, HttpMethod::Post);
    assert_eq!(app.routes[1].path, "/app/v3/api/shops/current/inventory/stocks/{stockId}/adjustments");
    let backend = backend_route_manifest();
    assert_eq!(backend.routes.len(), 4);
    for (i, a) in backend.routes.iter().enumerate() {
        for (j, b) in backend.routes.iter().enumerate() {
            if i != j {
                assert!(!(a.method == b.method && a.path == b.path));
            }
        }
        let expected = if a.method == HttpMethod::Get { "commerce.inventory.read" } else { "commerce.inventory.manage" };
        assert_eq!(a.permission, expected);
    }
    assert_eq!(gateway_route_manifest(), backend);
}

#[test]
fn error_replies_follow_the_envelope_codes() {
    let r = app_error_reply(CommerceErrorKind::Conflict);
    assert_eq!((r.status, r.code), (500, "5000"));
    let r = backend_error_reply(CommerceErrorKind::Conflict);
    assert_eq!((r.status, r.code), (409, "4090"));
    let r = backend_error_reply(CommerceErrorKind::Validation);
    assert_eq!((r.status, r.code), (400, "4001"));
    let r = app_error_reply(CommerceErrorKind::NotFound);
    assert_eq!((r.status, r.code), (404, "4040"));
    assert_eq!(app_unauthorized_reply().code, "401");
    assert_eq!(backend_unauthorized_reply().code, "4010");
    assert_eq!(app_validation_reply().status, 400);
}

#[test]
fn list_requests_default_their_page() {
    let caller = CallerSubject { tenant_id: "t".to_string(), organization_id: None };
    let q = BackendInventoryStockListQuery::from_request(Some(caller), None, None, None, None, Some(50)).unwrap();
    assert_eq!((q.page, q.page_size), (1, 50));
    assert_eq!(q.tenant_id, "t");
    let page = BackendInventoryListPage::from_window(Vec::new(), page_window(2, 20), Some(25));
    let info = merchant_stock_page_info(&page);
    assert_eq!((info.page, info.page_size, info.total), (2, 20, 25));
}

#[test]
fn requests_without_subject_are_refused() {
    let refusal = BackendInventoryStockListQuery::from_request(None, None, None, None, None, None).unwrap_err();
    assert_eq!((refusal.reply.status, refusal.reply.code), (401, "4010"));
    assert_eq!(refusal.message, MISSING_SUBJECT_MESSAGE);
    let refusal = UpdateBackendInventoryStockCommand::from_request(None, "s".to_string(), Some(1), None, None)
        .unwrap_err();
    assert_eq!(refusal.reply.code, "4010");
    assert!(BackendInventoryReservationListQuery::from_request(None, None, None, None, None, None).is_err());
    assert!(BackendInventoryMovementListQuery::from_request(None, None, None, None, None).is_err());
    let refusal = merchant_stock_list_request(None).unwrap_err();
    assert_eq!((refusal.reply.status, refusal.reply.code), (401, "401"));
    let blank = CallerSubject { tenant_id: "  ".to_string(), organization_id: None };
    let refusal = merchant_request_scope(Some(blank)).unwrap_err();
    assert_eq!((refusal.reply.status, refusal.reply.code), (400, "400"));
    assert_eq!(refusal.message, "tenant_id is required");
    let caller = CallerSubject { tenant_id: " tenant-1 ".to_string(), organization_id: Some(" ".to_string()) };
    let query = merchant_stock_list_request(Some(caller)).unwrap();
    assert_eq!((query.tenant_id.as_str(), query.organization_id, query.page, query.page_size), ("tenant-1", None, 1, 20));
}
