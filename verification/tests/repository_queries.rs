use sdkwork_inventory::repository::{MerchantInventoryListQuery, MerchantInventoryScopeQuery};

#[test]
fn merchant_list_query_rejects_invalid_offset_pagination() {
    assert!(MerchantInventoryListQuery::new("tenant-1", None, 0, 20).is_err());
    assert!(MerchantInventoryListQuery::new("tenant-1", None, 1, 0).is_err());
    assert!(MerchantInventoryListQuery::new("tenant-1", None, 1, 201).is_err());

    let query = MerchantInventoryListQuery::new("tenant-1", None, 2, 20).expect("valid pagination");
    assert_eq!(query.page, 2);
    assert_eq!(query.page_size, 20);
}

#[test]
fn merchant_list_query_reports_each_rejection() {
    let blank = MerchantInventoryListQuery::new("   ", None, 0, 500).unwrap_err();
    assert_eq!(blank.message, "tenant_id is required");
    let page = MerchantInventoryListQuery::new("tenant-1", None, 0, 500).unwrap_err();
    assert_eq!(page.message, "page must be greater than zero");
    assert_eq!(page.code(), "validation");
    let size = MerchantInventoryListQuery::new("tenant-1", None, 1, 500).unwrap_err();
    assert_eq!(size.message, "page_size must be between 1 and 200");
    let edge = MerchantInventoryListQuery::new(" tenant-1 ", Some(" org-9 "), 1, 200).unwrap();
    assert_eq!(edge.tenant_id, "tenant-1");
    assert_eq!(edge.organization_id, Some("org-9".to_string()));
    assert_eq!(edge.page_size, 200);
}

#[test]
fn merchant_scope_trims_tenant_and_drops_blank_organization() {
    let scope = MerchantInventoryScopeQuery::new("\u{3000}tenant-1\t", Some(" \u{a0} ")).unwrap();
    assert_eq!(scope.tenant_id, "tenant-1");
    assert_eq!(scope.organization_id, None);
    let err = MerchantInventoryScopeQuery::new(" \n ", Some("org")).unwrap_err();
    assert_eq!(err.message, "tenant_id is required");
}
