//! How a row read by a store becomes the JSON object of a reply: which
//! column fills which member, and how a missing or null cell reads.
use vstd::prelude::*;

verus! {

/// How a cell is read: a text or an integer, and whether a missing or
/// null cell stays absent (`Optional..`) or reads as the empty text or 0.
#[derive(Clone, Copy, Debug, PartialEq, Eq, Structural)]
pub enum CellKind {
    Text,
    OptionalText,
    Integer,
    OptionalInteger,
}

/// One member of a reply object: the column it is read from, the member
/// name, and how the cell is read.
#[derive(Clone, Copy, Debug, PartialEq, Eq)]
pub struct RowField {
    pub column: &'static str,
    pub key: &'static str,
    pub kind: CellKind,
}

/// `fields` are, in order, the given columns, member names and kinds.
pub open spec fn fields_are(fields: Seq<RowField>, expected: Seq<(Seq<char>, Seq<char>, CellKind)>) -> bool {
    &&& fields.len() == expected.len()
    &&& forall|i: int|
        0 <= i < fields.len() ==> {
            &&& (#[trigger] fields[i]).column@ == expected[i].0
            &&& fields[i].key@ == expected[i].1
            &&& fields[i].kind == expected[i].2
        }
}

fn field(column: &'static str, key: &'static str, kind: CellKind) -> (f: RowField)
    ensures
        f.column == column,
        f.key == key,
        f.kind == kind,
{
    RowField { column, key, kind }
}

/// The members of the backend stock rows of both stores, in order.
pub open spec fn stock_row_field_table() -> Seq<(Seq<char>, Seq<char>, CellKind)> {
    seq![
        ("id"@, "id"@, CellKind::Text),
        ("tenant_id"@, "tenantId"@, CellKind::Text),
        ("organization_id"@, "organizationId"@, CellKind::OptionalText),
        ("shop_id"@, "shopId"@, CellKind::OptionalText),
        ("sku_id"@, "skuId"@, CellKind::Text),
        ("warehouse_id"@, "warehouseId"@, CellKind::OptionalText),
        ("fulfillment_node_id"@, "fulfillmentNodeId"@, CellKind::Text),
        ("on_hand_quantity"@, "onHandQuantity"@, CellKind::Integer),
        ("available_quantity"@, "availableQuantity"@, CellKind::Integer),
        ("locked_quantity"@, "lockedQuantity"@, CellKind::Integer),
        ("reserved_quantity"@, "reservedQuantity"@, CellKind::Integer),
        ("sold_quantity"@, "soldQuantity"@, CellKind::Integer),
        ("safety_stock_quantity"@, "safetyStockQuantity"@, CellKind::Integer),
        ("version"@, "version"@, CellKind::Integer),
        ("status"@, "status"@, CellKind::Text),
        ("created_at"@, "createdAt"@, CellKind::Text),
        ("updated_at"@, "updatedAt"@, CellKind::Text),
    ]
}

/// Each member of a backend stock reply object is named by the camel-case
/// form of the column it is read from.
#[verifier::rlimit(40)]
pub proof fn lemma_stock_keys_follow_columns()
    ensures
        keys_follow_columns(stock_row_field_table()),
{
    let table = stock_row_field_table();
    assert(spells_camel_case("id"@, 0, "id"@, 0)) by {
        reveal_strlit("id");
        reveal_with_fuel(spells_camel_case, 3);
    }
    lemma_spelled_camel_case("id"@, 0, "id"@, 0);
    assert(spells_camel_case("tenant_id"@, 0, "tenantId"@, 0)) by {
        reveal_strlit("tenant_id");
        reveal_strlit("tenantId");
        reveal_with_fuel(spells_camel_case, 10);
    }
    lemma_spelled_camel_case("tenant_id"@, 0, "tenantId"@, 0);
    assert(spells_camel_case("organization_id"@, 0, "organizationId"@, 0)) by {
        reveal_strlit("organization_id");
        reveal_strlit("organizationId");
        reveal_with_fuel(spells_camel_case, 16);
    }
    lemma_spelled_camel_case("organization_id"@, 0, "organizationId"@, 0);
    assert(spells_camel_case("shop_id"@, 0, "shopId"@, 0)) by {
        reveal_strlit("shop_id");
        reveal_strlit("shopId");
        reveal_with_fuel(spells_camel_case, 8);
    }
    lemma_spelled_camel_case("shop_id"@, 0, "shopId"@, 0);
    assert(spells_camel_case("sku_id"@, 0, "skuId"@, 0)) by {
        reveal_strlit("sku_id");
        reveal_strlit("skuId");
        reveal_with_fuel(spells_camel_case, 7);
    }
    lemma_spelled_camel_case("sku_id"@, 0, "skuId"@, 0);
    assert(spells_camel_case("warehouse_id"@, 0, "warehouseId"@, 0)) by {
        reveal_strlit("warehouse_id");
        reveal_strlit("warehouseId");
        reveal_with_fuel(spells_camel_case, 13);
    }
    lemma_spelled_camel_case("warehouse_id"@, 0, "warehouseId"@, 0);
    assert(spells_camel_case("fulfillment_node_id"@, 0, "fulfillmentNodeId"@, 0)) by {
        reveal_strlit("fulfillment_node_id");
        reveal_strlit("fulfillmentNodeId");
        reveal_with_fuel(spells_camel_case, 20);
    }
    lemma_spelled_camel_case("fulfillment_node_id"@, 0, "fulfillmentNodeId"@, 0);
    assert(spells_camel_case("on_hand_quantity"@, 0, "onHandQuantity"@, 0)) by {
        reveal_strlit("on_hand_quantity");
        reveal_strlit("onHandQuantity");
        reveal_with_fuel(spells_camel_case, 17);
    }
    lemma_spelled_camel_case("on_hand_quantity"@, 0, "onHandQuantity"@, 0);
    assert(spells_camel_case("available_quantity"@, 0, "availableQuantity"@, 0)) by {
        reveal_strlit("available_quantity");
        reveal_strlit("availableQuantity");
        reveal_with_fuel(spells_camel_case, 19);
    }
    lemma_spelled_camel_case("available_quantity"@, 0, "availableQuantity"@, 0);
    assert(spells_camel_case("locked_quantity"@, 0, "lockedQuantity"@, 0)) by {
        reveal_strlit("locked_quantity");
        reveal_strlit("lockedQuantity");
        reveal_with_fuel(spells_camel_case, 16);
    }
    lemma_spelled_camel_case("locked_quantity"@, 0, "lockedQuantity"@, 0);
    assert(spells_camel_case("reserved_quantity"@, 0, "reservedQuantity"@, 0)) by {
        reveal_strlit("reserved_quantity");
        reveal_strlit("reservedQuantity");
        reveal_with_fuel(spells_camel_case, 18);
    }
    lemma_spelled_camel_case("reserved_quantity"@, 0, "reservedQuantity"@, 0);
    assert(spells_camel_case("sold_quantity"@, 0, "soldQuantity"@, 0)) by {
        reveal_strlit("sold_quantity");
        reveal_strlit("soldQuantity");
        reveal_with_fuel(spells_camel_case, 14);
    }
    lemma_spelled_camel_case("sold_quantity"@, 0, "soldQuantity"@, 0);
    assert(spells_camel_case("safety_stock_quantity"@, 0, "safetyStockQuantity"@, 0)) by {
        reveal_strlit("safety_stock_quantity");
        reveal_strlit("safetyStockQuantity");
        reveal_with_fuel(spells_camel_case, 22);
    }
    lemma_spelled_camel_case("safety_stock_quantity"@, 0, "safetyStockQuantity"@, 0);
    assert(spells_camel_case("version"@, 0, "version"@, 0)) by {
        reveal_strlit("version");
        reveal_with_fuel(spells_camel_case, 8);
    }
    lemma_spelled_camel_case("version"@, 0, "version"@, 0);
    assert(spells_camel_case("status"@, 0, "status"@, 0)) by {
        reveal_strlit("status");
        reveal_with_fuel(spells_camel_case, 7);
    }
    lemma_spelled_camel_case("status"@, 0, "status"@, 0);
    assert(spells_camel_case("created_at"@, 0, "createdAt"@, 0)) by {
        reveal_strlit("created_at");
        reveal_strlit("createdAt");
        reveal_with_fuel(spells_camel_case, 11);
    }
    lemma_spelled_camel_case("created_at"@, 0, "createdAt"@, 0);
    assert(spells_camel_case("updated_at"@, 0, "updatedAt"@, 0)) by {
        reveal_strlit("updated_at");
        reveal_strlit("updatedAt");
        reveal_with_fuel(spells_camel_case, 11);
    }
    lemma_spelled_camel_case("updated_at"@, 0, "updatedAt"@, 0);
    assert forall|i: int| 0 <= i < table.len() implies (#[trigger] table[i]).1 == camel_case(table[i].0) by {
        if i == 0 {
        } else if i == 1 {
        } else if i == 2 {
        } else if i == 3 {
        } else if i == 4 {
        } else if i == 5 {
        } else if i == 6 {
        } else if i == 7 {
        } else if i == 8 {
        } else if i == 9 {
        } else if i == 10 {
        } else if i == 11 {
        } else if i == 12 {
        } else if i == 13 {
        } else if i == 14 {
        } else if i == 15 {
        } else if i == 16 {
        }
    }
}

/// The members of the backend stock rows of both stores, in order.
pub fn stock_row_fields() -> (f: Vec<RowField>)
    ensures
        fields_are(f@, stock_row_field_table()),
        keys_are_camel_case(f@),
{
    let mut f: Vec<RowField> = Vec::new();
    f.push(field("id", "id", CellKind::Text));
    f.push(field("tenant_id", "tenantId", CellKind::Text));
    f.push(field("organization_id", "organizationId", CellKind::OptionalText));
    f.push(field("shop_id", "shopId", CellKind::OptionalText));
    f.push(field("sku_id", "skuId", CellKind::Text));
    f.push(field("warehouse_id", "warehouseId", CellKind::OptionalText));
    f.push(field("fulfillment_node_id", "fulfillmentNodeId", CellKind::Text));
    f.push(field("on_hand_quantity", "onHandQuantity", CellKind::Integer));
    f.push(field("available_quantity", "availableQuantity", CellKind::Integer));
    f.push(field("locked_quantity", "lockedQuantity", CellKind::Integer));
    f.push(field("reserved_quantity", "reservedQuantity", CellKind::Integer));
    f.push(field("sold_quantity", "soldQuantity", CellKind::Integer));
    f.push(field("safety_stock_quantity", "safetyStockQuantity", CellKind::Integer));
    f.push(field("version", "version", CellKind::Integer));
    f.push(field("status", "status", CellKind::Text));
    f.push(field("created_at", "createdAt", CellKind::Text));
    f.push(field("updated_at", "updatedAt", CellKind::Text));
    assert(fields_are(f@, stock_row_field_table()));
    proof {
        lemma_stock_keys_follow_columns();
        lemma_fields_keys(f@, stock_row_field_table());
    }
    f
}

/// The upper-case form of an ASCII lower-case letter; any other character
/// stays as it is.
pub open spec fn ascii_upper(c: char) -> char {
    if 'a' <= c && c <= 'z' {
        ((c as int) - 32) as char
    } else {
        c
    }
}

/// The camel-case form of `name` from position `start` on: each underscore
/// that a character follows is dropped and that character is upper-cased.
pub open spec fn camel_case_from(name: Seq<char>, start: int) -> Seq<char>
    decreases name.len() - start,
{
    if start < 0 || start >= name.len() {
        Seq::empty()
    } else if name[start] == '_' && start + 1 < name.len() {
        seq![ascii_upper(name[start + 1])] + camel_case_from(name, start + 2)
    } else {
        seq![name[start]] + camel_case_from(name, start + 1)
    }
}

/// The camel-case form of a snake-case name.
pub open spec fn camel_case(name: Seq<char>) -> Seq<char> {
    camel_case_from(name, 0)
}

/// `key` from position `at` on spells the camel-case form of `name` from
/// position `start` on, read character by character.
pub open spec fn spells_camel_case(name: Seq<char>, start: int, key: Seq<char>, at: int) -> bool
    decreases name.len() - start,
{
    if start < 0 || start >= name.len() {
        at == key.len()
    } else if name[start] == '_' && start + 1 < name.len() {
        &&& 0 <= at < key.len()
        &&& key[at] == ascii_upper(name[start + 1])
        &&& spells_camel_case(name, start + 2, key, at + 1)
    } else {
        &&& 0 <= at < key.len()
        &&& key[at] == name[start]
        &&& spells_camel_case(name, start + 1, key, at + 1)
    }
}

proof fn lemma_spelled_camel_case(name: Seq<char>, start: int, key: Seq<char>, at: int)
    requires
        0 <= start,
        0 <= at <= key.len(),
        spells_camel_case(name, start, key, at),
    ensures
        key.subrange(at, key.len() as int) == camel_case_from(name, start),
    decreases name.len() - start,
{
    if start >= name.len() {
        assert(key.subrange(at, key.len() as int) =~= Seq::<char>::empty());
    } else if name[start] == '_' && start + 1 < name.len() {
        lemma_spelled_camel_case(name, start + 2, key, at + 1);
        assert(key.subrange(at, key.len() as int) =~= seq![key[at]] + key.subrange(at + 1, key.len() as int));
    } else {
        lemma_spelled_camel_case(name, start + 1, key, at + 1);
        assert(key.subrange(at, key.len() as int) =~= seq![key[at]] + key.subrange(at + 1, key.len() as int));
    }
}

/// Each member name of `table` is the camel-case form of its column.
pub open spec fn keys_follow_columns(table: Seq<(Seq<char>, Seq<char>, CellKind)>) -> bool {
    forall|i: int| 0 <= i < table.len() ==> (#[trigger] table[i]).1 == camel_case(table[i].0)
}

/// Each member of `fields` is named by the camel-case form of the column it
/// is read from.
pub open spec fn keys_are_camel_case(fields: Seq<RowField>) -> bool {
    forall|i: int| 0 <= i < fields.len() ==> (#[trigger] fields[i]).key@ == camel_case(fields[i].column@)
}

proof fn lemma_fields_keys(fields: Seq<RowField>, table: Seq<(Seq<char>, Seq<char>, CellKind)>)
    requires
        fields_are(fields, table),
        keys_follow_columns(table),
    ensures
        keys_are_camel_case(fields),
{
}

/// The members of the merchant stock rows of both stores, in order.
pub open spec fn merchant_stock_row_field_table() -> Seq<(Seq<char>, Seq<char>, CellKind)> {
    seq![
        ("id"@, "id"@, CellKind::Text),
        ("tenant_id"@, "tenantId"@, CellKind::Text),
        ("organization_id"@, "organizationId"@, CellKind::OptionalText),
        ("sku_id"@, "skuId"@, CellKind::Text),
        ("warehouse_id"@, "warehouseId"@, CellKind::OptionalText),
        ("fulfillment_node_id"@, "fulfillmentNodeId"@, CellKind::Text),
        ("available_quantity"@, "availableQuantity"@, CellKind::Integer),
        ("reserved_quantity"@, "reservedQuantity"@, CellKind::Integer),
        ("inbound_quantity"@, "inboundQuantity"@, CellKind::Integer),
        ("damaged_quantity"@, "damagedQuantity"@, CellKind::Integer),
        ("status"@, "status"@, CellKind::Text),
        ("version"@, "version"@, CellKind::Integer),
        ("created_at"@, "createdAt"@, CellKind::Text),
        ("updated_at"@, "updatedAt"@, CellKind::Text),
    ]
}

/// Each member of a merchant stock reply object is named by the camel-case
/// form of the column it is read from.
#[verifier::rlimit(40)]
pub proof fn lemma_merchant_stock_keys_follow_columns()
    ensures
        keys_follow_columns(merchant_stock_row_field_table()),
{
    let table = merchant_stock_row_field_table();
    assert(spells_camel_case("id"@, 0, "id"@, 0)) by {
        reveal_strlit("id");
        reveal_with_fuel(spells_camel_case, 3);
    }
    lemma_spelled_camel_case("id"@, 0, "id"@, 0);
    assert(spells_camel_case("tenant_id"@, 0, "tenantId"@, 0)) by {
        reveal_strlit("tenant_id");
        reveal_strlit("tenantId");
        reveal_with_fuel(spells_camel_case, 10);
    }
    lemma_spelled_camel_case("tenant_id"@, 0, "tenantId"@, 0);
    assert(spells_camel_case("organization_id"@, 0, "organizationId"@, 0)) by {
        reveal_strlit("organization_id");
        reveal_strlit("organizationId");
        reveal_with_fuel(spells_camel_case, 16);
    }
    lemma_spelled_camel_case("organization_id"@, 0, "organizationId"@, 0);
    assert(spells_camel_case("sku_id"@, 0, "skuId"@, 0)) by {
        reveal_strlit("sku_id");
        reveal_strlit("skuId");
        reveal_with_fuel(spells_camel_case, 7);
    }
    lemma_spelled_camel_case("sku_id"@, 0, "skuId"@, 0);
    assert(spells_camel_case("warehouse_id"@, 0, "warehouseId"@, 0)) by {
        reveal_strlit("warehouse_id");
        reveal_strlit("warehouseId");
        reveal_with_fuel(spells_camel_case, 13);
    }
    lemma_spelled_camel_case("warehouse_id"@, 0, "warehouseId"@, 0);
    assert(spells_camel_case("fulfillment_node_id"@, 0, "fulfillmentNodeId"@, 0)) by {
        reveal_strlit("fulfillment_node_id");
        reveal_strlit("fulfillmentNodeId");
        reveal_with_fuel(spells_camel_case, 20);
    }
    lemma_spelled_camel_case("fulfillment_node_id"@, 0, "fulfillmentNodeId"@, 0);
    assert(spells_camel_case("available_quantity"@, 0, "availableQuantity"@, 0)) by {
        reveal_strlit("available_quantity");
        reveal_strlit("availableQuantity");
        reveal_with_fuel(spells_camel_case, 19);
    }
    lemma_spelled_camel_case("available_quantity"@, 0, "availableQuantity"@, 0);
    assert(spells_camel_case("reserved_quantity"@, 0, "reservedQuantity"@, 0)) by {
        reveal_strlit("reserved_quantity");
        reveal_strlit("reservedQuantity");
        reveal_with_fuel(spells_camel_case, 18);
    }
    lemma_spelled_camel_case("reserved_quantity"@, 0, "reservedQuantity"@, 0);
    assert(spells_camel_case("inbound_quantity"@, 0, "inboundQuantity"@, 0)) by {
        reveal_strlit("inbound_quantity");
        reveal_strlit("inboundQuantity");
        reveal_with_fuel(spells_camel_case, 17);
    }
    lemma_spelled_camel_case("inbound_quantity"@, 0, "inboundQuantity"@, 0);
    assert(spells_camel_case("damaged_quantity"@, 0, "damagedQuantity"@, 0)) by {
        reveal_strlit("damaged_quantity");
        reveal_strlit("damagedQuantity");
        reveal_with_fuel(spells_camel_case, 17);
    }
    lemma_spelled_camel_case("damaged_quantity"@, 0, "damagedQuantity"@, 0);
    assert(spells_camel_case("status"@, 0, "status"@, 0)) by {
        reveal_strlit("status");
        reveal_with_fuel(spells_camel_case, 7);
    }
    lemma_spelled_camel_case("status"@, 0, "status"@, 0);
    assert(spells_camel_case("version"@, 0, "version"@, 0)) by {
        reveal_strlit("version");
        reveal_with_fuel(spells_camel_case, 8);
    }
    lemma_spelled_camel_case("version"@, 0, "version"@, 0);
    assert(spells_camel_case("created_at"@, 0, "createdAt"@, 0)) by {
        reveal_strlit("created_at");
        reveal_strlit("createdAt");
        reveal_with_fuel(spells_camel_case, 11);
    }
    lemma_spelled_camel_case("created_at"@, 0, "createdAt"@, 0);
    assert(spells_camel_case("updated_at"@, 0, "updatedAt"@, 0)) by {
        reveal_strlit("updated_at");
        reveal_strlit("updatedAt");
        reveal_with_fuel(spells_camel_case, 11);
    }
    lemma_spelled_camel_case("updated_at"@, 0, "updatedAt"@, 0);
    assert forall|i: int| 0 <= i < table.len() implies (#[trigger] table[i]).1 == camel_case(table[i].0) by {
        if i == 0 {
        } else if i == 1 {
        } else if i == 2 {
        } else if i == 3 {
        } else if i == 4 {
        } else if i == 5 {
        } else if i == 6 {
        } else if i == 7 {
        } else if i == 8 {
        } else if i == 9 {
        } else if i == 10 {
        } else if i == 11 {
        } else if i == 12 {
        } else if i == 13 {
        }
    }
}

/// The members of the merchant stock rows of both stores, in order.
pub fn merchant_stock_row_fields() -> (f: Vec<RowField>)
    ensures
        fields_are(f@, merchant_stock_row_field_table()),
        keys_are_camel_case(f@),
{
    let mut f: Vec<RowField> = Vec::new();
    f.push(field("id", "id", CellKind::Text));
    f.push(field("tenant_id", "tenantId", CellKind::Text));
    f.push(field("organization_id", "organizationId", CellKind::OptionalText));
    f.push(field("sku_id", "skuId", CellKind::Text));
    f.push(field("warehouse_id", "warehouseId", CellKind::OptionalText));
    f.push(field("fulfillment_node_id", "fulfillmentNodeId", CellKind::Text));
    f.push(field("available_quantity", "availableQuantity", CellKind::Integer));
    f.push(field("reserved_quantity", "reservedQuantity", CellKind::Integer));
    f.push(field("inbound_quantity", "inboundQuantity", CellKind::Integer));
    f.push(field("damaged_quantity", "damagedQuantity", CellKind::Integer));
    f.push(field("status", "status", CellKind::Text));
    f.push(field("version", "version", CellKind::Integer));
    f.push(field("created_at", "createdAt", CellKind::Text));
    f.push(field("updated_at", "updatedAt", CellKind::Text));
    assert(fields_are(f@, merchant_stock_row_field_table()));
    proof {
        lemma_merchant_stock_keys_follow_columns();
        lemma_fields_keys(f@, merchant_stock_row_field_table());
    }
    f
}

/// The members of the reservation rows of the SQLite store, in order.
pub open spec fn reservation_row_field_table() -> Seq<(Seq<char>, Seq<char>, CellKind)> {
    seq![
        ("id"@, "id"@, CellKind::Text),
        ("tenant_id"@, "tenantId"@, CellKind::Text),
        ("organization_id"@, "organizationId"@, CellKind::OptionalText),
        ("reservation_no"@, "reservationNo"@, CellKind::Text),
        ("order_id"@, "orderId"@, CellKind::OptionalText),
        ("checkout_session_id"@, "checkoutSessionId"@, CellKind::OptionalText),
        ("order_item_id"@, "orderItemId"@, CellKind::OptionalText),
        ("reservation_source_type"@, "reservationSourceType"@, CellKind::Text),
        ("reservation_source_id"@, "reservationSourceId"@, CellKind::Text),
        ("reservation_type"@, "reservationType"@, CellKind::Text),
        ("sku_id"@, "skuId"@, CellKind::Text),
        ("warehouse_id"@, "warehouseId"@, CellKind::OptionalText),
        ("fulfillment_node_id"@, "fulfillmentNodeId"@, CellKind::Text),
        ("quantity"@, "quantity"@, CellKind::Integer),
        ("reserved_quantity"@, "reservedQuantity"@, CellKind::Integer),
        ("consumed_quantity"@, "consumedQuantity"@, CellKind::Integer),
        ("released_quantity"@, "releasedQuantity"@, CellKind::Integer),
        ("status"@, "status"@, CellKind::Text),
        ("release_reason_code"@, "releaseReasonCode"@, CellKind::OptionalText),
        ("request_no"@, "requestNo"@, CellKind::Text),
        ("idempotency_key"@, "idempotencyKey"@, CellKind::Text),
        ("expires_at"@, "expiresAt"@, CellKind::Text),
        ("consumed_at"@, "consumedAt"@, CellKind::OptionalText),
        ("released_at"@, "releasedAt"@, CellKind::OptionalText),
        ("created_at"@, "createdAt"@, CellKind::Text),
        ("updated_at"@, "updatedAt"@, CellKind::Text),
    ]
}

/// Each member of a reservation reply object is named by the camel-case
/// form of the column it is read from.
#[verifier::rlimit(40)]
pub proof fn lemma_reservation_keys_follow_columns()
    ensures
        keys_follow_columns(reservation_row_field_table()),
{
    let table = reservation_row_field_table();
    assert(spells_camel_case("id"@, 0, "id"@, 0)) by {
        reveal_strlit("id");
        reveal_with_fuel(spells_camel_case, 3);
    }
    lemma_spelled_camel_case("id"@, 0, "id"@, 0);
    assert(spells_camel_case("tenant_id"@, 0, "tenantId"@, 0)) by {
        reveal_strlit("tenant_id");
        reveal_strlit("tenantId");
        reveal_with_fuel(spells_camel_case, 10);
    }
    lemma_spelled_camel_case("tenant_id"@, 0, "tenantId"@, 0);
    assert(spells_camel_case("organization_id"@, 0, "organizationId"@, 0)) by {
        reveal_strlit("organization_id");
        reveal_strlit("organizationId");
        reveal_with_fuel(spells_camel_case, 16);
    }
    lemma_spelled_camel_case("organization_id"@, 0, "organizationId"@, 0);
    assert(spells_camel_case("reservation_no"@, 0, "reservationNo"@, 0)) by {
        reveal_strlit("reservation_no");
        reveal_strlit("reservationNo");
        reveal_with_fuel(spells_camel_case, 15);
    }
    lemma_spelled_camel_case("reservation_no"@, 0, "reservationNo"@, 0);
    assert(spells_camel_case("order_id"@, 0, "orderId"@, 0)) by {
        reveal_strlit("order_id");
        reveal_strlit("orderId");
        reveal_with_fuel(spells_camel_case, 9);
    }
    lemma_spelled_camel_case("order_id"@, 0, "orderId"@, 0);
    assert(spells_camel_case("checkout_session_id"@, 0, "checkoutSessionId"@, 0)) by {
        reveal_strlit("checkout_session_id");
        reveal_strlit("checkoutSessionId");
        reveal_with_fuel(spells_camel_case, 20);
    }
    lemma_spelled_camel_case("checkout_session_id"@, 0, "checkoutSessionId"@, 0);
    assert(spells_camel_case("order_item_id"@, 0, "orderItemId"@, 0)) by {
        reveal_strlit("order_item_id");
        reveal_strlit("orderItemId");
        reveal_with_fuel(spells_camel_case, 14);
    }
    lemma_spelled_camel_case("order_item_id"@, 0, "orderItemId"@, 0);
    assert(spells_camel_case("reservation_source_type"@, 0, "reservationSourceType"@, 0)) by {
        reveal_strlit("reservation_source_type");
        reveal_strlit("reservationSourceType");
        reveal_with_fuel(spells_camel_case, 24);
    }
    lemma_spelled_camel_case("reservation_source_type"@, 0, "reservationSourceType"@, 0);
    assert(spells_camel_case("reservation_source_id"@, 0, "reservationSourceId"@, 0)) by {
        reveal_strlit("reservation_source_id");
        reveal_strlit("reservationSourceId");
        reveal_with_fuel(spells_camel_case, 22);
    }
    lemma_spelled_camel_case("reservation_source_id"@, 0, "reservationSourceId"@, 0);
    assert(spells_camel_case("reservation_type"@, 0, "reservationType"@, 0)) by {
        reveal_strlit("reservation_type");
        reveal_strlit("reservationType");
        reveal_with_fuel(spells_camel_case, 17);
    }
    lemma_spelled_camel_case("reservation_type"@, 0, "reservationType"@, 0);
    assert(spells_camel_case("sku_id"@, 0, "skuId"@, 0)) by {
        reveal_strlit("sku_id");
        reveal_strlit("skuId");
        reveal_with_fuel(spells_camel_case, 7);
    }
    lemma_spelled_camel_case("sku_id"@, 0, "skuId"@, 0);
    assert(spells_camel_case("warehouse_id"@, 0, "warehouseId"@, 0)) by {
        reveal_strlit("warehouse_id");
        reveal_strlit("warehouseId");
        reveal_with_fuel(spells_camel_case, 13);
    }
    lemma_spelled_camel_case("warehouse_id"@, 0, "warehouseId"@, 0);
    assert(spells_camel_case("fulfillment_node_id"@, 0, "fulfillmentNodeId"@, 0)) by {
        reveal_strlit("fulfillment_node_id");
        reveal_strlit("fulfillmentNodeId");
        reveal_with_fuel(spells_camel_case, 20);
    }
    lemma_spelled_camel_case("fulfillment_node_id"@, 0, "fulfillmentNodeId"@, 0);
    assert(spells_camel_case("quantity"@, 0, "quantity"@, 0)) by {
        reveal_strlit("quantity");
        reveal_with_fuel(spells_camel_case, 9);
    }
    lemma_spelled_camel_case("quantity"@, 0, "quantity"@, 0);
    assert(spells_camel_case("reserved_quantity"@, 0, "reservedQuantity"@, 0)) by {
        reveal_strlit("reserved_quantity");
        reveal_strlit("reservedQuantity");
        reveal_with_fuel(spells_camel_case, 18);
    }
    lemma_spelled_camel_case("reserved_quantity"@, 0, "reservedQuantity"@, 0);
    assert(spells_camel_case("consumed_quantity"@, 0, "consumedQuantity"@, 0)) by {
        reveal_strlit("consumed_quantity");
        reveal_strlit("consumedQuantity");
        reveal_with_fuel(spells_camel_case, 18);
    }
    lemma_spelled_camel_case("consumed_quantity"@, 0, "consumedQuantity"@, 0);
    assert(spells_camel_case("released_quantity"@, 0, "releasedQuantity"@, 0)) by {
        reveal_strlit("released_quantity");
        reveal_strlit("releasedQuantity");
        reveal_with_fuel(spells_camel_case, 18);
    }
    lemma_spelled_camel_case("released_quantity"@, 0, "releasedQuantity"@, 0);
    assert(spells_camel_case("status"@, 0, "status"@, 0)) by {
        reveal_strlit("status");
        reveal_with_fuel(spells_camel_case, 7);
    }
    lemma_spelled_camel_case("status"@, 0, "status"@, 0);
    assert(spells_camel_case("release_reason_code"@, 0, "releaseReasonCode"@, 0)) by {
        reveal_strlit("release_reason_code");
        reveal_strlit("releaseReasonCode");
        reveal_with_fuel(spells_camel_case, 20);
    }
    lemma_spelled_camel_case("release_reason_code"@, 0, "releaseReasonCode"@, 0);
    assert(spells_camel_case("request_no"@, 0, "requestNo"@, 0)) by {
        reveal_strlit("request_no");
        reveal_strlit("requestNo");
        reveal_with_fuel(spells_camel_case, 11);
    }
    lemma_spelled_camel_case("request_no"@, 0, "requestNo"@, 0);
    assert(spells_camel_case("idempotency_key"@, 0, "idempotencyKey"@, 0)) by {
        reveal_strlit("idempotency_key");
        reveal_strlit("idempotencyKey");
        reveal_with_fuel(spells_camel_case, 16);
    }
    lemma_spelled_camel_case("idempotency_key"@, 0, "idempotencyKey"@, 0);
    assert(spells_camel_case("expires_at"@, 0, "expiresAt"@, 0)) by {
        reveal_strlit("expires_at");
        reveal_strlit("expiresAt");
        reveal_with_fuel(spells_camel_case, 11);
    }
    lemma_spelled_camel_case("expires_at"@, 0, "expiresAt"@, 0);
    assert(spells_camel_case("consumed_at"@, 0, "consumedAt"@, 0)) by {
        reveal_strlit("consumed_at");
        reveal_strlit("consumedAt");
        reveal_with_fuel(spells_camel_case, 12);
    }
    lemma_spelled_camel_case("consumed_at"@, 0, "consumedAt"@, 0);
    assert(spells_camel_case("released_at"@, 0, "releasedAt"@, 0)) by {
        reveal_strlit("released_at");
        reveal_strlit("releasedAt");
        reveal_with_fuel(spells_camel_case, 12);
    }
    lemma_spelled_camel_case("released_at"@, 0, "releasedAt"@, 0);
    assert(spells_camel_case("created_at"@, 0, "createdAt"@, 0)) by {
        reveal_strlit("created_at");
        reveal_strlit("createdAt");
        reveal_with_fuel(spells_camel_case, 11);
    }
    lemma_spelled_camel_case("created_at"@, 0, "createdAt"@, 0);
    assert(spells_camel_case("updated_at"@, 0, "updatedAt"@, 0)) by {
        reveal_strlit("updated_at");
        reveal_strlit("updatedAt");
        reveal_with_fuel(spells_camel_case, 11);
    }
    lemma_spelled_camel_case("updated_at"@, 0, "updatedAt"@, 0);
    assert forall|i: int| 0 <= i < table.len() implies (#[trigger] table[i]).1 == camel_case(table[i].0) by {
        if i == 0 {
        } else if i == 1 {
        } else if i == 2 {
        } else if i == 3 {
        } else if i == 4 {
        } else if i == 5 {
        } else if i == 6 {
        } else if i == 7 {
        } else if i == 8 {
        } else if i == 9 {
        } else if i == 10 {
        } else if i == 11 {
        } else if i == 12 {
        } else if i == 13 {
        } else if i == 14 {
        } else if i == 15 {
        } else if i == 16 {
        } else if i == 17 {
        } else if i == 18 {
        } else if i == 19 {
        } else if i == 20 {
        } else if i == 21 {
        } else if i == 22 {
        } else if i == 23 {
        } else if i == 24 {
        } else if i == 25 {
        }
    }
}

/// The members of the reservation rows of the SQLite store, in order.
pub fn reservation_row_fields() -> (f: Vec<RowField>)
    ensures
        fields_are(f@, reservation_row_field_table()),
        keys_are_camel_case(f@),
{
    let mut f: Vec<RowField> = Vec::new();
    f.push(field("id", "id", CellKind::Text));
    f.push(field("tenant_id", "tenantId", CellKind::Text));
    f.push(field("organization_id", "organizationId", CellKind::OptionalText));
    f.push(field("reservation_no", "reservationNo", CellKind::Text));
    f.push(field("order_id", "orderId", CellKind::OptionalText));
    f.push(field("checkout_session_id", "checkoutSessionId", CellKind::OptionalText));
    f.push(field("order_item_id", "orderItemId", CellKind::OptionalText));
    f.push(field("reservation_source_type", "reservationSourceType", CellKind::Text));
    f.push(field("reservation_source_id", "reservationSourceId", CellKind::Text));
    f.push(field("reservation_type", "reservationType", CellKind::Text));
    f.push(field("sku_id", "skuId", CellKind::Text));
    f.push(field("warehouse_id", "warehouseId", CellKind::OptionalText));
    f.push(field("fulfillment_node_id", "fulfillmentNodeId", CellKind::Text));
    f.push(field("quantity", "quantity", CellKind::Integer));
    f.push(field("reserved_quantity", "reservedQuantity", CellKind::Integer));
    f.push(field("consumed_quantity", "consumedQuantity", CellKind::Integer));
    f.push(field("released_quantity", "releasedQuantity", CellKind::Integer));
    f.push(field("status", "status", CellKind::Text));
    f.push(field("release_reason_code", "releaseReasonCode", CellKind::OptionalText));
    f.push(field("request_no", "requestNo", CellKind::Text));
    f.push(field("idempotency_key", "idempotencyKey", CellKind::Text));
    f.push(field("expires_at", "expiresAt", CellKind::Text));
    f.push(field("consumed_at", "consumedAt", CellKind::OptionalText));
    f.push(field("released_at", "releasedAt", CellKind::OptionalText));
    f.push(field("created_at", "createdAt", CellKind::Text));
    f.push(field("updated_at", "updatedAt", CellKind::Text));
    assert(fields_are(f@, reservation_row_field_table()));
    proof {
        lemma_reservation_keys_follow_columns();
        lemma_fields_keys(f@, reservation_row_field_table());
    }
    f
}

/// The members of the movement rows of the SQLite store, in order.
pub open spec fn movement_row_field_table() -> Seq<(Seq<char>, Seq<char>, CellKind)> {
    seq![
        ("id"@, "id"@, CellKind::Text),
        ("tenant_id"@, "tenantId"@, CellKind::Text),
        ("organization_id"@, "organizationId"@, CellKind::OptionalText),
        ("movement_no"@, "movementNo"@, CellKind::Text),
        ("sku_id"@, "skuId"@, CellKind::Text),
        ("warehouse_id"@, "warehouseId"@, CellKind::OptionalText),
        ("fulfillment_node_id"@, "fulfillmentNodeId"@, CellKind::Text),
        ("movement_type"@, "movementType"@, CellKind::Text),
        ("source_type"@, "sourceType"@, CellKind::Text),
        ("quantity"@, "quantity"@, CellKind::Integer),
        ("direction"@, "direction"@, CellKind::Text),
        ("quantity_before"@, "quantityBefore"@, CellKind::OptionalInteger),
        ("quantity_after"@, "quantityAfter"@, CellKind::OptionalInteger),
        ("business_type"@, "businessType"@, CellKind::Text),
        ("source_id"@, "sourceId"@, CellKind::Text),
        ("request_no"@, "requestNo"@, CellKind::Text),
        ("idempotency_key"@, "idempotencyKey"@, CellKind::Text),
        ("occurred_at"@, "occurredAt"@, CellKind::Text),
        ("created_at"@, "createdAt"@, CellKind::Text),
    ]
}

/// Each member of a movement reply object is named by the camel-case
/// form of the column it is read from.
#[verifier::rlimit(40)]
pub proof fn lemma_movement_keys_follow_columns()
    ensures
        keys_follow_columns(movement_row_field_table()),
{
    let table = movement_row_field_table();
    assert(spells_camel_case("id"@, 0, "id"@, 0)) by {
        reveal_strlit("id");
        reveal_with_fuel(spells_camel_case, 3);
    }
    lemma_spelled_camel_case("id"@, 0, "id"@, 0);
    assert(spells_camel_case("tenant_id"@, 0, "tenantId"@, 0)) by {
        reveal_strlit("tenant_id");
        reveal_strlit("tenantId");
        reveal_with_fuel(spells_camel_case, 10);
    }
    lemma_spelled_camel_case("tenant_id"@, 0, "tenantId"@, 0);
    assert(spells_camel_case("organization_id"@, 0, "organizationId"@, 0)) by {
        reveal_strlit("organization_id");
        reveal_strlit("organizationId");
        reveal_with_fuel(spells_camel_case, 16);
    }
    lemma_spelled_camel_case("organization_id"@, 0, "organizationId"@, 0);
    assert(spells_camel_case("movement_no"@, 0, "movementNo"@, 0)) by {
        reveal_strlit("movement_no");
        reveal_strlit("movementNo");
        reveal_with_fuel(spells_camel_case, 12);
    }
    lemma_spelled_camel_case("movement_no"@, 0, "movementNo"@, 0);
    assert(spells_camel_case("sku_id"@, 0, "skuId"@, 0)) by {
        reveal_strlit("sku_id");
        reveal_strlit("skuId");
        reveal_with_fuel(spells_camel_case, 7);
    }
    lemma_spelled_camel_case("sku_id"@, 0, "skuId"@, 0);
    assert(spells_camel_case("warehouse_id"@, 0, "warehouseId"@, 0)) by {
        reveal_strlit("warehouse_id");
        reveal_strlit("warehouseId");
        reveal_with_fuel(spells_camel_case, 13);
    }
    lemma_spelled_camel_case("warehouse_id"@, 0, "warehouseId"@, 0);
    assert(spells_camel_case("fulfillment_node_id"@, 0, "fulfillmentNodeId"@, 0)) by {
        reveal_strlit("fulfillment_node_id");
        reveal_strlit("fulfillmentNodeId");
        reveal_with_fuel(spells_camel_case, 20);
    }
    lemma_spelled_camel_case("fulfillment_node_id"@, 0, "fulfillmentNodeId"@, 0);
    assert(spells_camel_case("movement_type"@, 0, "movementType"@, 0)) by {
        reveal_strlit("movement_type");
        reveal_strlit("movementType");
        reveal_with_fuel(spells_camel_case, 14);
    }
    lemma_spelled_camel_case("movement_type"@, 0, "movementType"@, 0);
    assert(spells_camel_case("source_type"@, 0, "sourceType"@, 0)) by {
        reveal_strlit("source_type");
        reveal_strlit("sourceType");
        reveal_with_fuel(spells_camel_case, 12);
    }
    lemma_spelled_camel_case("source_type"@, 0, "sourceType"@, 0);
    assert(spells_camel_case("quantity"@, 0, "quantity"@, 0)) by {
        reveal_strlit("quantity");
        reveal_with_fuel(spells_camel_case, 9);
    }
    lemma_spelled_camel_case("quantity"@, 0, "quantity"@, 0);
    assert(spells_camel_case("direction"@, 0, "direction"@, 0)) by {
        reveal_strlit("direction");
        reveal_with_fuel(spells_camel_case, 10);
    }
    lemma_spelled_camel_case("direction"@, 0, "direction"@, 0);
    assert(spells_camel_case("quantity_before"@, 0, "quantityBefore"@, 0)) by {
        reveal_strlit("quantity_before");
        reveal_strlit("quantityBefore");
        reveal_with_fuel(spells_camel_case, 16);
    }
    lemma_spelled_camel_case("quantity_before"@, 0, "quantityBefore"@, 0);
    assert(spells_camel_case("quantity_after"@, 0, "quantityAfter"@, 0)) by {
        reveal_strlit("quantity_after");
        reveal_strlit("quantityAfter");
        reveal_with_fuel(spells_camel_case, 15);
    }
    lemma_spelled_camel_case("quantity_after"@, 0, "quantityAfter"@, 0);
    assert(spells_camel_case("business_type"@, 0, "businessType"@, 0)) by {
        reveal_strlit("business_type");
        reveal_strlit("businessType");
        reveal_with_fuel(spells_camel_case, 14);
    }
    lemma_spelled_camel_case("business_type"@, 0, "businessType"@, 0);
    assert(spells_camel_case("source_id"@, 0, "sourceId"@, 0)) by {
        reveal_strlit("source_id");
        reveal_strlit("sourceId");
        reveal_with_fuel(spells_camel_case, 10);
    }
    lemma_spelled_camel_case("source_id"@, 0, "sourceId"@, 0);
    assert(spells_camel_case("request_no"@, 0, "requestNo"@, 0)) by {
        reveal_strlit("request_no");
        reveal_strlit("requestNo");
        reveal_with_fuel(spells_camel_case, 11);
    }
    lemma_spelled_camel_case("request_no"@, 0, "requestNo"@, 0);
    assert(spells_camel_case("idempotency_key"@, 0, "idempotencyKey"@, 0)) by {
        reveal_strlit("idempotency_key");
        reveal_strlit("idempotencyKey");
        reveal_with_fuel(spells_camel_case, 16);
    }
    lemma_spelled_camel_case("idempotency_key"@, 0, "idempotencyKey"@, 0);
    assert(spells_camel_case("occurred_at"@, 0, "occurredAt"@, 0)) by {
        reveal_strlit("occurred_at");
        reveal_strlit("occurredAt");
        reveal_with_fuel(spells_camel_case, 12);
    }
    lemma_spelled_camel_case("occurred_at"@, 0, "occurredAt"@, 0);
    assert(spells_camel_case("created_at"@, 0, "createdAt"@, 0)) by {
        reveal_strlit("created_at");
        reveal_strlit("createdAt");
        reveal_with_fuel(spells_camel_case, 11);
    }
    lemma_spelled_camel_case("created_at"@, 0, "createdAt"@, 0);
    assert forall|i: int| 0 <= i < table.len() implies (#[trigger] table[i]).1 == camel_case(table[i].0) by {
        if i == 0 {
        } else if i == 1 {
        } else if i == 2 {
        } else if i == 3 {
        } else if i == 4 {
        } else if i == 5 {
        } else if i == 6 {
        } else if i == 7 {
        } else if i == 8 {
        } else if i == 9 {
        } else if i == 10 {
        } else if i == 11 {
        } else if i == 12 {
        } else if i == 13 {
        } else if i == 14 {
        } else if i == 15 {
        } else if i == 16 {
        } else if i == 17 {
        } else if i == 18 {
        }
    }
}

/// The members of the movement rows of the SQLite store, in order.
pub fn movement_row_fields() -> (f: Vec<RowField>)
    ensures
        fields_are(f@, movement_row_field_table()),
        keys_are_camel_case(f@),
{
    let mut f: Vec<RowField> = Vec::new();
    f.push(field("id", "id", CellKind::Text));
    f.push(field("tenant_id", "tenantId", CellKind::Text));
    f.push(field("organization_id", "organizationId", CellKind::OptionalText));
    f.push(field("movement_no", "movementNo", CellKind::Text));
    f.push(field("sku_id", "skuId", CellKind::Text));
    f.push(field("warehouse_id", "warehouseId", CellKind::OptionalText));
    f.push(field("fulfillment_node_id", "fulfillmentNodeId", CellKind::Text));
    f.push(field("movement_type", "movementType", CellKind::Text));
    f.push(field("source_type", "sourceType", CellKind::Text));
    f.push(field("quantity", "quantity", CellKind::Integer));
    f.push(field("direction", "direction", CellKind::Text));
    f.push(field("quantity_before", "quantityBefore", CellKind::OptionalInteger));
    f.push(field("quantity_after", "quantityAfter", CellKind::OptionalInteger));
    f.push(field("business_type", "businessType", CellKind::Text));
    f.push(field("source_id", "sourceId", CellKind::Text));
    f.push(field("request_no", "requestNo", CellKind::Text));
    f.push(field("idempotency_key", "idempotencyKey", CellKind::Text));
    f.push(field("occurred_at", "occurredAt", CellKind::Text));
    f.push(field("created_at", "createdAt", CellKind::Text));
    assert(fields_are(f@, movement_row_field_table()));
    proof {
        lemma_movement_keys_follow_columns();
        lemma_fields_keys(f@, movement_row_field_table());
    }
    f
}

/// The members of the reservation rows of the PostgreSQL store, in order.
pub open spec fn pg_reservation_row_field_table() -> Seq<(Seq<char>, Seq<char>, CellKind)> {
    seq![
        ("id"@, "id"@, CellKind::Text),
        ("tenant_id"@, "tenantId"@, CellKind::Text),
        ("organization_id"@, "organizationId"@, CellKind::OptionalText),
        ("reservation_no"@, "reservationNo"@, CellKind::Text),
        ("order_id"@, "orderId"@, CellKind::OptionalText),
        ("sku_id"@, "skuId"@, CellKind::Text),
        ("status"@, "status"@, CellKind::Text),
        ("quantity"@, "quantity"@, CellKind::Integer),
        ("created_at"@, "createdAt"@, CellKind::Text),
        ("updated_at"@, "updatedAt"@, CellKind::Text),
    ]
}

/// Each member of a PostgreSQL reservation reply object is named by the camel-case
/// form of the column it is read from.
#[verifier::rlimit(40)]
pub proof fn lemma_pg_reservation_keys_follow_columns()
    ensures
        keys_follow_columns(pg_reservation_row_field_table()),
{
    let table = pg_reservation_row_field_table();
    assert(spells_camel_case("id"@, 0, "id"@, 0)) by {
        reveal_strlit("id");
        reveal_with_fuel(spells_camel_case, 3);
    }
    lemma_spelled_camel_case("id"@, 0, "id"@, 0);
    assert(spells_camel_case("tenant_id"@, 0, "tenantId"@, 0)) by {
        reveal_strlit("tenant_id");
        reveal_strlit("tenantId");
        reveal_with_fuel(spells_camel_case, 10);
    }
    lemma_spelled_camel_case("tenant_id"@, 0, "tenantId"@, 0);
    assert(spells_camel_case("organization_id"@, 0, "organizationId"@, 0)) by {
        reveal_strlit("organization_id");
        reveal_strlit("organizationId");
        reveal_with_fuel(spells_camel_case, 16);
    }
    lemma_spelled_camel_case("organization_id"@, 0, "organizationId"@, 0);
    assert(spells_camel_case("reservation_no"@, 0, "reservationNo"@, 0)) by {
        reveal_strlit("reservation_no");
        reveal_strlit("reservationNo");
        reveal_with_fuel(spells_camel_case, 15);
    }
    lemma_spelled_camel_case("reservation_no"@, 0, "reservationNo"@, 0);
    assert(spells_camel_case("order_id"@, 0, "orderId"@, 0)) by {
        reveal_strlit("order_id");
        reveal_strlit("orderId");
        reveal_with_fuel(spells_camel_case, 9);
    }
    lemma_spelled_camel_case("order_id"@, 0, "orderId"@, 0);
    assert(spells_camel_case("sku_id"@, 0, "skuId"@, 0)) by {
        reveal_strlit("sku_id");
        reveal_strlit("skuId");
        reveal_with_fuel(spells_camel_case, 7);
    }
    lemma_spelled_camel_case("sku_id"@, 0, "skuId"@, 0);
    assert(spells_camel_case("status"@, 0, "status"@, 0)) by {
        reveal_strlit("status");
        reveal_with_fuel(spells_camel_case, 7);
    }
    lemma_spelled_camel_case("status"@, 0, "status"@, 0);
    assert(spells_camel_case("quantity"@, 0, "quantity"@, 0)) by {
        reveal_strlit("quantity");
        reveal_with_fuel(spells_camel_case, 9);
    }
    lemma_spelled_camel_case("quantity"@, 0, "quantity"@, 0);
    assert(spells_camel_case("created_at"@, 0, "createdAt"@, 0)) by {
        reveal_strlit("created_at");
        reveal_strlit("createdAt");
        reveal_with_fuel(spells_camel_case, 11);
    }
    lemma_spelled_camel_case("created_at"@, 0, "createdAt"@, 0);
    assert(spells_camel_case("updated_at"@, 0, "updatedAt"@, 0)) by {
        reveal_strlit("updated_at");
        reveal_strlit("updatedAt");
        reveal_with_fuel(spells_camel_case, 11);
    }
    lemma_spelled_camel_case("updated_at"@, 0, "updatedAt"@, 0);
    assert forall|i: int| 0 <= i < table.len() implies (#[trigger] table[i]).1 == camel_case(table[i].0) by {
        if i == 0 {
        } else if i == 1 {
        } else if i == 2 {
        } else if i == 3 {
        } else if i == 4 {
        } else if i == 5 {
        } else if i == 6 {
        } else if i == 7 {
        } else if i == 8 {
        } else if i == 9 {
        }
    }
}

/// The members of the reservation rows of the PostgreSQL store, in order.
pub fn pg_reservation_row_fields() -> (f: Vec<RowField>)
    ensures
        fields_are(f@, pg_reservation_row_field_table()),
        keys_are_camel_case(f@),
{
    let mut f: Vec<RowField> = Vec::new();
    f.push(field("id", "id", CellKind::Text));
    f.push(field("tenant_id", "tenantId", CellKind::Text));
    f.push(field("organization_id", "organizationId", CellKind::OptionalText));
    f.push(field("reservation_no", "reservationNo", CellKind::Text));
    f.push(field("order_id", "orderId", CellKind::OptionalText));
    f.push(field("sku_id", "skuId", CellKind::Text));
    f.push(field("status", "status", CellKind::Text));
    f.push(field("quantity", "quantity", CellKind::Integer));
    f.push(field("created_at", "createdAt", CellKind::Text));
    f.push(field("updated_at", "updatedAt", CellKind::Text));
    assert(fields_are(f@, pg_reservation_row_field_table()));
    proof {
        lemma_pg_reservation_keys_follow_columns();
        lemma_fields_keys(f@, pg_reservation_row_field_table());
    }
    f
}

/// The members of the movement rows of the PostgreSQL store, in order.
pub open spec fn pg_movement_row_field_table() -> Seq<(Seq<char>, Seq<char>, CellKind)> {
    seq![
        ("id"@, "id"@, CellKind::Text),
        ("tenant_id"@, "tenantId"@, CellKind::Text),
        ("movement_no"@, "movementNo"@, CellKind::Text),
        ("sku_id"@, "skuId"@, CellKind::Text),
        ("movement_type"@, "movementType"@, CellKind::Text),
        ("quantity"@, "quantity"@, CellKind::Integer),
        ("direction"@, "direction"@, CellKind::Text),
        ("occurred_at"@, "occurredAt"@, CellKind::Text),
        ("created_at"@, "createdAt"@, CellKind::Text),
    ]
}

/// Each member of a PostgreSQL movement reply object is named by the camel-case
/// form of the column it is read from.
#[verifier::rlimit(40)]
pub proof fn lemma_pg_movement_keys_follow_columns()
    ensures
        keys_follow_columns(pg_movement_row_field_table()),
{
    let table = pg_movement_row_field_table();
    assert(spells_camel_case("id"@, 0, "id"@, 0)) by {
        reveal_strlit("id");
        reveal_with_fuel(spells_camel_case, 3);
    }
    lemma_spelled_camel_case("id"@, 0, "id"@, 0);
    assert(spells_camel_case("tenant_id"@, 0, "tenantId"@, 0)) by {
        reveal_strlit("tenant_id");
        reveal_strlit("tenantId");
        reveal_with_fuel(spells_camel_case, 10);
    }
    lemma_spelled_camel_case("tenant_id"@, 0, "tenantId"@, 0);
    assert(spells_camel_case("movement_no"@, 0, "movementNo"@, 0)) by {
        reveal_strlit("movement_no");
        reveal_strlit("movementNo");
        reveal_with_fuel(spells_camel_case, 12);
    }
    lemma_spelled_camel_case("movement_no"@, 0, "movementNo"@, 0);
    assert(spells_camel_case("sku_id"@, 0, "skuId"@, 0)) by {
        reveal_strlit("sku_id");
        reveal_strlit("skuId");
        reveal_with_fuel(spells_camel_case, 7);
    }
    lemma_spelled_camel_case("sku_id"@, 0, "skuId"@, 0);
    assert(spells_camel_case("movement_type"@, 0, "movementType"@, 0)) by {
        reveal_strlit("movement_type");
        reveal_strlit("movementType");
        reveal_with_fuel(spells_camel_case, 14);
    }
    lemma_spelled_camel_case("movement_type"@, 0, "movementType"@, 0);
    assert(spells_camel_case("quantity"@, 0, "quantity"@, 0)) by {
        reveal_strlit("quantity");
        reveal_with_fuel(spells_camel_case, 9);
    }
    lemma_spelled_camel_case("quantity"@, 0, "quantity"@, 0);
    assert(spells_camel_case("direction"@, 0, "direction"@, 0)) by {
        reveal_strlit("direction");
        reveal_with_fuel(spells_camel_case, 10);
    }
    lemma_spelled_camel_case("direction"@, 0, "direction"@, 0);
    assert(spells_camel_case("occurred_at"@, 0, "occurredAt"@, 0)) by {
        reveal_strlit("occurred_at");
        reveal_strlit("occurredAt");
        reveal_with_fuel(spells_camel_case, 12);
    }
    lemma_spelled_camel_case("occurred_at"@, 0, "occurredAt"@, 0);
    assert(spells_camel_case("created_at"@, 0, "createdAt"@, 0)) by {
        reveal_strlit("created_at");
        reveal_strlit("createdAt");
        reveal_with_fuel(spells_camel_case, 11);
    }
    lemma_spelled_camel_case("created_at"@, 0, "createdAt"@, 0);
    assert forall|i: int| 0 <= i < table.len() implies (#[trigger] table[i]).1 == camel_case(table[i].0) by {
        if i == 0 {
        } else if i == 1 {
        } else if i == 2 {
        } else if i == 3 {
        } else if i == 4 {
        } else if i == 5 {
        } else if i == 6 {
        } else if i == 7 {
        } else if i == 8 {
        }
    }
}

/// The members of the movement rows of the PostgreSQL store, in order.
pub fn pg_movement_row_fields() -> (f: Vec<RowField>)
    ensures
        fields_are(f@, pg_movement_row_field_table()),
        keys_are_camel_case(f@),
{
    let mut f: Vec<RowField> = Vec::new();
    f.push(field("id", "id", CellKind::Text));
    f.push(field("tenant_id", "tenantId", CellKind::Text));
    f.push(field("movement_no", "movementNo", CellKind::Text));
    f.push(field("sku_id", "skuId", CellKind::Text));
    f.push(field("movement_type", "movementType", CellKind::Text));
    f.push(field("quantity", "quantity", CellKind::Integer));
    f.push(field("direction", "direction", CellKind::Text));
    f.push(field("occurred_at", "occurredAt", CellKind::Text));
    f.push(field("created_at", "createdAt", CellKind::Text));
    assert(fields_are(f@, pg_movement_row_field_table()));
    proof {
        lemma_pg_movement_keys_follow_columns();
        lemma_fields_keys(f@, pg_movement_row_field_table());
    }
    f
}

} // verus!
