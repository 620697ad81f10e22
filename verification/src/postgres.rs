//! The statements of the PostgreSQL inventory store.
use vstd::prelude::*;
use crate::error::{CommerceErrorKind, CommerceServiceError, is_error};
use crate::paging::{is_window_of, page_window, page_window_fits};
use crate::repository::{
    BackendInventoryMovementListQuery, BackendInventoryReservationListQuery, BackendInventoryStockListQuery,
    EMPTY_STOCK_UPDATE_MESSAGE, MerchantInventoryListQuery, MerchantInventoryScopeQuery,
    UpdateBackendInventoryStockCommand,
};
use crate::sqlite::{
    is_empty_stock_update, movement_select_columns, reservation_select_columns, COUNT_HEAD, FROM_WORD,
    MOVEMENT_COLUMNS, MOVEMENT_ORDER, MOVEMENT_TABLE, ORDER_BY_WORD, RESERVATION_COLUMNS, RESERVATION_TABLE,
    SELECT_HEAD, UPDATED_ORDER,
};
use crate::statement::{int_arg, scope_args, text_arg, window_args, ListStatements, SqlArgView, SqlStatement};
use crate::text::{as_str_option, string_option_view};

verus! {

/// Counts the stock rows of a scope.
pub const PG_STOCK_COUNT_SQL: &'static str = r#"
            SELECT COUNT(*) AS total
            FROM commerce_inventory_stock
            WHERE tenant_id = $1
              AND ((organization_id = $2) OR (organization_id IS NULL AND $3 = ''))
            "#;

/// Reads one page of the stock rows of a scope.
pub const PG_STOCK_LIST_SQL: &'static str = r#"
            SELECT id, tenant_id, organization_id, shop_id, sku_id, warehouse_id, fulfillment_node_id,
                   on_hand_quantity, available_quantity, locked_quantity, reserved_quantity,
                   sold_quantity, safety_stock_quantity, version, status, created_at, updated_at
            FROM commerce_inventory_stock
            WHERE tenant_id = $1
              AND ((organization_id = $2) OR (organization_id IS NULL AND $3 = ''))
            ORDER BY updated_at DESC, id DESC
            LIMIT $4 OFFSET $5
            "#;

/// Sets the available and safety-stock quantities, the status and the update time of one stock row.
pub const PG_STOCK_UPDATE_SQL: &'static str = r#"
            UPDATE commerce_inventory_stock
            SET available_quantity = $1,
                safety_stock_quantity = $2,
                status = $3,
                updated_at = $4
            WHERE tenant_id = $5 AND id = $6
            "#;

/// Reads one stock row back after a change.
pub const PG_STOCK_BY_ID_SQL: &'static str = r#"
            SELECT id, tenant_id, organization_id, shop_id, sku_id, warehouse_id, fulfillment_node_id,
                   on_hand_quantity, available_quantity, locked_quantity, reserved_quantity,
                   sold_quantity, safety_stock_quantity, version, status, created_at, updated_at
            FROM commerce_inventory_stock
            WHERE tenant_id = $1 AND id = $2
            LIMIT 1
            "#;

/// Adds a delta to the available quantity of one stock row.
pub const PG_MERCHANT_ADJUST_SQL: &'static str = r#"
            UPDATE commerce_inventory_stock
            SET available_quantity = available_quantity + $1,
                updated_at = $2
            WHERE tenant_id = $3
              AND id = $4
            "#;

/// Reads one stock row back after a merchant adjustment.
pub const PG_MERCHANT_STOCK_BY_ID_SQL: &'static str = r#"
            SELECT id, tenant_id, organization_id, sku_id, warehouse_id, fulfillment_node_id,
                   available_quantity, reserved_quantity, inbound_quantity, damaged_quantity,
                   status, version, created_at, updated_at
            FROM commerce_inventory_stock
            WHERE tenant_id = $1
              AND id = $2
            LIMIT 1
            "#;

pub const PG_SCOPE_FILTER: &'static str = " WHERE tenant_id = $1 AND ((organization_id = $2) OR (organization_id IS NULL AND $3 = ''))";

pub const PG_LIMIT_TAIL: &'static str = " LIMIT $4 OFFSET $5";

pub const STOCK_TABLE: &'static str = "commerce_inventory_stock";

pub const DEFAULT_STOCK_STATUS: &'static str = "active";

pub const MERCHANT_STOCK_COLUMNS: &'static str = "id, tenant_id, organization_id, sku_id, warehouse_id, fulfillment_node_id, available_quantity, reserved_quantity, inbound_quantity, damaged_quantity, status, version, created_at, updated_at";

/// The columns read for a merchant's stock.
pub fn merchant_stock_select_columns() -> (c: &'static str)
    ensures
        c@ == MERCHANT_STOCK_COLUMNS@,
{
    MERCHANT_STOCK_COLUMNS
}

/// The statements of one page of the stock of a tenant. This store
/// applies only the tenant and organization scope; the other filters of the
/// query are not applied.
pub fn backend_stock_list_statements(query: &BackendInventoryStockListQuery) -> (s: ListStatements)
    requires
        page_window_fits(query.page, query.page_size),
    ensures
        is_window_of(s.window, query.page, query.page_size),
        s.count@.sql == PG_STOCK_COUNT_SQL@,
        s.count@.args == scope_args(query.tenant_id@, string_option_view(query.organization_id)),
        s.list@.sql == PG_STOCK_LIST_SQL@,
        s.list@.args == scope_args(query.tenant_id@, string_option_view(query.organization_id)) + window_args(
            s.window,
        ),
{
    let window = page_window(query.page, query.page_size);
    let organization = as_str_option(&query.organization_id);
    let mut count = SqlStatement::new(PG_STOCK_COUNT_SQL);
    count.push_scope(query.tenant_id.as_str(), organization);
    let mut list = SqlStatement::new(PG_STOCK_LIST_SQL);
    list.push_scope(query.tenant_id.as_str(), organization);
    list.push_window(window);
    assert(count@.args =~= scope_args(query.tenant_id@, string_option_view(query.organization_id)));
    ListStatements { count, list, window }
}

/// The arguments of a stock update in this store: every field is written,
/// an unset quantity as 0 and an unset status as "active".
pub open spec fn pg_stock_update_args(c: UpdateBackendInventoryStockCommand, now: Seq<char>) -> Seq<SqlArgView> {
    seq![
        int_arg(
            match c.available_quantity {
                Some(n) => n as int,
                None => 0,
            },
        ),
        int_arg(
            match c.safety_stock_quantity {
                Some(n) => n as int,
                None => 0,
            },
        ),
        text_arg(
            match c.status {
                Some(status) => status@,
                None => DEFAULT_STOCK_STATUS@,
            },
        ),
        text_arg(now),
        text_arg(c.tenant_id@),
        text_arg(c.stock_id@),
    ]
}

/// A stock update of the PostgreSQL store binds, in order, the available
/// quantity, the safety stock, the status, `now`, the tenant and the row:
/// each field the command sets gets its value, an unset quantity 0 and an
/// unset status "active".
pub proof fn lemma_pg_update_writes_every_field(c: UpdateBackendInventoryStockCommand, now: Seq<char>)
    ensures
        c.available_quantity matches Some(n) ==> pg_stock_update_args(c, now)[0] == int_arg(n as int),
        c.available_quantity is None ==> pg_stock_update_args(c, now)[0] == int_arg(0),
        c.safety_stock_quantity matches Some(n) ==> pg_stock_update_args(c, now)[1] == int_arg(n as int),
        c.safety_stock_quantity is None ==> pg_stock_update_args(c, now)[1] == int_arg(0),
        c.status matches Some(v) ==> pg_stock_update_args(c, now)[2] == text_arg(v@),
        c.status is None ==> pg_stock_update_args(c, now)[2] == text_arg(DEFAULT_STOCK_STATUS@),
        pg_stock_update_args(c, now)[3] == text_arg(now),
{
}

/// The update of one stock row, stamped with `now`; a validation error when
/// the command sets no field.
pub fn backend_stock_update_statement(command: &UpdateBackendInventoryStockCommand, now: &str) -> (r: Result<
    SqlStatement,
    CommerceServiceError,
>)
    ensures
        r is Err <==> is_empty_stock_update(*command),
        r matches Err(e) ==> is_error(e, CommerceErrorKind::Validation, EMPTY_STOCK_UPDATE_MESSAGE@),
        r matches Ok(s) ==> {
            &&& s@.sql == PG_STOCK_UPDATE_SQL@
            &&& s@.args == pg_stock_update_args(*command, now@)
            &&& s@.args.len() == 6
            &&& (command.available_quantity matches Some(n) ==> s@.args[0] == int_arg(n as int))
            &&& (command.available_quantity is None ==> s@.args[0] == int_arg(0))
            &&& (command.safety_stock_quantity matches Some(n) ==> s@.args[1] == int_arg(n as int))
            &&& (command.safety_stock_quantity is None ==> s@.args[1] == int_arg(0))
            &&& (command.status matches Some(v) ==> s@.args[2] == text_arg(v@))
            &&& (command.status is None ==> s@.args[2] == text_arg(DEFAULT_STOCK_STATUS@))
            &&& s@.args[3] == text_arg(now@)
            &&& s@.args[4] == text_arg(command.tenant_id@)
            &&& s@.args[5] == text_arg(command.stock_id@)
        },
{
    if command.available_quantity.is_none() && command.safety_stock_quantity.is_none() && command.status.is_none() {
        return Err(CommerceServiceError::validation(EMPTY_STOCK_UPDATE_MESSAGE));
    }
    let available: i64 = match command.available_quantity {
        Some(n) => n,
        None => 0,
    };
    let safety_stock: i64 = match command.safety_stock_quantity {
        Some(n) => n,
        None => 0,
    };
    let status: &str = match &command.status {
        Some(s) => s.as_str(),
        None => DEFAULT_STOCK_STATUS,
    };
    let mut statement = SqlStatement::new(PG_STOCK_UPDATE_SQL);
    statement.push_int(available);
    statement.push_int(safety_stock);
    statement.push_text(status);
    statement.push_text(now);
    statement.push_text(command.tenant_id.as_str());
    statement.push_text(command.stock_id.as_str());
    assert(statement@.args =~= pg_stock_update_args(*command, now@));
    proof {
        lemma_pg_update_writes_every_field(*command, now@);
        lemma_update_is_tenant_scoped(*command, now@);
    }
    Ok(statement)
}

/// The read of one stock row of a tenant by its id.
pub fn stock_by_id_statement(tenant_id: &str, stock_id: &str) -> (s: SqlStatement)
    ensures
        s@.sql == PG_STOCK_BY_ID_SQL@,
        s@.args == seq![text_arg(tenant_id@), text_arg(stock_id@)],
{
    let mut statement = SqlStatement::new(PG_STOCK_BY_ID_SQL);
    statement.push_text(tenant_id);
    statement.push_text(stock_id);
    assert(statement@.args =~= seq![text_arg(tenant_id@), text_arg(stock_id@)]);
    statement
}

/// The count statement of a scoped page of a table.
pub open spec fn simple_count_sql(table: Seq<char>) -> Seq<char> {
    COUNT_HEAD@ + table + PG_SCOPE_FILTER@
}

/// The page statement of a scoped page of a table.
pub open spec fn simple_list_sql(columns: Seq<char>, table: Seq<char>, order_by: Seq<char>) -> Seq<char> {
    SELECT_HEAD@ + columns + FROM_WORD@ + table + PG_SCOPE_FILTER@ + ORDER_BY_WORD@ + order_by + PG_LIMIT_TAIL@
}

/// The statements of one page of a table within a tenant and organization
/// scope: a count, and the page in the given order.
fn simple_page_statements(
    columns: &str,
    table: &str,
    order_by: &str,
    tenant_id: &str,
    organization_id: Option<&str>,
    page: i64,
    page_size: i64,
) -> (s: ListStatements)
    requires
        page_window_fits(page, page_size),
    ensures
        is_window_of(s.window, page, page_size),
        s.count@.sql == simple_count_sql(table@),
        s.count@.args == scope_args(tenant_id@, crate::text::str_option_view(organization_id)),
        s.list@.sql == simple_list_sql(columns@, table@, order_by@),
        s.list@.args == scope_args(tenant_id@, crate::text::str_option_view(organization_id)) + window_args(s.window),
{
    let window = page_window(page, page_size);
    let mut count = SqlStatement::new(COUNT_HEAD);
    count.push_sql(table);
    count.push_sql(PG_SCOPE_FILTER);
    count.push_scope(tenant_id, organization_id);
    let mut list = SqlStatement::new(SELECT_HEAD);
    list.push_sql(columns);
    list.push_sql(FROM_WORD);
    list.push_sql(table);
    list.push_sql(PG_SCOPE_FILTER);
    list.push_sql(ORDER_BY_WORD);
    list.push_sql(order_by);
    list.push_sql(PG_LIMIT_TAIL);
    list.push_scope(tenant_id, organization_id);
    list.push_window(window);
    assert(count@.sql =~= simple_count_sql(table@));
    assert(count@.args =~= scope_args(tenant_id@, crate::text::str_option_view(organization_id)));
    assert(list@.sql =~= simple_list_sql(columns@, table@, order_by@));
    ListStatements { count, list, window }
}

/// The statements of one page of the reservations of a tenant, newest
/// update first. This store applies only the scope of the query.
pub fn backend_reservation_list_statements(query: &BackendInventoryReservationListQuery) -> (s: ListStatements)
    requires
        page_window_fits(query.page, query.page_size),
    ensures
        is_window_of(s.window, query.page, query.page_size),
        s.count@.sql == simple_count_sql(RESERVATION_TABLE@),
        s.count@.args == scope_args(query.tenant_id@, string_option_view(query.organization_id)),
        s.list@.sql == simple_list_sql(RESERVATION_COLUMNS@, RESERVATION_TABLE@, UPDATED_ORDER@),
        s.list@.args == s.count@.args + window_args(s.window),
{
    simple_page_statements(
        reservation_select_columns(),
        RESERVATION_TABLE,
        UPDATED_ORDER,
        query.tenant_id.as_str(),
        as_str_option(&query.organization_id),
        query.page,
        query.page_size,
    )
}

/// The statements of one page of the movements of a tenant, newest
/// occurrence first. This store applies only the scope of the query.
pub fn backend_movement_list_statements(query: &BackendInventoryMovementListQuery) -> (s: ListStatements)
    requires
        page_window_fits(query.page, query.page_size),
    ensures
        is_window_of(s.window, query.page, query.page_size),
        s.count@.sql == simple_count_sql(MOVEMENT_TABLE@),
        s.count@.args == scope_args(query.tenant_id@, string_option_view(query.organization_id)),
        s.list@.sql == simple_list_sql(MOVEMENT_COLUMNS@, MOVEMENT_TABLE@, MOVEMENT_ORDER@),
        s.list@.args == s.count@.args + window_args(s.window),
{
    simple_page_statements(
        movement_select_columns(),
        MOVEMENT_TABLE,
        MOVEMENT_ORDER,
        query.tenant_id.as_str(),
        as_str_option(&query.organization_id),
        query.page,
        query.page_size,
    )
}

/// The statements of one page of a merchant's stock, newest update first.
pub fn merchant_stock_list_statements(query: &MerchantInventoryListQuery) -> (s: ListStatements)
    requires
        page_window_fits(query.page, query.page_size),
    ensures
        is_window_of(s.window, query.page, query.page_size),
        s.count@.sql == simple_count_sql(STOCK_TABLE@),
        s.count@.args == scope_args(query.tenant_id@, string_option_view(query.organization_id)),
        s.list@.sql == simple_list_sql(MERCHANT_STOCK_COLUMNS@, STOCK_TABLE@, UPDATED_ORDER@),
        s.list@.args == s.count@.args + window_args(s.window),
{
    simple_page_statements(
        merchant_stock_select_columns(),
        STOCK_TABLE,
        UPDATED_ORDER,
        query.tenant_id.as_str(),
        as_str_option(&query.organization_id),
        query.page,
        query.page_size,
    )
}

/// The adjustment of the available quantity of one stock row of the
/// merchant's tenant by `quantity_delta`, stamped with `now`.
pub fn merchant_adjustment_statement(
    scope: &MerchantInventoryScopeQuery,
    stock_id: &str,
    quantity_delta: i64,
    now: &str,
) -> (s: SqlStatement)
    ensures
        s@.sql == PG_MERCHANT_ADJUST_SQL@,
        s@.args == seq![
            int_arg(quantity_delta as int),
            text_arg(now@),
            text_arg(scope.tenant_id@),
            text_arg(stock_id@),
        ],
{
    let mut statement = SqlStatement::new(PG_MERCHANT_ADJUST_SQL);
    statement.push_int(quantity_delta);
    statement.push_text(now);
    statement.push_text(scope.tenant_id.as_str());
    statement.push_text(stock_id);
    assert(statement@.args =~= seq![
        int_arg(quantity_delta as int),
        text_arg(now@),
        text_arg(scope.tenant_id@),
        text_arg(stock_id@),
    ]);
    statement
}

/// The read of one stock row of the merchant's tenant after an adjustment.
pub fn merchant_stock_by_id_statement(scope: &MerchantInventoryScopeQuery, stock_id: &str) -> (s: SqlStatement)
    ensures
        s@.sql == PG_MERCHANT_STOCK_BY_ID_SQL@,
        s@.args == seq![text_arg(scope.tenant_id@), text_arg(stock_id@)],
{
    let mut statement = SqlStatement::new(PG_MERCHANT_STOCK_BY_ID_SQL);
    statement.push_text(scope.tenant_id.as_str());
    statement.push_text(stock_id);
    assert(statement@.args =~= seq![text_arg(scope.tenant_id@), text_arg(stock_id@)]);
    statement
}

/// A stock update of the PostgreSQL store changes only the addressed row of
/// the request's tenant, and writes every field, unset ones with defaults.
pub proof fn lemma_update_is_tenant_scoped(c: UpdateBackendInventoryStockCommand, now: Seq<char>)
    ensures
        pg_stock_update_args(c, now).len() == 6,
        pg_stock_update_args(c, now)[4] == text_arg(c.tenant_id@),
        pg_stock_update_args(c, now)[5] == text_arg(c.stock_id@),
{
}

} // verus!
