//! The statements of the SQLite inventory store.
use vstd::prelude::*;
use crate::error::{CommerceErrorKind, CommerceServiceError, is_error};
use crate::postgres::{merchant_stock_select_columns, MERCHANT_STOCK_COLUMNS, STOCK_TABLE};
use crate::paging::{is_window_of, page_window, page_window_fits};
use crate::repository::{
    BackendInventoryMovementListQuery, BackendInventoryReservationListQuery, BackendInventoryStockListQuery,
    EMPTY_STOCK_UPDATE_MESSAGE, MerchantInventoryListQuery, MerchantInventoryScopeQuery,
    UpdateBackendInventoryStockCommand,
};
use crate::statement::{
    given, int_arg, lemma_occurs_between, lemma_occurs_in_context, occurs_at, occurs_in, optional_clause,
    optional_text_arg, scope_args, text_arg, window_args, ListStatements, SqlArgView, SqlStatement,
};
use crate::text::{as_str_option, i64_to_decimal, signed_decimal, str_option_view, string_option_view};

verus! {

/// Counts the stock rows of a scope.
pub const STOCK_COUNT_SQL: &'static str = r#"
            SELECT COUNT(*) AS total
            FROM commerce_inventory_stock
            WHERE tenant_id = CAST(? AS TEXT)
              AND ((organization_id = CAST(? AS TEXT)) OR (organization_id IS NULL AND ? = ''))
            "#;

/// Reads the stock rows of a scope.
pub const STOCK_LIST_SQL: &'static str = r#"
            SELECT id, tenant_id, organization_id, shop_id, sku_id, warehouse_id, fulfillment_node_id,
                   on_hand_quantity, available_quantity, locked_quantity, reserved_quantity,
                   sold_quantity, safety_stock_quantity, version, status, created_at, updated_at
            FROM commerce_inventory_stock
            WHERE tenant_id = CAST(? AS TEXT)
              AND ((organization_id = CAST(? AS TEXT)) OR (organization_id IS NULL AND ? = ''))
            "#;

/// Reads one stock row back after a change.
pub const STOCK_BY_ID_SQL: &'static str = r#"
            SELECT id, tenant_id, organization_id, shop_id, sku_id, warehouse_id, fulfillment_node_id,
                   on_hand_quantity, available_quantity, locked_quantity, reserved_quantity,
                   sold_quantity, safety_stock_quantity, version, status, created_at, updated_at
            FROM commerce_inventory_stock
            WHERE tenant_id = CAST(? AS TEXT) AND id = CAST(? AS TEXT)
            LIMIT 1
            "#;

/// Adds a delta to the available quantity of one stock row.
pub const MERCHANT_ADJUST_SQL: &'static str = r#"
            UPDATE commerce_inventory_stock
            SET available_quantity = CAST(available_quantity AS INTEGER) + CAST(? AS INTEGER),
                updated_at = ?
            WHERE tenant_id = CAST(? AS TEXT)
              AND id = CAST(? AS TEXT)
            "#;

/// Reads one stock row back after a merchant adjustment.
pub const MERCHANT_STOCK_BY_ID_SQL: &'static str = r#"
            SELECT id, tenant_id, organization_id, sku_id, warehouse_id, fulfillment_node_id,
                   available_quantity, reserved_quantity, inbound_quantity, damaged_quantity,
                   status, version, created_at, updated_at
            FROM commerce_inventory_stock
            WHERE tenant_id = CAST(? AS TEXT)
              AND id = CAST(? AS TEXT)
            LIMIT 1
            "#;

pub const SKU_FILTER: &'static str = " AND sku_id = CAST(? AS TEXT)";

pub const WAREHOUSE_FILTER: &'static str = " AND warehouse_id = CAST(? AS TEXT)";

pub const STATUS_FILTER: &'static str = " AND status = CAST(? AS TEXT)";

pub const ORDER_FILTER: &'static str = " AND order_id = CAST(? AS TEXT)";

pub const STOCK_LIST_TAIL: &'static str = " ORDER BY updated_at DESC, id DESC LIMIT ? OFFSET ?";

pub const SCOPE_FILTER: &'static str = " WHERE tenant_id = CAST(? AS TEXT) AND ((organization_id = CAST(? AS TEXT)) OR (organization_id IS NULL AND ? = ''))";

pub const UPDATE_HEAD: &'static str = "UPDATE commerce_inventory_stock SET ";

pub const UPDATE_TAIL: &'static str = " WHERE tenant_id = CAST(? AS TEXT) AND id = CAST(? AS TEXT)";

pub const SET_UPDATED_AT: &'static str = "updated_at = ?";

pub const SET_AVAILABLE: &'static str = "available_quantity = CAST(? AS INTEGER)";

pub const SET_SAFETY_STOCK: &'static str = "safety_stock_quantity = CAST(? AS INTEGER)";

pub const SET_STATUS: &'static str = "status = ?";

pub const SET_SEPARATOR: &'static str = ", ";

pub const RESERVATION_TABLE: &'static str = "commerce_inventory_reservation";

pub const MOVEMENT_TABLE: &'static str = "commerce_inventory_movement";

pub const MOVEMENT_ORDER: &'static str = "occurred_at DESC, id DESC";

pub const UPDATED_ORDER: &'static str = "updated_at DESC, id DESC";

/// The columns read from the reservation table.
pub fn reservation_select_columns() -> (c: &'static str)
    ensures
        c@ == RESERVATION_COLUMNS@,
{
    RESERVATION_COLUMNS
}

/// The columns read from the movement table.
pub fn movement_select_columns() -> (c: &'static str)
    ensures
        c@ == MOVEMENT_COLUMNS@,
{
    MOVEMENT_COLUMNS
}

pub const RESERVATION_COLUMNS: &'static str = "id, tenant_id, organization_id, reservation_no, order_id, checkout_session_id, order_item_id, reservation_source_type, reservation_source_id, reservation_type, sku_id, warehouse_id, fulfillment_node_id, quantity, reserved_quantity, consumed_quantity, released_quantity, status, release_reason_code, request_no, idempotency_key, expires_at, consumed_at, released_at, created_at, updated_at";

pub const MOVEMENT_COLUMNS: &'static str = "id, tenant_id, organization_id, movement_no, sku_id, warehouse_id, fulfillment_node_id, movement_type, source_type, quantity, direction, quantity_before, quantity_after, business_type, source_id, request_no, idempotency_key, occurred_at, created_at";

pub const COUNT_HEAD: &'static str = "SELECT COUNT(*) AS total FROM ";

pub const SELECT_HEAD: &'static str = "SELECT ";

pub const FROM_WORD: &'static str = " FROM ";

pub const ORDER_BY_WORD: &'static str = " ORDER BY ";

pub const LIMIT_TAIL: &'static str = " LIMIT ? OFFSET ?";

pub const COLUMN_FILTER_HEAD: &'static str = " AND ";

pub const COLUMN_FILTER_TAIL: &'static str = " = CAST(? AS TEXT)";

/// The filters of a backend stock list, in the order they are appended.
pub open spec fn stock_filter_sql(q: BackendInventoryStockListQuery) -> Seq<char> {
    optional_clause(q.sku_id is Some, SKU_FILTER@) + optional_clause(q.warehouse_id is Some, WAREHOUSE_FILTER@)
        + optional_clause(q.status is Some, STATUS_FILTER@)
}

/// The arguments of the filters of a backend stock list.
pub open spec fn stock_filter_args(q: BackendInventoryStockListQuery) -> Seq<SqlArgView> {
    scope_args(q.tenant_id@, string_option_view(q.organization_id)) + optional_text_arg(
        string_option_view(q.sku_id),
    ) + optional_text_arg(string_option_view(q.warehouse_id)) + optional_text_arg(string_option_view(q.status))
}

/// Every filter that a backend stock query gives is applied, in the order
/// SKU, warehouse, status, with its value bound at the clause's place: the
/// arguments are the scope's three, then the value of each given filter.
pub proof fn lemma_stock_filters_applied(q: BackendInventoryStockListQuery)
    ensures
        stock_filter_args(q).len() == 3 + given(q.sku_id) + given(q.warehouse_id) + given(q.status),
        q.sku_id matches Some(v) ==> occurs_at(stock_filter_sql(q), 0, SKU_FILTER@) && stock_filter_args(q)[3]
            == text_arg(v@),
        q.warehouse_id matches Some(v) ==> occurs_at(
            stock_filter_sql(q),
            optional_clause(q.sku_id is Some, SKU_FILTER@).len() as int,
            WAREHOUSE_FILTER@,
        ) && stock_filter_args(q)[3 + given(q.sku_id)] == text_arg(v@),
        q.status matches Some(v) ==> occurs_at(
            stock_filter_sql(q),
            (optional_clause(q.sku_id is Some, SKU_FILTER@).len() + optional_clause(
                q.warehouse_id is Some,
                WAREHOUSE_FILTER@,
            ).len()) as int,
            STATUS_FILTER@,
        ) && stock_filter_args(q)[3 + given(q.sku_id) + given(q.warehouse_id)] == text_arg(v@),
{
    let sku = optional_clause(q.sku_id is Some, SKU_FILTER@);
    let warehouse = optional_clause(q.warehouse_id is Some, WAREHOUSE_FILTER@);
    let status = optional_clause(q.status is Some, STATUS_FILTER@);
    if q.sku_id is Some {
        lemma_occurs_between(Seq::empty(), SKU_FILTER@, warehouse + status);
        assert(Seq::<char>::empty() + SKU_FILTER@ + (warehouse + status) =~= stock_filter_sql(q));
    }
    if q.warehouse_id is Some {
        lemma_occurs_between(sku, WAREHOUSE_FILTER@, status);
    }
    if q.status is Some {
        lemma_occurs_between(sku + warehouse, STATUS_FILTER@, Seq::empty());
        assert(sku + warehouse + STATUS_FILTER@ + Seq::<char>::empty() =~= stock_filter_sql(q));
    }
}

/// The statements of one page of the stock of a tenant: a count and a page
/// read, with the same filters and, for the read, the newest rows first and
/// the page's bounds.
pub fn backend_stock_list_statements(query: &BackendInventoryStockListQuery) -> (s: ListStatements)
    requires
        page_window_fits(query.page, query.page_size),
    ensures
        is_window_of(s.window, query.page, query.page_size),
        s.count@.sql == STOCK_COUNT_SQL@ + stock_filter_sql(*query),
        s.count@.args == stock_filter_args(*query),
        s.list@.sql == STOCK_LIST_SQL@ + stock_filter_sql(*query) + STOCK_LIST_TAIL@,
        s.list@.args == stock_filter_args(*query) + window_args(s.window),
        s.count@.args.len() == 3 + given(query.sku_id) + given(query.warehouse_id) + given(query.status),
        query.sku_id matches Some(v) ==> {
            &&& occurs_in(s.count@.sql, SKU_FILTER@) && occurs_in(s.list@.sql, SKU_FILTER@)
            &&& s.count@.args[3] == text_arg(v@) && s.list@.args[3] == text_arg(v@)
        },
        query.warehouse_id matches Some(v) ==> {
            &&& occurs_in(s.count@.sql, WAREHOUSE_FILTER@) && occurs_in(s.list@.sql, WAREHOUSE_FILTER@)
            &&& s.count@.args[3 + given(query.sku_id)] == text_arg(v@)
            &&& s.list@.args[3 + given(query.sku_id)] == text_arg(v@)
        },
        query.status matches Some(v) ==> {
            &&& occurs_in(s.count@.sql, STATUS_FILTER@) && occurs_in(s.list@.sql, STATUS_FILTER@)
            &&& s.count@.args[3 + given(query.sku_id) + given(query.warehouse_id)] == text_arg(v@)
            &&& s.list@.args[3 + given(query.sku_id) + given(query.warehouse_id)] == text_arg(v@)
        },
{
    let window = page_window(query.page, query.page_size);
    let organization = as_str_option(&query.organization_id);
    let sku = as_str_option(&query.sku_id);
    let warehouse = as_str_option(&query.warehouse_id);
    let status = as_str_option(&query.status);
    let mut count = SqlStatement::new(STOCK_COUNT_SQL);
    count.push_scope(query.tenant_id.as_str(), organization);
    count.push_filter(SKU_FILTER, sku);
    count.push_filter(WAREHOUSE_FILTER, warehouse);
    count.push_filter(STATUS_FILTER, status);
    let mut list = SqlStatement::new(STOCK_LIST_SQL);
    list.push_scope(query.tenant_id.as_str(), organization);
    list.push_filter(SKU_FILTER, sku);
    list.push_filter(WAREHOUSE_FILTER, warehouse);
    list.push_filter(STATUS_FILTER, status);
    list.push_sql(STOCK_LIST_TAIL);
    list.push_window(window);
    assert(count@.sql =~= STOCK_COUNT_SQL@ + stock_filter_sql(*query));
    assert(count@.args =~= stock_filter_args(*query));
    assert(list@.sql =~= STOCK_LIST_SQL@ + stock_filter_sql(*query) + STOCK_LIST_TAIL@);
    assert(list@.args =~= stock_filter_args(*query) + window_args(window));
    proof {
        lemma_stock_filters_applied(*query);
        let filters = stock_filter_sql(*query);
        let sku = optional_clause(query.sku_id is Some, SKU_FILTER@).len() as int;
        let warehouse = optional_clause(query.warehouse_id is Some, WAREHOUSE_FILTER@).len() as int;
        if query.sku_id is Some {
            lemma_occurs_in_context(STOCK_COUNT_SQL@, filters, STOCK_LIST_TAIL@, 0, SKU_FILTER@);
            lemma_occurs_in_context(STOCK_LIST_SQL@, filters, STOCK_LIST_TAIL@, 0, SKU_FILTER@);
        }
        if query.warehouse_id is Some {
            lemma_occurs_in_context(STOCK_COUNT_SQL@, filters, STOCK_LIST_TAIL@, sku, WAREHOUSE_FILTER@);
            lemma_occurs_in_context(STOCK_LIST_SQL@, filters, STOCK_LIST_TAIL@, sku, WAREHOUSE_FILTER@);
        }
        if query.status is Some {
            lemma_occurs_in_context(STOCK_COUNT_SQL@, filters, STOCK_LIST_TAIL@, sku + warehouse, STATUS_FILTER@);
            lemma_occurs_in_context(STOCK_LIST_SQL@, filters, STOCK_LIST_TAIL@, sku + warehouse, STATUS_FILTER@);
        }
    }
    ListStatements { count, list, window }
}

/// The update changes none of the fields.
pub open spec fn is_empty_stock_update(c: UpdateBackendInventoryStockCommand) -> bool {
    c.available_quantity is None && c.safety_stock_quantity is None && c.status is None
}

/// The assignments of a stock update, joined by ", ": the update time,
/// then each field that the command sets.
pub open spec fn stock_update_sets(c: UpdateBackendInventoryStockCommand) -> Seq<char> {
    SET_UPDATED_AT@ + optional_clause(c.available_quantity is Some, SET_SEPARATOR@ + SET_AVAILABLE@)
        + optional_clause(c.safety_stock_quantity is Some, SET_SEPARATOR@ + SET_SAFETY_STOCK@)
        + optional_clause(c.status is Some, SET_SEPARATOR@ + SET_STATUS@)
}

/// A quantity bound as its decimal text, when present.
pub open spec fn optional_decimal_arg(value: Option<i64>) -> Seq<SqlArgView> {
    match value {
        Some(n) => seq![text_arg(signed_decimal(n as int))],
        None => Seq::empty(),
    }
}

/// The arguments of a stock update: the values of the assignments in their
/// order, then the tenant and the stock row.
pub open spec fn stock_update_args(c: UpdateBackendInventoryStockCommand, now: Seq<char>) -> Seq<SqlArgView> {
    seq![text_arg(now)] + optional_decimal_arg(c.available_quantity) + optional_decimal_arg(c.safety_stock_quantity)
        + optional_text_arg(string_option_view(c.status)) + seq![text_arg(c.tenant_id@), text_arg(c.stock_id@)]
}

/// A stock update assigns the update time, then each field that the
/// command sets, in the order available quantity, safety stock, status,
/// each bound to the value the command gives it: the arguments are `now`,
/// the value of each set field, then the tenant and the row.
pub proof fn lemma_stock_update_assigns_given_fields(c: UpdateBackendInventoryStockCommand, now: Seq<char>)
    ensures
        stock_update_args(c, now).len() == 3 + given(c.available_quantity) + given(c.safety_stock_quantity) + given(
            c.status,
        ),
        stock_update_args(c, now)[0] == text_arg(now),
        occurs_at(stock_update_sets(c), 0, SET_UPDATED_AT@),
        c.available_quantity matches Some(n) ==> occurs_at(
            stock_update_sets(c),
            SET_UPDATED_AT@.len() as int,
            SET_SEPARATOR@ + SET_AVAILABLE@,
        ) && stock_update_args(c, now)[1] == text_arg(signed_decimal(n as int)),
        c.safety_stock_quantity matches Some(n) ==> occurs_at(
            stock_update_sets(c),
            (SET_UPDATED_AT@.len() + optional_clause(
                c.available_quantity is Some,
                SET_SEPARATOR@ + SET_AVAILABLE@,
            ).len()) as int,
            SET_SEPARATOR@ + SET_SAFETY_STOCK@,
        ) && stock_update_args(c, now)[1 + given(c.available_quantity)] == text_arg(signed_decimal(n as int)),
        c.status matches Some(v) ==> occurs_at(
            stock_update_sets(c),
            (SET_UPDATED_AT@.len() + optional_clause(
                c.available_quantity is Some,
                SET_SEPARATOR@ + SET_AVAILABLE@,
            ).len() + optional_clause(
                c.safety_stock_quantity is Some,
                SET_SEPARATOR@ + SET_SAFETY_STOCK@,
            ).len()) as int,
            SET_SEPARATOR@ + SET_STATUS@,
        ) && stock_update_args(c, now)[1 + given(c.available_quantity) + given(c.safety_stock_quantity)]
            == text_arg(v@),
{
    let available = optional_clause(c.available_quantity is Some, SET_SEPARATOR@ + SET_AVAILABLE@);
    let safety = optional_clause(c.safety_stock_quantity is Some, SET_SEPARATOR@ + SET_SAFETY_STOCK@);
    let status = optional_clause(c.status is Some, SET_SEPARATOR@ + SET_STATUS@);
    lemma_occurs_between(Seq::empty(), SET_UPDATED_AT@, available + safety + status);
    assert(Seq::<char>::empty() + SET_UPDATED_AT@ + (available + safety + status) =~= stock_update_sets(c));
    if c.available_quantity is Some {
        lemma_occurs_between(SET_UPDATED_AT@, SET_SEPARATOR@ + SET_AVAILABLE@, safety + status);
        assert(SET_UPDATED_AT@ + (SET_SEPARATOR@ + SET_AVAILABLE@) + (safety + status) =~= stock_update_sets(c));
    }
    if c.safety_stock_quantity is Some {
        lemma_occurs_between(SET_UPDATED_AT@ + available, SET_SEPARATOR@ + SET_SAFETY_STOCK@, status);
    }
    if c.status is Some {
        lemma_occurs_between(SET_UPDATED_AT@ + available + safety, SET_SEPARATOR@ + SET_STATUS@, Seq::empty());
        assert(SET_UPDATED_AT@ + available + safety + (SET_SEPARATOR@ + SET_STATUS@) + Seq::<char>::empty()
            =~= stock_update_sets(c));
    }
}

/// The update of the fields that the command sets, stamped with `now`;
/// a validation error when it sets none.
pub fn backend_stock_update_statement(command: &UpdateBackendInventoryStockCommand, now: &str) -> (r: Result<
    SqlStatement,
    CommerceServiceError,
>)
    ensures
        r is Err <==> is_empty_stock_update(*command),
        r matches Err(e) ==> is_error(e, CommerceErrorKind::Validation, EMPTY_STOCK_UPDATE_MESSAGE@),
        r matches Ok(s) ==> {
            &&& s@.sql == UPDATE_HEAD@ + stock_update_sets(*command) + UPDATE_TAIL@
            &&& s@.args == stock_update_args(*command, now@)
            &&& s@.args.len() == 3 + given(command.available_quantity) + given(command.safety_stock_quantity)
                + given(command.status)
            &&& s@.args[0] == text_arg(now@)
            &&& occurs_in(s@.sql, SET_UPDATED_AT@)
            &&& (command.available_quantity matches Some(n) ==> occurs_in(s@.sql, SET_SEPARATOR@ + SET_AVAILABLE@)
                && s@.args[1] == text_arg(signed_decimal(n as int)))
            &&& (command.safety_stock_quantity matches Some(n) ==> occurs_in(
                s@.sql,
                SET_SEPARATOR@ + SET_SAFETY_STOCK@,
            ) && s@.args[1 + given(command.available_quantity)] == text_arg(signed_decimal(n as int)))
            &&& (command.status matches Some(v) ==> occurs_in(s@.sql, SET_SEPARATOR@ + SET_STATUS@)
                && s@.args[1 + given(command.available_quantity) + given(command.safety_stock_quantity)]
                == text_arg(v@))
        },
{
    if command.available_quantity.is_none() && command.safety_stock_quantity.is_none() && command.status.is_none() {
        return Err(CommerceServiceError::validation(EMPTY_STOCK_UPDATE_MESSAGE));
    }
    let mut statement = SqlStatement::new(UPDATE_HEAD);
    statement.push_sql(SET_UPDATED_AT);
    statement.push_text(now);
    let ghost after_time = statement@;
    match command.available_quantity {
        Some(quantity) => {
            statement.push_sql(SET_SEPARATOR);
            statement.push_sql(SET_AVAILABLE);
            statement.push_arg(crate::statement::SqlArg::Text(i64_to_decimal(quantity)));
        },
        None => {},
    }
    let ghost after_available = statement@;
    assert(after_available.sql =~= after_time.sql + optional_clause(
        command.available_quantity is Some,
        SET_SEPARATOR@ + SET_AVAILABLE@,
    ));
    assert(after_available.args =~= after_time.args + optional_decimal_arg(command.available_quantity));
    match command.safety_stock_quantity {
        Some(quantity) => {
            statement.push_sql(SET_SEPARATOR);
            statement.push_sql(SET_SAFETY_STOCK);
            statement.push_arg(crate::statement::SqlArg::Text(i64_to_decimal(quantity)));
        },
        None => {},
    }
    let ghost after_safety = statement@;
    assert(after_safety.sql =~= after_available.sql + optional_clause(
        command.safety_stock_quantity is Some,
        SET_SEPARATOR@ + SET_SAFETY_STOCK@,
    ));
    assert(after_safety.args =~= after_available.args + optional_decimal_arg(command.safety_stock_quantity));
    match &command.status {
        Some(status) => {
            statement.push_sql(SET_SEPARATOR);
            statement.push_sql(SET_STATUS);
            statement.push_text(status.as_str());
        },
        None => {},
    }
    let ghost after_status = statement@;
    assert(after_status.sql =~= after_safety.sql + optional_clause(
        command.status is Some,
        SET_SEPARATOR@ + SET_STATUS@,
    ));
    assert(after_status.args =~= after_safety.args + optional_text_arg(string_option_view(command.status)));
    statement.push_sql(UPDATE_TAIL);
    statement.push_text(command.tenant_id.as_str());
    statement.push_text(command.stock_id.as_str());
    assert(statement@.sql =~= UPDATE_HEAD@ + stock_update_sets(*command) + UPDATE_TAIL@);
    assert(statement@.args =~= stock_update_args(*command, now@));
    proof {
        lemma_stock_update_assigns_given_fields(*command, now@);
        let sets = stock_update_sets(*command);
        let available = optional_clause(command.available_quantity is Some, SET_SEPARATOR@ + SET_AVAILABLE@);
        let safety = optional_clause(command.safety_stock_quantity is Some, SET_SEPARATOR@ + SET_SAFETY_STOCK@);
        lemma_occurs_in_context(UPDATE_HEAD@, sets, UPDATE_TAIL@, 0, SET_UPDATED_AT@);
        if command.available_quantity is Some {
            lemma_occurs_in_context(
                UPDATE_HEAD@,
                sets,
                UPDATE_TAIL@,
                SET_UPDATED_AT@.len() as int,
                SET_SEPARATOR@ + SET_AVAILABLE@,
            );
        }
        if command.safety_stock_quantity is Some {
            lemma_occurs_in_context(
                UPDATE_HEAD@,
                sets,
                UPDATE_TAIL@,
                (SET_UPDATED_AT@.len() + available.len()) as int,
                SET_SEPARATOR@ + SET_SAFETY_STOCK@,
            );
        }
        if command.status is Some {
            lemma_occurs_in_context(
                UPDATE_HEAD@,
                sets,
                UPDATE_TAIL@,
                (SET_UPDATED_AT@.len() + available.len() + safety.len()) as int,
                SET_SEPARATOR@ + SET_STATUS@,
            );
        }
    }
    Ok(statement)
}

/// The read of one stock row of a tenant by its id.
pub fn stock_by_id_statement(tenant_id: &str, stock_id: &str) -> (s: SqlStatement)
    ensures
        s@.sql == STOCK_BY_ID_SQL@,
        s@.args == seq![text_arg(tenant_id@), text_arg(stock_id@)],
{
    let mut statement = SqlStatement::new(STOCK_BY_ID_SQL);
    statement.push_text(tenant_id);
    statement.push_text(stock_id);
    assert(statement@.args =~= seq![text_arg(tenant_id@), text_arg(stock_id@)]);
    statement
}

/// A table listed page by page.
#[derive(Clone, Copy, Debug, PartialEq, Eq, Structural)]
pub enum PagedTable {
    Reservations,
    Movements,
}

pub open spec fn paged_table_name(t: PagedTable) -> Seq<char> {
    match t {
        PagedTable::Reservations => RESERVATION_TABLE@,
        PagedTable::Movements => MOVEMENT_TABLE@,
    }
}

pub open spec fn paged_table_columns(t: PagedTable) -> Seq<char> {
    match t {
        PagedTable::Reservations => RESERVATION_COLUMNS@,
        PagedTable::Movements => MOVEMENT_COLUMNS@,
    }
}

/// Movements come newest occurrence first, other rows newest update first.
pub open spec fn paged_table_order(t: PagedTable) -> Seq<char> {
    match t {
        PagedTable::Movements => MOVEMENT_ORDER@,
        PagedTable::Reservations => UPDATED_ORDER@,
    }
}

/// The filters of a paged list: the scope, then the order, the SKU and the
/// named column, each when given.
pub open spec fn paged_filter_sql(
    order_id: Option<Seq<char>>,
    sku_id: Option<Seq<char>>,
    column: Seq<char>,
    value: Option<Seq<char>>,
) -> Seq<char> {
    SCOPE_FILTER@ + optional_clause(order_id is Some, ORDER_FILTER@) + optional_clause(sku_id is Some, SKU_FILTER@)
        + optional_clause(value is Some, COLUMN_FILTER_HEAD@ + column + COLUMN_FILTER_TAIL@)
}

/// The arguments of the filters of a paged list.
pub open spec fn paged_filter_args(
    tenant_id: Seq<char>,
    organization_id: Option<Seq<char>>,
    order_id: Option<Seq<char>>,
    sku_id: Option<Seq<char>>,
    value: Option<Seq<char>>,
) -> Seq<SqlArgView> {
    scope_args(tenant_id, organization_id) + optional_text_arg(order_id) + optional_text_arg(sku_id)
        + optional_text_arg(value)
}

/// Every filter that a paged list is given is applied after the scope, in
/// the order order, SKU, named column, with its value bound at the clause's
/// place: the arguments are the scope's three, then the value of each given
/// filter.
pub proof fn lemma_paged_filters_applied(
    tenant_id: Seq<char>,
    organization_id: Option<Seq<char>>,
    order_id: Option<Seq<char>>,
    sku_id: Option<Seq<char>>,
    column: Seq<char>,
    value: Option<Seq<char>>,
)
    ensures
        paged_filter_args(tenant_id, organization_id, order_id, sku_id, value).len() == 3 + given(order_id) + given(
            sku_id,
        ) + given(value),
        occurs_at(paged_filter_sql(order_id, sku_id, column, value), 0, SCOPE_FILTER@),
        order_id matches Some(v) ==> occurs_at(
            paged_filter_sql(order_id, sku_id, column, value),
            SCOPE_FILTER@.len() as int,
            ORDER_FILTER@,
        ) && paged_filter_args(tenant_id, organization_id, order_id, sku_id, value)[3] == text_arg(v),
        sku_id matches Some(v) ==> occurs_at(
            paged_filter_sql(order_id, sku_id, column, value),
            (SCOPE_FILTER@.len() + optional_clause(order_id is Some, ORDER_FILTER@).len()) as int,
            SKU_FILTER@,
        ) && paged_filter_args(tenant_id, organization_id, order_id, sku_id, value)[3 + given(order_id)]
            == text_arg(v),
        value matches Some(v) ==> occurs_at(
            paged_filter_sql(order_id, sku_id, column, value),
            (SCOPE_FILTER@.len() + optional_clause(order_id is Some, ORDER_FILTER@).len() + optional_clause(
                sku_id is Some,
                SKU_FILTER@,
            ).len()) as int,
            COLUMN_FILTER_HEAD@ + column + COLUMN_FILTER_TAIL@,
        ) && paged_filter_args(tenant_id, organization_id, order_id, sku_id, value)[3 + given(order_id) + given(
            sku_id,
        )] == text_arg(v),
{
    let order = optional_clause(order_id is Some, ORDER_FILTER@);
    let sku = optional_clause(sku_id is Some, SKU_FILTER@);
    let named = optional_clause(value is Some, COLUMN_FILTER_HEAD@ + column + COLUMN_FILTER_TAIL@);
    let sql = paged_filter_sql(order_id, sku_id, column, value);
    lemma_occurs_between(Seq::empty(), SCOPE_FILTER@, order + sku + named);
    assert(Seq::<char>::empty() + SCOPE_FILTER@ + (order + sku + named) =~= sql);
    if order_id is Some {
        lemma_occurs_between(SCOPE_FILTER@, ORDER_FILTER@, sku + named);
        assert(SCOPE_FILTER@ + ORDER_FILTER@ + (sku + named) =~= sql);
    }
    if sku_id is Some {
        lemma_occurs_between(SCOPE_FILTER@ + order, SKU_FILTER@, named);
    }
    if value is Some {
        lemma_occurs_between(
            SCOPE_FILTER@ + order + sku,
            COLUMN_FILTER_HEAD@ + column + COLUMN_FILTER_TAIL@,
            Seq::empty(),
        );
        assert(SCOPE_FILTER@ + order + sku + (COLUMN_FILTER_HEAD@ + column + COLUMN_FILTER_TAIL@)
            + Seq::<char>::empty() =~= sql);
    }
}

/// The count statement of a paged list.
pub open spec fn paged_count_sql(t: PagedTable, filters: Seq<char>) -> Seq<char> {
    COUNT_HEAD@ + paged_table_name(t) + filters
}

/// The page statement of a paged list.
pub open spec fn paged_list_sql(t: PagedTable, filters: Seq<char>) -> Seq<char> {
    SELECT_HEAD@ + paged_table_columns(t) + FROM_WORD@ + paged_table_name(t) + filters + ORDER_BY_WORD@
        + paged_table_order(t) + LIMIT_TAIL@
}

fn paged_table_name_str(t: PagedTable) -> (r: &'static str)
    ensures
        r@ == paged_table_name(t),
{
    match t {
        PagedTable::Reservations => RESERVATION_TABLE,
        PagedTable::Movements => MOVEMENT_TABLE,
    }
}

fn paged_table_columns_str(t: PagedTable) -> (r: &'static str)
    ensures
        r@ == paged_table_columns(t),
{
    match t {
        PagedTable::Reservations => reservation_select_columns(),
        PagedTable::Movements => movement_select_columns(),
    }
}

fn paged_table_order_str(t: PagedTable) -> (r: &'static str)
    ensures
        r@ == paged_table_order(t),
{
    match t {
        PagedTable::Movements => MOVEMENT_ORDER,
        PagedTable::Reservations => UPDATED_ORDER,
    }
}

/// Appends the filters of a paged list and binds their values.
fn push_paged_filters(
    statement: &mut SqlStatement,
    tenant_id: &str,
    organization_id: Option<&str>,
    order_id: Option<&str>,
    sku_id: Option<&str>,
    column: &str,
    value: Option<&str>,
)
    ensures
        final(statement)@.sql == old(statement)@.sql + paged_filter_sql(
            str_option_view(order_id),
            str_option_view(sku_id),
            column@,
            str_option_view(value),
        ),
        final(statement)@.args == old(statement)@.args + paged_filter_args(
            tenant_id@,
            str_option_view(organization_id),
            str_option_view(order_id),
            str_option_view(sku_id),
            str_option_view(value),
        ),
        final(statement)@.args.len() == old(statement)@.args.len() + 3 + given(order_id) + given(sku_id) + given(
            value,
        ),
        order_id matches Some(v) ==> occurs_in(final(statement)@.sql, ORDER_FILTER@)
            && final(statement)@.args[old(statement)@.args.len() + 3int] == text_arg(v@),
        sku_id matches Some(v) ==> occurs_in(final(statement)@.sql, SKU_FILTER@)
            && final(statement)@.args[old(statement)@.args.len() + 3 + given(order_id)] == text_arg(v@),
        value matches Some(v) ==> occurs_in(final(statement)@.sql, COLUMN_FILTER_HEAD@ + column@ + COLUMN_FILTER_TAIL@)
            && final(statement)@.args[old(statement)@.args.len() + 3 + given(order_id) + given(sku_id)]
            == text_arg(v@),
{
    let ghost start = statement@;
    statement.push_sql(SCOPE_FILTER);
    statement.push_scope(tenant_id, organization_id);
    statement.push_filter(ORDER_FILTER, order_id);
    statement.push_filter(SKU_FILTER, sku_id);
    let ghost before_column = statement@;
    match value {
        Some(v) => {
            statement.push_sql(COLUMN_FILTER_HEAD);
            statement.push_sql(column);
            statement.push_sql(COLUMN_FILTER_TAIL);
            statement.push_text(v);
        },
        None => {},
    }
    assert(statement@.sql =~= before_column.sql + optional_clause(
        value is Some,
        COLUMN_FILTER_HEAD@ + column@ + COLUMN_FILTER_TAIL@,
    ));
    assert(statement@.args =~= before_column.args + optional_text_arg(str_option_view(value)));
    assert(statement@.sql =~= start.sql + paged_filter_sql(
        str_option_view(order_id),
        str_option_view(sku_id),
        column@,
        str_option_view(value),
    ));
    assert(statement@.args =~= start.args + paged_filter_args(
        tenant_id@,
        str_option_view(organization_id),
        str_option_view(order_id),
        str_option_view(sku_id),
        str_option_view(value),
    ));
    proof {
        lemma_paged_filters_applied(
            tenant_id@,
            str_option_view(organization_id),
            str_option_view(order_id),
            str_option_view(sku_id),
            column@,
            str_option_view(value),
        );
        let filters = paged_filter_sql(
            str_option_view(order_id),
            str_option_view(sku_id),
            column@,
            str_option_view(value),
        );
        let order = optional_clause(order_id is Some, ORDER_FILTER@).len();
        let sku = optional_clause(sku_id is Some, SKU_FILTER@).len();
        if order_id is Some {
            lemma_occurs_in_context(start.sql, filters, Seq::empty(), SCOPE_FILTER@.len() as int, ORDER_FILTER@);
        }
        if sku_id is Some {
            lemma_occurs_in_context(
                start.sql,
                filters,
                Seq::empty(),
                (SCOPE_FILTER@.len() + order) as int,
                SKU_FILTER@,
            );
        }
        if value is Some {
            lemma_occurs_in_context(
                start.sql,
                filters,
                Seq::empty(),
                (SCOPE_FILTER@.len() + order + sku) as int,
                COLUMN_FILTER_HEAD@ + column@ + COLUMN_FILTER_TAIL@,
            );
        }
    }
}

/// The statements of one page of a table of a tenant: a count of the rows
/// that pass the filters, and the page of them in the table's order.
fn paged_list_statements(
    table: PagedTable,
    tenant_id: &str,
    organization_id: Option<&str>,
    order_id: Option<&str>,
    sku_id: Option<&str>,
    column: &str,
    value: Option<&str>,
    page: i64,
    page_size: i64,
) -> (s: ListStatements)
    requires
        page_window_fits(page, page_size),
    ensures
        is_window_of(s.window, page, page_size),
        s.count@.sql == paged_count_sql(
            table,
            paged_filter_sql(str_option_view(order_id), str_option_view(sku_id), column@, str_option_view(value)),
        ),
        s.count@.args == paged_filter_args(
            tenant_id@,
            str_option_view(organization_id),
            str_option_view(order_id),
            str_option_view(sku_id),
            str_option_view(value),
        ),
        s.list@.sql == paged_list_sql(
            table,
            paged_filter_sql(str_option_view(order_id), str_option_view(sku_id), column@, str_option_view(value)),
        ),
        s.list@.args == paged_filter_args(
            tenant_id@,
            str_option_view(organization_id),
            str_option_view(order_id),
            str_option_view(sku_id),
            str_option_view(value),
        ) + window_args(s.window),
        s.count@.args.len() == 3 + given(order_id) + given(sku_id) + given(value),
        order_id matches Some(v) ==> {
            &&& occurs_in(s.count@.sql, ORDER_FILTER@) && occurs_in(s.list@.sql, ORDER_FILTER@)
            &&& s.count@.args[3] == text_arg(v@) && s.list@.args[3] == text_arg(v@)
        },
        sku_id matches Some(v) ==> {
            &&& occurs_in(s.count@.sql, SKU_FILTER@) && occurs_in(s.list@.sql, SKU_FILTER@)
            &&& s.count@.args[3 + given(order_id)] == text_arg(v@)
            &&& s.list@.args[3 + given(order_id)] == text_arg(v@)
        },
        value matches Some(v) ==> {
            &&& occurs_in(s.count@.sql, COLUMN_FILTER_HEAD@ + column@ + COLUMN_FILTER_TAIL@)
            &&& occurs_in(s.list@.sql, COLUMN_FILTER_HEAD@ + column@ + COLUMN_FILTER_TAIL@)
            &&& s.count@.args[3 + given(order_id) + given(sku_id)] == text_arg(v@)
            &&& s.list@.args[3 + given(order_id) + given(sku_id)] == text_arg(v@)
        },
{
    let window = page_window(page, page_size);
    let table_name = paged_table_name_str(table);
    let mut count = SqlStatement::new(COUNT_HEAD);
    count.push_sql(table_name);
    push_paged_filters(&mut count, tenant_id, organization_id, order_id, sku_id, column, value);
    let mut list = SqlStatement::new(SELECT_HEAD);
    list.push_sql(paged_table_columns_str(table));
    list.push_sql(FROM_WORD);
    list.push_sql(table_name);
    push_paged_filters(&mut list, tenant_id, organization_id, order_id, sku_id, column, value);
    list.push_sql(ORDER_BY_WORD);
    list.push_sql(paged_table_order_str(table));
    list.push_sql(LIMIT_TAIL);
    list.push_window(window);
    let ghost filters = paged_filter_sql(
        str_option_view(order_id),
        str_option_view(sku_id),
        column@,
        str_option_view(value),
    );
    assert(count@.sql =~= paged_count_sql(table, filters));
    assert(count@.args =~= paged_filter_args(
        tenant_id@,
        str_option_view(organization_id),
        str_option_view(order_id),
        str_option_view(sku_id),
        str_option_view(value),
    ));
    assert(list@.sql =~= paged_list_sql(table, filters));
    proof {
        lemma_paged_filters_applied(
            tenant_id@,
            str_option_view(organization_id),
            str_option_view(order_id),
            str_option_view(sku_id),
            column@,
            str_option_view(value),
        );
        let count_head = COUNT_HEAD@ + paged_table_name(table);
        let list_head = SELECT_HEAD@ + paged_table_columns(table) + FROM_WORD@ + paged_table_name(table);
        let list_tail = ORDER_BY_WORD@ + paged_table_order(table) + LIMIT_TAIL@;
        assert(list@.sql =~= list_head + filters + list_tail);
        let order = optional_clause(order_id is Some, ORDER_FILTER@).len();
        let sku = optional_clause(sku_id is Some, SKU_FILTER@).len();
        if order_id is Some {
            lemma_occurs_in_context(count_head, filters, list_tail, SCOPE_FILTER@.len() as int, ORDER_FILTER@);
            lemma_occurs_in_context(list_head, filters, list_tail, SCOPE_FILTER@.len() as int, ORDER_FILTER@);
        }
        if sku_id is Some {
            let at = (SCOPE_FILTER@.len() + order) as int;
            lemma_occurs_in_context(count_head, filters, list_tail, at, SKU_FILTER@);
            lemma_occurs_in_context(list_head, filters, list_tail, at, SKU_FILTER@);
        }
        if value is Some {
            let at = (SCOPE_FILTER@.len() + order + sku) as int;
            let named = COLUMN_FILTER_HEAD@ + column@ + COLUMN_FILTER_TAIL@;
            lemma_occurs_in_context(count_head, filters, list_tail, at, named);
            lemma_occurs_in_context(list_head, filters, list_tail, at, named);
        }
    }
    ListStatements { count, list, window }
}

/// The statements of one page of the reservations of a tenant, filtered by
/// order, SKU and status.
pub fn backend_reservation_list_statements(query: &BackendInventoryReservationListQuery) -> (s: ListStatements)
    requires
        page_window_fits(query.page, query.page_size),
    ensures
        is_window_of(s.window, query.page, query.page_size),
        s.count@.sql == paged_count_sql(
            PagedTable::Reservations,
            paged_filter_sql(
                string_option_view(query.order_id),
                string_option_view(query.sku_id),
                "status"@,
                string_option_view(query.status),
            ),
        ),
        s.count@.args == paged_filter_args(
            query.tenant_id@,
            string_option_view(query.organization_id),
            string_option_view(query.order_id),
            string_option_view(query.sku_id),
            string_option_view(query.status),
        ),
        s.list@.sql == paged_list_sql(
            PagedTable::Reservations,
            paged_filter_sql(
                string_option_view(query.order_id),
                string_option_view(query.sku_id),
                "status"@,
                string_option_view(query.status),
            ),
        ),
        s.list@.args == s.count@.args + window_args(s.window),
        s.count@.args.len() == 3 + given(query.order_id) + given(query.sku_id) + given(query.status),
        query.order_id matches Some(v) ==> {
            &&& occurs_in(s.count@.sql, ORDER_FILTER@) && occurs_in(s.list@.sql, ORDER_FILTER@)
            &&& s.count@.args[3] == text_arg(v@) && s.list@.args[3] == text_arg(v@)
        },
        query.sku_id matches Some(v) ==> {
            &&& occurs_in(s.count@.sql, SKU_FILTER@) && occurs_in(s.list@.sql, SKU_FILTER@)
            &&& s.count@.args[3 + given(query.order_id)] == text_arg(v@)
            &&& s.list@.args[3 + given(query.order_id)] == text_arg(v@)
        },
        query.status matches Some(v) ==> {
            &&& occurs_in(s.count@.sql, COLUMN_FILTER_HEAD@ + "status"@ + COLUMN_FILTER_TAIL@)
            &&& occurs_in(s.list@.sql, COLUMN_FILTER_HEAD@ + "status"@ + COLUMN_FILTER_TAIL@)
            &&& s.count@.args[3 + given(query.order_id) + given(query.sku_id)] == text_arg(v@)
            &&& s.list@.args[3 + given(query.order_id) + given(query.sku_id)] == text_arg(v@)
        },
{
    paged_list_statements(
        PagedTable::Reservations,
        query.tenant_id.as_str(),
        as_str_option(&query.organization_id),
        as_str_option(&query.order_id),
        as_str_option(&query.sku_id),
        "status",
        as_str_option(&query.status),
        query.page,
        query.page_size,
    )
}

/// The statements of one page of the movements of a tenant, filtered by SKU
/// and movement type.
pub fn backend_movement_list_statements(query: &BackendInventoryMovementListQuery) -> (s: ListStatements)
    requires
        page_window_fits(query.page, query.page_size),
    ensures
        is_window_of(s.window, query.page, query.page_size),
        s.count@.sql == paged_count_sql(
            PagedTable::Movements,
            paged_filter_sql(
                None,
                string_option_view(query.sku_id),
                "movement_type"@,
                string_option_view(query.movement_type),
            ),
        ),
        s.count@.args == paged_filter_args(
            query.tenant_id@,
            string_option_view(query.organization_id),
            None,
            string_option_view(query.sku_id),
            string_option_view(query.movement_type),
        ),
        s.list@.sql == paged_list_sql(
            PagedTable::Movements,
            paged_filter_sql(
                None,
                string_option_view(query.sku_id),
                "movement_type"@,
                string_option_view(query.movement_type),
            ),
        ),
        s.list@.args == s.count@.args + window_args(s.window),
        s.count@.args.len() == 3 + given(query.sku_id) + given(query.movement_type),
        query.sku_id matches Some(v) ==> {
            &&& occurs_in(s.count@.sql, SKU_FILTER@) && occurs_in(s.list@.sql, SKU_FILTER@)
            &&& s.count@.args[3] == text_arg(v@) && s.list@.args[3] == text_arg(v@)
        },
        query.movement_type matches Some(v) ==> {
            &&& occurs_in(s.count@.sql, COLUMN_FILTER_HEAD@ + "movement_type"@ + COLUMN_FILTER_TAIL@)
            &&& occurs_in(s.list@.sql, COLUMN_FILTER_HEAD@ + "movement_type"@ + COLUMN_FILTER_TAIL@)
            &&& s.count@.args[3 + given(query.sku_id)] == text_arg(v@)
            &&& s.list@.args[3 + given(query.sku_id)] == text_arg(v@)
        },
{
    paged_list_statements(
        PagedTable::Movements,
        query.tenant_id.as_str(),
        as_str_option(&query.organization_id),
        None,
        as_str_option(&query.sku_id),
        "movement_type",
        as_str_option(&query.movement_type),
        query.page,
        query.page_size,
    )
}

/// The count statement of one page of a merchant's stock.
pub open spec fn merchant_count_sql() -> Seq<char> {
    COUNT_HEAD@ + STOCK_TABLE@ + SCOPE_FILTER@
}

/// The page statement of one page of a merchant's stock, newest update first.
pub open spec fn merchant_list_sql() -> Seq<char> {
    SELECT_HEAD@ + MERCHANT_STOCK_COLUMNS@ + FROM_WORD@ + STOCK_TABLE@ + SCOPE_FILTER@ + ORDER_BY_WORD@
        + UPDATED_ORDER@ + LIMIT_TAIL@
}

/// The statements of one page of a merchant's stock: a count of the
/// scope's rows, and the page of them, newest update first, bounded by the
/// query's window.
pub fn merchant_stock_list_statements(query: &MerchantInventoryListQuery) -> (s: ListStatements)
    requires
        page_window_fits(query.page, query.page_size),
    ensures
        is_window_of(s.window, query.page, query.page_size),
        s.count@.sql == merchant_count_sql(),
        s.count@.args == scope_args(query.tenant_id@, string_option_view(query.organization_id)),
        s.list@.sql == merchant_list_sql(),
        s.list@.args == s.count@.args + window_args(s.window),
{
    let window = page_window(query.page, query.page_size);
    let organization = as_str_option(&query.organization_id);
    let mut count = SqlStatement::new(COUNT_HEAD);
    count.push_sql(STOCK_TABLE);
    count.push_sql(SCOPE_FILTER);
    count.push_scope(query.tenant_id.as_str(), organization);
    let mut list = SqlStatement::new(SELECT_HEAD);
    list.push_sql(merchant_stock_select_columns());
    list.push_sql(FROM_WORD);
    list.push_sql(STOCK_TABLE);
    list.push_sql(SCOPE_FILTER);
    list.push_sql(ORDER_BY_WORD);
    list.push_sql(UPDATED_ORDER);
    list.push_sql(LIMIT_TAIL);
    list.push_scope(query.tenant_id.as_str(), organization);
    list.push_window(window);
    assert(count@.sql =~= merchant_count_sql());
    assert(count@.args =~= scope_args(query.tenant_id@, string_option_view(query.organization_id)));
    assert(list@.sql =~= merchant_list_sql());
    ListStatements { count, list, window }
}

/// The adjustment of the available quantity of one stock row of the
/// merchant's tenant by `quantity_delta`, stamped with `now`.
pub fn merchant_adjustment_statement(
    scope: &MerchantInventoryScopeQuery,
    stock_id: &str,
    quantity_delta: i64,
    now: &str,
) -> (s: SqlStatement)
    ensures
        s@.sql == MERCHANT_ADJUST_SQL@,
        s@.args == seq![
            int_arg(quantity_delta as int),
            text_arg(now@),
            text_arg(scope.tenant_id@),
            text_arg(stock_id@),
        ],
{
    let mut statement = SqlStatement::new(MERCHANT_ADJUST_SQL);
    statement.push_int(quantity_delta);
    statement.push_text(now);
    statement.push_text(scope.tenant_id.as_str());
    statement.push_text(stock_id);
    assert(statement@.args =~= seq![
        int_arg(quantity_delta as int),
        text_arg(now@),
        text_arg(scope.tenant_id@),
        text_arg(stock_id@),
    ]);
    statement
}

/// The read of one stock row of the merchant's tenant after an adjustment.
pub fn merchant_stock_by_id_statement(scope: &MerchantInventoryScopeQuery, stock_id: &str) -> (s: SqlStatement)
    ensures
        s@.sql == MERCHANT_STOCK_BY_ID_SQL@,
        s@.args == seq![text_arg(scope.tenant_id@), text_arg(stock_id@)],
{
    let mut statement = SqlStatement::new(MERCHANT_STOCK_BY_ID_SQL);
    statement.push_text(scope.tenant_id.as_str());
    statement.push_text(stock_id);
    assert(statement@.args =~= seq![text_arg(scope.tenant_id@), text_arg(stock_id@)]);
    statement
}

/// The lists of the SQLite store read only the rows of the request's
/// tenant: the first argument of every list is the tenant.
pub proof fn lemma_lists_are_tenant_scoped(
    q: BackendInventoryStockListQuery,
    tenant_id: Seq<char>,
    organization_id: Option<Seq<char>>,
    order_id: Option<Seq<char>>,
    sku_id: Option<Seq<char>>,
    value: Option<Seq<char>>,
)
    ensures
        stock_filter_args(q)[0] == text_arg(q.tenant_id@),
        paged_filter_args(tenant_id, organization_id, order_id, sku_id, value)[0] == text_arg(tenant_id),
{
}

/// A stock update of the SQLite store changes only the addressed row of the
/// request's tenant: its last two arguments are the tenant and the row.
pub proof fn lemma_update_is_tenant_scoped(c: UpdateBackendInventoryStockCommand, now: Seq<char>)
    ensures
        stock_update_args(c, now).len() >= 3,
        stock_update_args(c, now)[stock_update_args(c, now).len() - 2] == text_arg(c.tenant_id@),
        stock_update_args(c, now).last() == text_arg(c.stock_id@),
{
}

} // verus!
