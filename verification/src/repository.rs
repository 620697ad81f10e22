//! The requests the inventory stores serve and the rules around their
//! answers: scopes, list queries, the update command, pages and errors.
use vstd::prelude::*;
use crate::error::{CommerceErrorKind, CommerceServiceError, is_error};
use crate::paging::{PageWindow, MAX_PAGE_SIZE};
use crate::text::{
    is_blank, lemma_normalized_optional_fixed, lemma_trimmed_normalized, is_normalized_optional,
    is_normalized_text, normalized_optional, optional_text, required_message, required_text,
    str_option_view, string_option_view, trimmed,
};

verus! {

pub const STOCK_NOT_FOUND_MESSAGE: &'static str = "inventory stock was not found";

pub const EMPTY_STOCK_UPDATE_MESSAGE: &'static str = "at least one stock field must be provided";

pub const PAGE_MESSAGE: &'static str = "page must be greater than zero";

pub const PAGE_SIZE_MESSAGE: &'static str = "page_size must be between 1 and 200";

/// The tenant, and optionally the organization, whose stock a merchant sees.
#[derive(Clone, Debug, PartialEq, Eq)]
pub struct MerchantInventoryScopeQuery {
    pub tenant_id: String,
    pub organization_id: Option<String>,
}

/// A page of a merchant's stock.
#[derive(Clone, Debug, PartialEq, Eq)]
pub struct MerchantInventoryListQuery {
    pub tenant_id: String,
    pub organization_id: Option<String>,
    pub page: i64,
    pub page_size: i64,
}

/// A page of the stock of a tenant, filtered by SKU, warehouse and status.
#[derive(Clone, Debug, PartialEq, Eq)]
pub struct BackendInventoryStockListQuery {
    pub tenant_id: String,
    pub organization_id: Option<String>,
    pub sku_id: Option<String>,
    pub warehouse_id: Option<String>,
    pub status: Option<String>,
    pub page: i64,
    pub page_size: i64,
}

/// A change of some fields of one stock row.
#[derive(Clone, Debug, PartialEq, Eq)]
pub struct UpdateBackendInventoryStockCommand {
    pub tenant_id: String,
    pub organization_id: Option<String>,
    pub stock_id: String,
    pub available_quantity: Option<i64>,
    pub safety_stock_quantity: Option<i64>,
    pub status: Option<String>,
}

/// A page of the reservations of a tenant, filtered by order, SKU and status.
#[derive(Clone, Debug, PartialEq, Eq)]
pub struct BackendInventoryReservationListQuery {
    pub tenant_id: String,
    pub organization_id: Option<String>,
    pub order_id: Option<String>,
    pub sku_id: Option<String>,
    pub status: Option<String>,
    pub page: i64,
    pub page_size: i64,
}

/// A page of the movements of a tenant, filtered by SKU and movement type.
#[derive(Clone, Debug, PartialEq, Eq)]
pub struct BackendInventoryMovementListQuery {
    pub tenant_id: String,
    pub organization_id: Option<String>,
    pub sku_id: Option<String>,
    pub movement_type: Option<String>,
    pub page: i64,
    pub page_size: i64,
}

/// A page of rows with the position of the page and the number of rows
/// that match in all.
pub struct BackendInventoryListPage {
    pub items: Vec<serde_json::Value>,
    pub page: i64,
    pub page_size: i64,
    pub total: i64,
}

impl MerchantInventoryScopeQuery {
    pub open spec fn is_well_formed(&self) -> bool {
        &&& is_normalized_text(self.tenant_id@)
        &&& is_normalized_optional(string_option_view(self.organization_id))
    }

    /// A merchant scope; rejected when the tenant is blank, a blank
    /// organization counting as absent.
    pub fn new(tenant_id: &str, organization_id: Option<&str>) -> (r: Result<Self, CommerceServiceError>)
        ensures
            is_blank(tenant_id@) <==> r is Err,
            r matches Err(e) ==> is_error(e, CommerceErrorKind::Validation, required_message("tenant_id"@)),
            r matches Ok(q) ==> {
                &&& q.tenant_id@ == trimmed(tenant_id@)
                &&& string_option_view(q.organization_id) == normalized_optional(str_option_view(organization_id))
                &&& q.is_well_formed()
            },
    {
        let tenant = match required_text("tenant_id", tenant_id) {
            Ok(s) => s,
            Err(e) => return Err(e),
        };
        let organization = optional_text(organization_id);
        proof {
            lemma_trimmed_normalized(tenant_id@);
            lemma_normalized_optional_fixed(str_option_view(organization_id));
        }
        Ok(MerchantInventoryScopeQuery { tenant_id: tenant, organization_id: organization })
    }
}

impl MerchantInventoryListQuery {
    pub open spec fn is_well_formed(&self) -> bool {
        &&& is_normalized_text(self.tenant_id@)
        &&& is_normalized_optional(string_option_view(self.organization_id))
        &&& self.page >= 1
        &&& 1 <= self.page_size <= MAX_PAGE_SIZE
    }

    /// A page of a merchant's stock; rejected when the tenant is blank,
    /// then when the page is below 1, then when the page size is outside
    /// 1..=200.
    pub fn new(tenant_id: &str, organization_id: Option<&str>, page: i64, page_size: i64) -> (r: Result<
        Self,
        CommerceServiceError,
    >)
        ensures
            is_blank(tenant_id@) ==> (r matches Err(e) && is_error(
                e,
                CommerceErrorKind::Validation,
                required_message("tenant_id"@),
            )),
            !is_blank(tenant_id@) && page < 1 ==> (r matches Err(e) && is_error(
                e,
                CommerceErrorKind::Validation,
                PAGE_MESSAGE@,
            )),
            !is_blank(tenant_id@) && page >= 1 && !(1 <= page_size <= MAX_PAGE_SIZE) ==> (r matches Err(e)
                && is_error(e, CommerceErrorKind::Validation, PAGE_SIZE_MESSAGE@)),
            r is Ok <==> !is_blank(tenant_id@) && page >= 1 && 1 <= page_size <= MAX_PAGE_SIZE,
            r matches Ok(q) ==> {
                &&& q.tenant_id@ == trimmed(tenant_id@)
                &&& string_option_view(q.organization_id) == normalized_optional(str_option_view(organization_id))
                &&& q.page == page
                &&& q.page_size == page_size
                &&& q.is_well_formed()
            },
    {
        let scope = match MerchantInventoryScopeQuery::new(tenant_id, organization_id) {
            Ok(scope) => scope,
            Err(e) => return Err(e),
        };
        if page < 1 {
            return Err(CommerceServiceError::validation(PAGE_MESSAGE));
        }
        if page_size < 1 || page_size > MAX_PAGE_SIZE {
            return Err(CommerceServiceError::validation(PAGE_SIZE_MESSAGE));
        }
        Ok(MerchantInventoryListQuery {
            tenant_id: scope.tenant_id,
            organization_id: scope.organization_id,
            page,
            page_size,
        })
    }
}

impl BackendInventoryListPage {
    /// The page of `items` at `window`; the total is the counted rows, or 0
    /// when the count could not be read.
    pub fn from_window(items: Vec<serde_json::Value>, window: PageWindow, counted: Option<i64>) -> (p: Self)
        ensures
            p.items@ == items@,
            p.page == window.page,
            p.page_size == window.page_size,
            p.total == match counted {
                Some(n) => n,
                None => 0,
            },
    {
        let total: i64 = match counted {
            Some(n) => n,
            None => 0,
        };
        BackendInventoryListPage { items, page: window.page, page_size: window.page_size, total }
    }
}

/// The outcome of an update of one stock row: not found when no row changed.
pub fn stock_update_outcome(rows_affected: u64) -> (r: Result<(), CommerceServiceError>)
    ensures
        r is Ok <==> rows_affected > 0,
        r matches Err(e) ==> is_error(e, CommerceErrorKind::NotFound, STOCK_NOT_FOUND_MESSAGE@),
{
    if rows_affected == 0 {
        Err(CommerceServiceError::not_found(STOCK_NOT_FOUND_MESSAGE))
    } else {
        Ok(())
    }
}

/// The stock row read back after a change, or not found when there is none.
pub fn found_stock<T>(row: Option<T>) -> (r: Result<T, CommerceServiceError>)
    ensures
        match row {
            Some(x) => r == Ok::<T, CommerceServiceError>(x),
            None => r matches Err(e) && is_error(e, CommerceErrorKind::NotFound, STOCK_NOT_FOUND_MESSAGE@),
        },
{
    match row {
        Some(x) => Ok(x),
        None => Err(CommerceServiceError::not_found(STOCK_NOT_FOUND_MESSAGE)),
    }
}

/// A storage error: the message says what failed and nothing of the
/// database's own words, which stay out of replies.
pub fn store_error(context: &str) -> (e: CommerceServiceError)
    ensures
        is_error(e, CommerceErrorKind::Storage, context@),
{
    CommerceServiceError::storage(context)
}

/// A text cell as the stores read it: empty when the cell is missing or null.
pub fn string_cell(cell: Option<String>) -> (s: String)
    ensures
        s@ == match cell {
            Some(v) => v@,
            None => Seq::<char>::empty(),
        },
{
    match cell {
        Some(v) => v,
        None => String::new(),
    }
}

/// An integer cell as the stores read it: 0 when the cell is missing or null.
pub fn i64_cell(cell: Option<i64>) -> (n: i64)
    ensures
        n == match cell {
            Some(v) => v,
            None => 0,
        },
{
    match cell {
        Some(v) => v,
        None => 0,
    }
}

} // verus!
