//! The HTTP surfaces of the capability: their route tables, the envelope
//! codes of their replies, and how a request becomes a store query.
use vstd::prelude::*;
use crate::error::CommerceErrorKind;
use crate::repository::{
    BackendInventoryListPage, BackendInventoryMovementListQuery, BackendInventoryReservationListQuery,
    BackendInventoryStockListQuery, MerchantInventoryListQuery, MerchantInventoryScopeQuery,
    UpdateBackendInventoryStockCommand,
};
use crate::text::{as_str_option, is_blank, normalized_optional, required_message, string_option_view, trimmed};

verus! {

pub const READ_PERMISSION: &'static str = "commerce.inventory.read";

pub const MANAGE_PERMISSION: &'static str = "commerce.inventory.manage";

pub const APP_STOCKS_PATH: &'static str = "/app/v3/api/shops/current/inventory/stocks";

pub const APP_ADJUSTMENTS_PATH: &'static str = "/app/v3/api/shops/current/inventory/stocks/{stockId}/adjustments";

pub const BACKEND_STOCKS_PATH: &'static str = "/backend/v3/api/inventory/stocks";

pub const BACKEND_STOCK_PATH: &'static str = "/backend/v3/api/inventory/stocks/{stockId}";

pub const BACKEND_RESERVATIONS_PATH: &'static str = "/backend/v3/api/inventory/reservations";

pub const BACKEND_MOVEMENTS_PATH: &'static str = "/backend/v3/api/inventory/movements";

pub const SUCCESS_CODE: &'static str = "0";

pub const SUCCESS_MESSAGE: &'static str = "success";

/// The first page, when a request names none.
pub const DEFAULT_PAGE: i64 = 1;

/// The page size, when a request names none.
pub const DEFAULT_PAGE_SIZE: i64 = 20;

/// The HTTP methods the surfaces use.
#[derive(Clone, Copy, Debug, PartialEq, Eq, Structural)]
pub enum HttpMethod {
    Get,
    Post,
    Patch,
}

/// How a route authenticates its caller.
#[derive(Clone, Copy, Debug, PartialEq, Eq, Structural)]
pub enum RouteAuth {
    DualToken,
}

/// One operation of a surface: method, path, the permission it needs and
/// its operation name.
#[derive(Clone, Copy, Debug, PartialEq, Eq)]
pub struct HttpRoute {
    pub method: HttpMethod,
    pub path: &'static str,
    pub permission: &'static str,
    pub operation: &'static str,
    pub auth: RouteAuth,
}

/// The operations of one surface.
#[derive(Clone, Debug, PartialEq, Eq)]
pub struct HttpRouteManifest {
    pub routes: Vec<HttpRoute>,
}

/// `route` has the given method, path, permission and operation name.
pub open spec fn is_route(
    route: HttpRoute,
    method: HttpMethod,
    path: Seq<char>,
    permission: Seq<char>,
    operation: Seq<char>,
) -> bool {
    &&& route.method == method
    &&& route.path@ == path
    &&& route.permission@ == permission
    &&& route.operation@ == operation
}

/// Reads need the read permission, every other method the manage permission.
pub open spec fn has_method_permission(route: HttpRoute) -> bool {
    if route.method == HttpMethod::Get {
        route.permission@ == READ_PERMISSION@
    } else {
        route.permission@ == MANAGE_PERMISSION@
    }
}

/// No two routes of the table share both method and path.
pub open spec fn routes_are_unique(routes: Seq<HttpRoute>) -> bool {
    forall|i: int, j: int|
        0 <= i < routes.len() && 0 <= j < routes.len() && i != j ==> !(routes[i].method == routes[j].method
            && routes[i].path@ == routes[j].path@)
}

impl HttpRoute {
    /// A route that accepts both token kinds.
    pub fn dual_token(
        method: HttpMethod,
        path: &'static str,
        permission: &'static str,
        operation: &'static str,
    ) -> (r: Self)
        ensures
            r.method == method,
            r.path == path,
            r.permission == permission,
            r.operation == operation,
            r.auth == RouteAuth::DualToken,
    {
        HttpRoute { method, path, permission, operation, auth: RouteAuth::DualToken }
    }
}

/// The route table of the merchant app surface.
pub open spec fn is_app_route_table(routes: Seq<HttpRoute>) -> bool {
    &&& routes.len() == 2
    &&& is_route(routes[0], HttpMethod::Get, APP_STOCKS_PATH@, READ_PERMISSION@, "inventory.stocks.list"@)
    &&& is_route(
        routes[1],
        HttpMethod::Post,
        APP_ADJUSTMENTS_PATH@,
        MANAGE_PERMISSION@,
        "inventory.stocks.adjustments.create"@,
    )
}

/// The route table of the administrator surface.
pub open spec fn is_backend_route_table(routes: Seq<HttpRoute>) -> bool {
    &&& routes.len() == 4
    &&& is_route(routes[0], HttpMethod::Get, BACKEND_STOCKS_PATH@, READ_PERMISSION@, "inventory.stocks.list"@)
    &&& is_route(routes[1], HttpMethod::Patch, BACKEND_STOCK_PATH@, MANAGE_PERMISSION@, "inventory.stocks.update"@)
    &&& is_route(
        routes[2],
        HttpMethod::Get,
        BACKEND_RESERVATIONS_PATH@,
        READ_PERMISSION@,
        "inventory.reservations.list"@,
    )
    &&& is_route(routes[3], HttpMethod::Get, BACKEND_MOVEMENTS_PATH@, READ_PERMISSION@, "inventory.movements.list"@)
}

/// The operations of the merchant app surface.
pub fn app_route_manifest() -> (m: HttpRouteManifest)
    ensures
        is_app_route_table(m.routes@),
{
    let mut routes: Vec<HttpRoute> = Vec::new();
    routes.push(HttpRoute::dual_token(HttpMethod::Get, APP_STOCKS_PATH, READ_PERMISSION, "inventory.stocks.list"));
    routes.push(
        HttpRoute::dual_token(
            HttpMethod::Post,
            APP_ADJUSTMENTS_PATH,
            MANAGE_PERMISSION,
            "inventory.stocks.adjustments.create",
        ),
    );
    HttpRouteManifest { routes }
}

/// The operations of the administrator surface.
pub fn backend_route_manifest() -> (m: HttpRouteManifest)
    ensures
        is_backend_route_table(m.routes@),
{
    let mut routes: Vec<HttpRoute> = Vec::new();
    routes.push(HttpRoute::dual_token(HttpMethod::Get, BACKEND_STOCKS_PATH, READ_PERMISSION, "inventory.stocks.list"));
    routes.push(
        HttpRoute::dual_token(HttpMethod::Patch, BACKEND_STOCK_PATH, MANAGE_PERMISSION, "inventory.stocks.update"),
    );
    routes.push(
        HttpRoute::dual_token(
            HttpMethod::Get,
            BACKEND_RESERVATIONS_PATH,
            READ_PERMISSION,
            "inventory.reservations.list",
        ),
    );
    routes.push(
        HttpRoute::dual_token(HttpMethod::Get, BACKEND_MOVEMENTS_PATH, READ_PERMISSION, "inventory.movements.list"),
    );
    HttpRouteManifest { routes }
}

/// The operations the gateway mounts for this capability: those of the
/// administrator surface.
pub fn gateway_route_manifest() -> (m: HttpRouteManifest)
    ensures
        is_backend_route_table(m.routes@),
{
    backend_route_manifest()
}

/// Every route of both surfaces needs the permission of its method, and
/// no surface has two routes with the same method and path.
pub proof fn lemma_route_tables_are_sound(app: Seq<HttpRoute>, backend: Seq<HttpRoute>)
    requires
        is_app_route_table(app),
        is_backend_route_table(backend),
    ensures
        forall|i: int| 0 <= i < app.len() ==> has_method_permission(#[trigger] app[i]),
        forall|i: int| 0 <= i < backend.len() ==> has_method_permission(#[trigger] backend[i]),
        routes_are_unique(app),
        routes_are_unique(backend),
{
    reveal_strlit("/backend/v3/api/inventory/stocks");
    reveal_strlit("/backend/v3/api/inventory/reservations");
    reveal_strlit("/backend/v3/api/inventory/movements");
    assert(BACKEND_STOCKS_PATH@.len() != BACKEND_RESERVATIONS_PATH@.len());
    assert(BACKEND_STOCKS_PATH@.len() != BACKEND_MOVEMENTS_PATH@.len());
    assert(BACKEND_RESERVATIONS_PATH@.len() != BACKEND_MOVEMENTS_PATH@.len());
}

/// The HTTP status and the envelope code of a reply that carries no data.
#[derive(Clone, Copy, Debug, PartialEq, Eq)]
pub struct ErrorReply {
    pub status: u16,
    pub code: &'static str,
}

/// `reply` has the given status and envelope code.
pub open spec fn is_reply(reply: ErrorReply, status: u16, code: Seq<char>) -> bool {
    reply.status == status && reply.code@ == code
}

/// How the merchant app surface answers a failed store call: 400 for a
/// validation error, 404 for a missing row, 500 for anything else.
pub open spec fn app_error_reply_for(kind: CommerceErrorKind, reply: ErrorReply) -> bool {
    match kind {
        CommerceErrorKind::Validation => is_reply(reply, 400, "4001"@),
        CommerceErrorKind::NotFound => is_reply(reply, 404, "4040"@),
        _ => is_reply(reply, 500, "5000"@),
    }
}

/// How the administrator surface answers a failed store call: as the app
/// surface does, and 409 for a conflict.
pub open spec fn backend_error_reply_for(kind: CommerceErrorKind, reply: ErrorReply) -> bool {
    match kind {
        CommerceErrorKind::Validation => is_reply(reply, 400, "4001"@),
        CommerceErrorKind::NotFound => is_reply(reply, 404, "4040"@),
        CommerceErrorKind::Conflict => is_reply(reply, 409, "4090"@),
        _ => is_reply(reply, 500, "5000"@),
    }
}

/// The reply of the merchant app surface to a failed store call.
pub fn app_error_reply(kind: CommerceErrorKind) -> (r: ErrorReply)
    ensures
        app_error_reply_for(kind, r),
{
    match kind {
        CommerceErrorKind::Validation => ErrorReply { status: 400, code: "4001" },
        CommerceErrorKind::NotFound => ErrorReply { status: 404, code: "4040" },
        _ => ErrorReply { status: 500, code: "5000" },
    }
}

/// The reply of the administrator surface to a failed store call.
pub fn backend_error_reply(kind: CommerceErrorKind) -> (r: ErrorReply)
    ensures
        backend_error_reply_for(kind, r),
{
    match kind {
        CommerceErrorKind::Validation => ErrorReply { status: 400, code: "4001" },
        CommerceErrorKind::NotFound => ErrorReply { status: 404, code: "4040" },
        CommerceErrorKind::Conflict => ErrorReply { status: 409, code: "4090" },
        _ => ErrorReply { status: 500, code: "5000" },
    }
}

/// The reply of the merchant app surface to a caller without a subject.
pub fn app_unauthorized_reply() -> (r: ErrorReply)
    ensures
        is_reply(r, 401, "401"@),
{
    ErrorReply { status: 401, code: "401" }
}

/// The reply of the merchant app surface to a subject whose scope is invalid.
pub fn app_validation_reply() -> (r: ErrorReply)
    ensures
        is_reply(r, 400, "400"@),
{
    ErrorReply { status: 400, code: "400" }
}

/// The reply of the administrator surface to a caller without a subject.
pub fn backend_unauthorized_reply() -> (r: ErrorReply)
    ensures
        is_reply(r, 401, "4010"@),
{
    ErrorReply { status: 401, code: "4010" }
}

/// Every refused request is answered with a client or server error status,
/// never with a success, and only a storage or state failure is blamed on
/// the server.
pub proof fn lemma_error_replies_fail_closed(kind: CommerceErrorKind, app: ErrorReply, backend: ErrorReply)
    requires
        app_error_reply_for(kind, app),
        backend_error_reply_for(kind, backend),
    ensures
        400 <= app.status < 600,
        400 <= backend.status < 600,
        (app.status >= 500) == (kind != CommerceErrorKind::Validation && kind != CommerceErrorKind::NotFound),
        (backend.status >= 500) == (kind == CommerceErrorKind::Storage || kind == CommerceErrorKind::InvalidState),
{
}

/// Both surfaces answer a validation error with 400 and a missing row with
/// 404; they answer alike every failure but a conflict, which the
/// administrator surface answers with 409 and the app surface with 500.
pub proof fn lemma_surfaces_agree_but_on_conflict(kind: CommerceErrorKind, app: ErrorReply, backend: ErrorReply)
    requires
        app_error_reply_for(kind, app),
        backend_error_reply_for(kind, backend),
    ensures
        kind == CommerceErrorKind::Validation ==> app.status == 400 && backend.status == 400,
        kind == CommerceErrorKind::NotFound ==> app.status == 404 && backend.status == 404,
        kind != CommerceErrorKind::Conflict ==> app.status == backend.status && app.code@ == backend.code@,
        kind == CommerceErrorKind::Conflict ==> app.status == 500 && backend.status == 409,
{
}

/// The position of a list in a reply: page, page size and total.
#[derive(Clone, Copy, Debug, PartialEq, Eq, Structural)]
pub struct PageInfo {
    pub page: i64,
    pub page_size: i64,
    pub total: i64,
}

/// The page information of a merchant stock page: the page and size the
/// store read, and the rows it counted.
pub fn merchant_stock_page_info(page: &BackendInventoryListPage) -> (p: PageInfo)
    ensures
        p.page == page.page,
        p.page_size == page.page_size,
        p.total == page.total,
{
    PageInfo { page: page.page, page_size: page.page_size, total: page.total }
}

/// The message of the refusal of a request that carries no subject.
pub const MISSING_SUBJECT_MESSAGE: &'static str = "authenticated tenant context is required";

/// The authenticated caller of a request: its tenant and organization.
#[derive(Clone, Debug, PartialEq, Eq)]
pub struct CallerSubject {
    pub tenant_id: String,
    pub organization_id: Option<String>,
}

/// A request refused before any store is asked: the reply and its message.
#[derive(Clone, Debug, PartialEq, Eq)]
pub struct RequestRefusal {
    pub reply: ErrorReply,
    pub message: String,
}

/// `r` refuses with the given status, envelope code and message.
pub open spec fn is_refusal(r: RequestRefusal, status: u16, code: Seq<char>, message: Seq<char>) -> bool {
    is_reply(r.reply, status, code) && r.message@ == message
}

/// The administrator surface's refusal of a request without a subject.
fn backend_missing_subject() -> (r: RequestRefusal)
    ensures
        is_refusal(r, 401, "4010"@, MISSING_SUBJECT_MESSAGE@),
{
    RequestRefusal { reply: backend_unauthorized_reply(), message: MISSING_SUBJECT_MESSAGE.to_owned() }
}

/// The requested page, or the first when none is named.
pub open spec fn requested_page(page: Option<i64>) -> i64 {
    match page {
        Some(p) => p,
        None => DEFAULT_PAGE,
    }
}

/// The requested page size, or 20 when none is named.
pub open spec fn requested_page_size(page_size: Option<i64>) -> i64 {
    match page_size {
        Some(s) => s,
        None => DEFAULT_PAGE_SIZE,
    }
}

/// A named page and page size are taken as they are; a request that names
/// neither reads the first page of 20.
pub proof fn lemma_requested_paging(page: Option<i64>, page_size: Option<i64>)
    ensures
        page matches Some(p) ==> requested_page(page) == p,
        page is None ==> requested_page(page) == 1,
        page_size matches Some(n) ==> requested_page_size(page_size) == n,
        page_size is None ==> requested_page_size(page_size) == 20,
{
}

fn page_or_default(page: Option<i64>) -> (p: i64)
    ensures
        p == requested_page(page),
{
    match page {
        Some(p) => p,
        None => DEFAULT_PAGE,
    }
}

fn page_size_or_default(page_size: Option<i64>) -> (s: i64)
    ensures
        s == requested_page_size(page_size),
{
    match page_size {
        Some(s) => s,
        None => DEFAULT_PAGE_SIZE,
    }
}

impl BackendInventoryStockListQuery {
    /// The stock list query of an administrator request, in the caller's
    /// tenant and organization; refused, before any store is asked, when
    /// the request carries no subject.
    pub fn from_request(
        subject: Option<CallerSubject>,
        sku_id: Option<String>,
        warehouse_id: Option<String>,
        status: Option<String>,
        page: Option<i64>,
        page_size: Option<i64>,
    ) -> (r: Result<Self, RequestRefusal>)
        ensures
            match subject {
                None => r matches Err(x) && is_refusal(x, 401, "4010"@, MISSING_SUBJECT_MESSAGE@),
                Some(caller) => r matches Ok(q) && {
                    &&& q.tenant_id == caller.tenant_id
                    &&& q.organization_id == caller.organization_id
                    &&& q.sku_id == sku_id
                    &&& q.warehouse_id == warehouse_id
                    &&& q.status == status
                    &&& q.page == requested_page(page)
                    &&& q.page_size == requested_page_size(page_size)
                },
            },
    {
        match subject {
            None => Err(backend_missing_subject()),
            Some(caller) => Ok(BackendInventoryStockListQuery {
                tenant_id: caller.tenant_id,
                organization_id: caller.organization_id,
                sku_id,
                warehouse_id,
                status,
                page: page_or_default(page),
                page_size: page_size_or_default(page_size),
            }),
        }
    }
}

impl BackendInventoryReservationListQuery {
    /// The reservation list query of an administrator request, in the
    /// caller's tenant and organization; refused, before any store is
    /// asked, when the request carries no subject.
    pub fn from_request(
        subject: Option<CallerSubject>,
        order_id: Option<String>,
        sku_id: Option<String>,
        status: Option<String>,
        page: Option<i64>,
        page_size: Option<i64>,
    ) -> (r: Result<Self, RequestRefusal>)
        ensures
            match subject {
                None => r matches Err(x) && is_refusal(x, 401, "4010"@, MISSING_SUBJECT_MESSAGE@),
                Some(caller) => r matches Ok(q) && {
                    &&& q.tenant_id == caller.tenant_id
                    &&& q.organization_id == caller.organization_id
                    &&& q.order_id == order_id
                    &&& q.sku_id == sku_id
                    &&& q.status == status
                    &&& q.page == requested_page(page)
                    &&& q.page_size == requested_page_size(page_size)
                },
            },
    {
        match subject {
            None => Err(backend_missing_subject()),
            Some(caller) => Ok(BackendInventoryReservationListQuery {
                tenant_id: caller.tenant_id,
                organization_id: caller.organization_id,
                order_id,
                sku_id,
                status,
                page: page_or_default(page),
                page_size: page_size_or_default(page_size),
            }),
        }
    }
}

impl BackendInventoryMovementListQuery {
    /// The movement list query of an administrator request, in the caller's
    /// tenant and organization; refused, before any store is asked, when
    /// the request carries no subject.
    pub fn from_request(
        subject: Option<CallerSubject>,
        sku_id: Option<String>,
        movement_type: Option<String>,
        page: Option<i64>,
        page_size: Option<i64>,
    ) -> (r: Result<Self, RequestRefusal>)
        ensures
            match subject {
                None => r matches Err(x) && is_refusal(x, 401, "4010"@, MISSING_SUBJECT_MESSAGE@),
                Some(caller) => r matches Ok(q) && {
                    &&& q.tenant_id == caller.tenant_id
                    &&& q.organization_id == caller.organization_id
                    &&& q.sku_id == sku_id
                    &&& q.movement_type == movement_type
                    &&& q.page == requested_page(page)
                    &&& q.page_size == requested_page_size(page_size)
                },
            },
    {
        match subject {
            None => Err(backend_missing_subject()),
            Some(caller) => Ok(BackendInventoryMovementListQuery {
                tenant_id: caller.tenant_id,
                organization_id: caller.organization_id,
                sku_id,
                movement_type,
                page: page_or_default(page),
                page_size: page_size_or_default(page_size),
            }),
        }
    }
}

impl UpdateBackendInventoryStockCommand {
    /// The stock update of an administrator request, in the caller's tenant
    /// and organization; refused, before any store is asked, when the
    /// request carries no subject.
    pub fn from_request(
        subject: Option<CallerSubject>,
        stock_id: String,
        available_quantity: Option<i64>,
        safety_stock_quantity: Option<i64>,
        status: Option<String>,
    ) -> (r: Result<Self, RequestRefusal>)
        ensures
            match subject {
                None => r matches Err(x) && is_refusal(x, 401, "4010"@, MISSING_SUBJECT_MESSAGE@),
                Some(caller) => r matches Ok(c) && {
                    &&& c.tenant_id == caller.tenant_id
                    &&& c.organization_id == caller.organization_id
                    &&& c.stock_id == stock_id
                    &&& c.available_quantity == available_quantity
                    &&& c.safety_stock_quantity == safety_stock_quantity
                    &&& c.status == status
                },
            },
    {
        match subject {
            None => Err(backend_missing_subject()),
            Some(caller) => Ok(UpdateBackendInventoryStockCommand {
                tenant_id: caller.tenant_id,
                organization_id: caller.organization_id,
                stock_id,
                available_quantity,
                safety_stock_quantity,
                status,
            }),
        }
    }
}

/// The merchant scope of an app request: refused with 401 when the request
/// carries no subject, with 400 and the validation message when the
/// subject's tenant is blank; otherwise the normalised scope.
pub fn merchant_request_scope(subject: Option<CallerSubject>) -> (r: Result<
    MerchantInventoryScopeQuery,
    RequestRefusal,
>)
    ensures
        match subject {
            None => r matches Err(x) && is_refusal(x, 401, "401"@, MISSING_SUBJECT_MESSAGE@),
            Some(caller) => if is_blank(caller.tenant_id@) {
                r matches Err(x) && is_refusal(x, 400, "400"@, required_message("tenant_id"@))
            } else {
                r matches Ok(q) && {
                    &&& q.tenant_id@ == trimmed(caller.tenant_id@)
                    &&& string_option_view(q.organization_id) == normalized_optional(
                        string_option_view(caller.organization_id),
                    )
                    &&& q.is_well_formed()
                }
            },
        },
{
    match subject {
        None => Err(RequestRefusal { reply: app_unauthorized_reply(), message: MISSING_SUBJECT_MESSAGE.to_owned() }),
        Some(caller) => {
            let organization = as_str_option(&caller.organization_id);
            match MerchantInventoryScopeQuery::new(caller.tenant_id.as_str(), organization) {
                Ok(scope) => Ok(scope),
                Err(e) => Err(RequestRefusal { reply: app_validation_reply(), message: e.message }),
            }
        },
    }
}

/// The merchant stock list of an app request: the first page of 20 of the
/// caller's scope, or the refusal of `merchant_request_scope`.
pub fn merchant_stock_list_request(subject: Option<CallerSubject>) -> (r: Result<
    MerchantInventoryListQuery,
    RequestRefusal,
>)
    ensures
        match subject {
            None => r matches Err(x) && is_refusal(x, 401, "401"@, MISSING_SUBJECT_MESSAGE@),
            Some(caller) => if is_blank(caller.tenant_id@) {
                r matches Err(x) && is_refusal(x, 400, "400"@, required_message("tenant_id"@))
            } else {
                r matches Ok(q) && {
                    &&& q.tenant_id@ == trimmed(caller.tenant_id@)
                    &&& string_option_view(q.organization_id) == normalized_optional(
                        string_option_view(caller.organization_id),
                    )
                    &&& q.page == 1
                    &&& q.page_size == 20
                    &&& q.is_well_formed()
                }
            },
        },
{
    match merchant_request_scope(subject) {
        Ok(scope) => Ok(MerchantInventoryListQuery {
            tenant_id: scope.tenant_id,
            organization_id: scope.organization_id,
            page: DEFAULT_PAGE,
            page_size: DEFAULT_PAGE_SIZE,
        }),
        Err(refusal) => Err(refusal),
    }
}

} // verus!
