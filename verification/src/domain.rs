//! Inventory domain drafts: stock, reservations, movements and the
//! reservation life cycle.
use vstd::prelude::*;
use crate::error::{CommerceErrorKind, CommerceServiceError, is_error};
use crate::text::{is_blank, 
    first_blank, is_normalized_optional, is_normalized_text, lemma_normalized_optional_fixed,
    lemma_trimmed_normalized, normalized_optional, optional_text, required_message, required_text,
    str_option_view, string_option_view, trimmed,
};

verus! {

pub const NEGATIVE_STOCK_MESSAGE: &'static str = "inventory quantities and version must not be negative";

pub const RESERVATION_QUANTITY_MESSAGE: &'static str = "inventory reservation quantity must be greater than zero";

pub const MOVEMENT_QUANTITY_MESSAGE: &'static str = "inventory movement quantity must be greater than zero";

pub const INVALID_TRANSITION_MESSAGE: &'static str = "invalid inventory reservation transition";

/// Stock of one SKU, optionally in one warehouse, split into its buckets.
#[derive(Clone, Debug, PartialEq, Eq)]
pub struct InventoryStockDraft {
    pub tenant_id: String,
    pub sku_id: String,
    pub warehouse_id: Option<String>,
    pub available_quantity: i64,
    pub reserved_quantity: i64,
    pub sold_quantity: i64,
    pub version: i64,
}

/// Where a reservation stands in its life cycle.
#[derive(Clone, Copy, Debug, PartialEq, Eq, Structural)]
pub enum InventoryReservationStatus {
    Reserved,
    Consumed,
    Released,
    Expired,
}

/// A requested move of a reservation from one status to another.
#[derive(Clone, Copy, Debug, PartialEq, Eq, Structural)]
pub struct InventoryReservationTransition {
    from: InventoryReservationStatus,
    to: InventoryReservationStatus,
}

/// A hold of stock for an order.
#[derive(Clone, Debug, PartialEq, Eq)]
pub struct InventoryReservationDraft {
    pub tenant_id: String,
    pub reservation_id: String,
    pub order_id: String,
    pub sku_id: String,
    pub warehouse_id: Option<String>,
    pub quantity: i64,
    pub expires_at: String,
    pub idempotency_key: String,
    pub status: InventoryReservationStatus,
}

/// The kind of an entry of the inventory movement ledger.
#[derive(Clone, Copy, Debug, PartialEq, Eq, Structural)]
pub enum InventoryMovementType {
    Reserve,
    Release,
    Consume,
    Adjust,
}

/// An entry of the inventory movement ledger.
#[derive(Clone, Debug, PartialEq, Eq)]
pub struct InventoryMovementDraft {
    pub tenant_id: String,
    pub movement_no: String,
    pub sku_id: String,
    pub warehouse_id: Option<String>,
    pub movement_type: InventoryMovementType,
    pub quantity: i64,
    pub business_type: String,
    pub source_id: String,
}

/// When stock is reserved, consumed and released along an order's life.
#[derive(Clone, Copy, Debug, PartialEq, Eq, Structural)]
pub struct InventoryDeductionPolicy {
    pub reserve_on_order_create: bool,
    pub consume_on_payment_success: bool,
    pub release_on_order_cancel: bool,
    pub release_on_reservation_expire: bool,
    pub release_on_refund: bool,
}

/// The required text fields of a stock draft, in the order they are checked.
pub open spec fn stock_required_fields(tenant_id: Seq<char>, sku_id: Seq<char>) -> Seq<(Seq<char>, Seq<char>)> {
    seq![("tenant_id"@, tenant_id), ("sku_id"@, sku_id)]
}

/// The required text fields of a reservation draft, in the order they are checked.
pub open spec fn reservation_required_fields(
    tenant_id: Seq<char>,
    reservation_id: Seq<char>,
    order_id: Seq<char>,
    sku_id: Seq<char>,
    expires_at: Seq<char>,
    idempotency_key: Seq<char>,
) -> Seq<(Seq<char>, Seq<char>)> {
    seq![
        ("tenant_id"@, tenant_id),
        ("reservation_id"@, reservation_id),
        ("order_id"@, order_id),
        ("sku_id"@, sku_id),
        ("expires_at"@, expires_at),
        ("idempotency_key"@, idempotency_key),
    ]
}

/// The required text fields of a movement draft, in the order they are checked.
pub open spec fn movement_required_fields(
    tenant_id: Seq<char>,
    movement_no: Seq<char>,
    sku_id: Seq<char>,
    business_type: Seq<char>,
    source_id: Seq<char>,
) -> Seq<(Seq<char>, Seq<char>)> {
    seq![
        ("tenant_id"@, tenant_id),
        ("movement_no"@, movement_no),
        ("sku_id"@, sku_id),
        ("business_type"@, business_type),
        ("source_id"@, source_id),
    ]
}

/// Some quantity or the version of a stock draft is negative.
pub open spec fn stock_has_negative(available: i64, reserved: i64, sold: i64, version: i64) -> bool {
    available < 0 || reserved < 0 || sold < 0 || version < 0
}

/// The storage name of a reservation status.
pub open spec fn reservation_status_name(s: InventoryReservationStatus) -> Seq<char> {
    match s {
        InventoryReservationStatus::Reserved => "reserved"@,
        InventoryReservationStatus::Consumed => "consumed"@,
        InventoryReservationStatus::Released => "released"@,
        InventoryReservationStatus::Expired => "expired"@,
    }
}

/// The storage name of a movement type.
pub open spec fn movement_type_name(t: InventoryMovementType) -> Seq<char> {
    match t {
        InventoryMovementType::Reserve => "reserve"@,
        InventoryMovementType::Release => "release"@,
        InventoryMovementType::Consume => "consume"@,
        InventoryMovementType::Adjust => "adjust"@,
    }
}

/// A reservation may only leave `Reserved`, and only to a final status.
pub open spec fn is_allowed_transition(from: InventoryReservationStatus, to: InventoryReservationStatus) -> bool {
    from == InventoryReservationStatus::Reserved && to != InventoryReservationStatus::Reserved
}

/// A status from which no transition is allowed.
pub open spec fn is_final_status(s: InventoryReservationStatus) -> bool {
    s != InventoryReservationStatus::Reserved
}

impl InventoryStockDraft {
    /// Quantities and version are not negative and every text is normalised.
    pub open spec fn is_well_formed(&self) -> bool {
        &&& self.available_quantity >= 0
        &&& self.reserved_quantity >= 0
        &&& self.sold_quantity >= 0
        &&& self.version >= 0
        &&& is_normalized_text(self.tenant_id@)
        &&& is_normalized_text(self.sku_id@)
        &&& is_normalized_optional(string_option_view(self.warehouse_id))
    }

    /// A stock draft, rejected when a quantity or the version is negative
    /// (checked first) or when a required text is blank.
    pub fn new(
        tenant_id: &str,
        sku_id: &str,
        warehouse_id: Option<&str>,
        available_quantity: i64,
        reserved_quantity: i64,
        sold_quantity: i64,
        version: i64,
    ) -> (r: Result<Self, CommerceServiceError>)
        ensures
            stock_has_negative(available_quantity, reserved_quantity, sold_quantity, version) ==> (
                r matches Err(e) && is_error(e, CommerceErrorKind::Validation, NEGATIVE_STOCK_MESSAGE@)),
            !stock_has_negative(available_quantity, reserved_quantity, sold_quantity, version) ==> (
                match first_blank(stock_required_fields(tenant_id@, sku_id@)) {
                    Some(name) => r matches Err(e) && is_error(e, CommerceErrorKind::Validation, required_message(name)),
                    None => r is Ok,
                }),
            r is Ok <==> !stock_has_negative(available_quantity, reserved_quantity, sold_quantity, version)
                && !is_blank(tenant_id@) && !is_blank(sku_id@),
            r matches Ok(d) ==> {
                &&& d.tenant_id@ == trimmed(tenant_id@)
                &&& d.sku_id@ == trimmed(sku_id@)
                &&& string_option_view(d.warehouse_id) == normalized_optional(str_option_view(warehouse_id))
                &&& d.available_quantity == available_quantity
                &&& d.reserved_quantity == reserved_quantity
                &&& d.sold_quantity == sold_quantity
                &&& d.version == version
                &&& d.is_well_formed()
            },
    {
        if available_quantity < 0 || reserved_quantity < 0 || sold_quantity < 0 || version < 0 {
            return Err(CommerceServiceError::validation(NEGATIVE_STOCK_MESSAGE));
        }
        proof {
            reveal_with_fuel(first_blank, 3);
        }
        let ghost fields = stock_required_fields(tenant_id@, sku_id@);
        assert(fields.drop_first() =~= seq![("sku_id"@, sku_id@)]);
        let tenant = match required_text("tenant_id", tenant_id) {
            Ok(s) => s,
            Err(e) => return Err(e),
        };
        let sku = match required_text("sku_id", sku_id) {
            Ok(s) => s,
            Err(e) => return Err(e),
        };
        let warehouse = optional_text(warehouse_id);
        proof {
            lemma_trimmed_normalized(tenant_id@);
            lemma_trimmed_normalized(sku_id@);
            lemma_normalized_optional_fixed(str_option_view(warehouse_id));
        }
        Ok(InventoryStockDraft {
            tenant_id: tenant,
            sku_id: sku,
            warehouse_id: warehouse,
            available_quantity,
            reserved_quantity,
            sold_quantity,
            version,
        })
    }
}

impl InventoryReservationStatus {
    /// The name under which the status is stored.
    pub fn as_storage_str(&self) -> (r: &'static str)
        ensures
            r@ == reservation_status_name(*self),
    {
        match self {
            InventoryReservationStatus::Reserved => "reserved",
            InventoryReservationStatus::Consumed => "consumed",
            InventoryReservationStatus::Released => "released",
            InventoryReservationStatus::Expired => "expired",
        }
    }
}

impl InventoryReservationTransition {
    pub closed spec fn source(&self) -> InventoryReservationStatus {
        self.from
    }

    pub closed spec fn target(&self) -> InventoryReservationStatus {
        self.to
    }

    pub fn new(from: InventoryReservationStatus, to: InventoryReservationStatus) -> (t: Self)
        ensures
            t.source() == from,
            t.target() == to,
    {
        InventoryReservationTransition { from, to }
    }

    /// Accepts exactly the moves from `Reserved` to `Consumed`, `Released`
    /// or `Expired`; any other move is an invalid-state error.
    pub fn validate(&self) -> (r: Result<(), CommerceServiceError>)
        ensures
            r is Ok <==> is_allowed_transition(self.source(), self.target()),
            r is Ok <==> self.source() == InventoryReservationStatus::Reserved && (self.target()
                == InventoryReservationStatus::Consumed || self.target() == InventoryReservationStatus::Released
                || self.target() == InventoryReservationStatus::Expired),
            r matches Err(e) ==> is_error(e, CommerceErrorKind::InvalidState, INVALID_TRANSITION_MESSAGE@),
    {
        match (&self.from, &self.to) {
            (InventoryReservationStatus::Reserved, InventoryReservationStatus::Consumed)
            | (InventoryReservationStatus::Reserved, InventoryReservationStatus::Released)
            | (InventoryReservationStatus::Reserved, InventoryReservationStatus::Expired) => Ok(()),
            _ => Err(CommerceServiceError::invalid_state(INVALID_TRANSITION_MESSAGE)),
        }
    }
}

/// The moves a reservation may make are exactly those from `Reserved` to
/// `Consumed`, `Released` or `Expired`.
pub proof fn lemma_allowed_transitions(from: InventoryReservationStatus, to: InventoryReservationStatus)
    ensures
        is_allowed_transition(from, to) <==> from == InventoryReservationStatus::Reserved && (to
            == InventoryReservationStatus::Consumed || to == InventoryReservationStatus::Released || to
            == InventoryReservationStatus::Expired),
{
}

/// A reservation that has reached a final status never moves again, and a
/// reservation never moves to the status it already has.
pub proof fn lemma_final_status_is_absorbing(from: InventoryReservationStatus, to: InventoryReservationStatus)
    ensures
        is_final_status(from) ==> !is_allowed_transition(from, to),
        !is_allowed_transition(from, from),
        is_allowed_transition(from, to) ==> is_final_status(to),
{
}

impl InventoryReservationDraft {
    /// The quantity is positive, the status is a reservation status, and
    /// every text is normalised.
    pub open spec fn is_well_formed(&self) -> bool {
        &&& self.quantity > 0
        &&& is_normalized_text(self.tenant_id@)
        &&& is_normalized_text(self.reservation_id@)
        &&& is_normalized_text(self.order_id@)
        &&& is_normalized_text(self.sku_id@)
        &&& is_normalized_optional(string_option_view(self.warehouse_id))
        &&& is_normalized_text(self.expires_at@)
        &&& is_normalized_text(self.idempotency_key@)
    }

    /// A new reservation, in status `Reserved`; rejected when the quantity
    /// is not positive (checked first) or when a required text is blank.
    pub fn new(
        tenant_id: &str,
        reservation_id: &str,
        order_id: &str,
        sku_id: &str,
        warehouse_id: Option<&str>,
        quantity: i64,
        expires_at: &str,
        idempotency_key: &str,
    ) -> (r: Result<Self, CommerceServiceError>)
        ensures
            quantity <= 0 ==> (r matches Err(e) && is_error(
                e,
                CommerceErrorKind::Validation,
                RESERVATION_QUANTITY_MESSAGE@,
            )),
            quantity > 0 ==> (match first_blank(
                reservation_required_fields(
                    tenant_id@,
                    reservation_id@,
                    order_id@,
                    sku_id@,
                    expires_at@,
                    idempotency_key@,
                ),
            ) {
                Some(name) => r matches Err(e) && is_error(e, CommerceErrorKind::Validation, required_message(name)),
                None => r is Ok,
            }),
            r is Ok <==> quantity > 0 && !is_blank(tenant_id@) && !is_blank(reservation_id@) && !is_blank(order_id@)
                && !is_blank(sku_id@) && !is_blank(expires_at@) && !is_blank(idempotency_key@),
            r matches Ok(d) ==> {
                &&& d.tenant_id@ == trimmed(tenant_id@)
                &&& d.reservation_id@ == trimmed(reservation_id@)
                &&& d.order_id@ == trimmed(order_id@)
                &&& d.sku_id@ == trimmed(sku_id@)
                &&& string_option_view(d.warehouse_id) == normalized_optional(str_option_view(warehouse_id))
                &&& d.quantity == quantity
                &&& d.expires_at@ == trimmed(expires_at@)
                &&& d.idempotency_key@ == trimmed(idempotency_key@)
                &&& d.status == InventoryReservationStatus::Reserved
                &&& d.is_well_formed()
            },
    {
        if quantity <= 0 {
            return Err(CommerceServiceError::validation(RESERVATION_QUANTITY_MESSAGE));
        }
        proof {
            reveal_with_fuel(first_blank, 7);
        }
        let ghost f = reservation_required_fields(
            tenant_id@,
            reservation_id@,
            order_id@,
            sku_id@,
            expires_at@,
            idempotency_key@,
        );
        assert(f.drop_first() =~= f.subrange(1, 6));
        assert(f.subrange(1, 6).drop_first() =~= f.subrange(2, 6));
        assert(f.subrange(2, 6).drop_first() =~= f.subrange(3, 6));
        assert(f.subrange(3, 6).drop_first() =~= f.subrange(4, 6));
        assert(f.subrange(4, 6).drop_first() =~= f.subrange(5, 6));
        assert(f.subrange(5, 6).drop_first() =~= f.subrange(6, 6));
        let tenant = match required_text("tenant_id", tenant_id) {
            Ok(s) => s,
            Err(e) => return Err(e),
        };
        let reservation = match required_text("reservation_id", reservation_id) {
            Ok(s) => s,
            Err(e) => return Err(e),
        };
        let order = match required_text("order_id", order_id) {
            Ok(s) => s,
            Err(e) => return Err(e),
        };
        let sku = match required_text("sku_id", sku_id) {
            Ok(s) => s,
            Err(e) => return Err(e),
        };
        let warehouse = optional_text(warehouse_id);
        let expires = match required_text("expires_at", expires_at) {
            Ok(s) => s,
            Err(e) => return Err(e),
        };
        let idempotency = match required_text("idempotency_key", idempotency_key) {
            Ok(s) => s,
            Err(e) => return Err(e),
        };
        proof {
            lemma_trimmed_normalized(tenant_id@);
            lemma_trimmed_normalized(reservation_id@);
            lemma_trimmed_normalized(order_id@);
            lemma_trimmed_normalized(sku_id@);
            lemma_trimmed_normalized(expires_at@);
            lemma_trimmed_normalized(idempotency_key@);
            lemma_normalized_optional_fixed(str_option_view(warehouse_id));
        }
        Ok(InventoryReservationDraft {
            tenant_id: tenant,
            reservation_id: reservation,
            order_id: order,
            sku_id: sku,
            warehouse_id: warehouse,
            quantity,
            expires_at: expires,
            idempotency_key: idempotency,
            status: InventoryReservationStatus::Reserved,
        })
    }
}

impl InventoryMovementType {
    /// The name under which the movement type is stored.
    pub fn as_storage_str(&self) -> (r: &'static str)
        ensures
            r@ == movement_type_name(*self),
    {
        match self {
            InventoryMovementType::Reserve => "reserve",
            InventoryMovementType::Release => "release",
            InventoryMovementType::Consume => "consume",
            InventoryMovementType::Adjust => "adjust",
        }
    }
}

impl InventoryMovementDraft {
    /// The quantity is positive and every text is normalised.
    pub open spec fn is_well_formed(&self) -> bool {
        &&& self.quantity > 0
        &&& is_normalized_text(self.tenant_id@)
        &&& is_normalized_text(self.movement_no@)
        &&& is_normalized_text(self.sku_id@)
        &&& is_normalized_optional(string_option_view(self.warehouse_id))
        &&& is_normalized_text(self.business_type@)
        &&& is_normalized_text(self.source_id@)
    }

    /// A ledger entry; rejected when the quantity is not positive (checked
    /// first) or when a required text is blank.
    pub fn new(
        tenant_id: &str,
        movement_no: &str,
        sku_id: &str,
        warehouse_id: Option<&str>,
        movement_type: InventoryMovementType,
        quantity: i64,
        business_type: &str,
        source_id: &str,
    ) -> (r: Result<Self, CommerceServiceError>)
        ensures
            quantity <= 0 ==> (r matches Err(e) && is_error(
                e,
                CommerceErrorKind::Validation,
                MOVEMENT_QUANTITY_MESSAGE@,
            )),
            quantity > 0 ==> (match first_blank(
                movement_required_fields(tenant_id@, movement_no@, sku_id@, business_type@, source_id@),
            ) {
                Some(name) => r matches Err(e) && is_error(e, CommerceErrorKind::Validation, required_message(name)),
                None => r is Ok,
            }),
            r is Ok <==> quantity > 0 && !is_blank(tenant_id@) && !is_blank(movement_no@) && !is_blank(sku_id@)
                && !is_blank(business_type@) && !is_blank(source_id@),
            r matches Ok(d) ==> {
                &&& d.tenant_id@ == trimmed(tenant_id@)
                &&& d.movement_no@ == trimmed(movement_no@)
                &&& d.sku_id@ == trimmed(sku_id@)
                &&& string_option_view(d.warehouse_id) == normalized_optional(str_option_view(warehouse_id))
                &&& d.movement_type == movement_type
                &&& d.quantity == quantity
                &&& d.business_type@ == trimmed(business_type@)
                &&& d.source_id@ == trimmed(source_id@)
                &&& d.is_well_formed()
            },
    {
        if quantity <= 0 {
            return Err(CommerceServiceError::validation(MOVEMENT_QUANTITY_MESSAGE));
        }
        proof {
            reveal_with_fuel(first_blank, 6);
        }
        let ghost f = movement_required_fields(tenant_id@, movement_no@, sku_id@, business_type@, source_id@);
        assert(f.drop_first() =~= f.subrange(1, 5));
        assert(f.subrange(1, 5).drop_first() =~= f.subrange(2, 5));
        assert(f.subrange(2, 5).drop_first() =~= f.subrange(3, 5));
        assert(f.subrange(3, 5).drop_first() =~= f.subrange(4, 5));
        assert(f.subrange(4, 5).drop_first() =~= f.subrange(5, 5));
        let tenant = match required_text("tenant_id", tenant_id) {
            Ok(s) => s,
            Err(e) => return Err(e),
        };
        let movement = match required_text("movement_no", movement_no) {
            Ok(s) => s,
            Err(e) => return Err(e),
        };
        let sku = match required_text("sku_id", sku_id) {
            Ok(s) => s,
            Err(e) => return Err(e),
        };
        let warehouse = optional_text(warehouse_id);
        let business = match required_text("business_type", business_type) {
            Ok(s) => s,
            Err(e) => return Err(e),
        };
        let source = match required_text("source_id", source_id) {
            Ok(s) => s,
            Err(e) => return Err(e),
        };
        proof {
            lemma_trimmed_normalized(tenant_id@);
            lemma_trimmed_normalized(movement_no@);
            lemma_trimmed_normalized(sku_id@);
            lemma_trimmed_normalized(business_type@);
            lemma_trimmed_normalized(source_id@);
            lemma_normalized_optional_fixed(str_option_view(warehouse_id));
        }
        Ok(InventoryMovementDraft {
            tenant_id: tenant,
            movement_no: movement,
            sku_id: sku,
            warehouse_id: warehouse,
            movement_type,
            quantity,
            business_type: business,
            source_id: source,
        })
    }
}

impl InventoryDeductionPolicy {
    /// Reserve when the order is created, consume on payment, release on
    /// cancellation and on expiry, keep the stock deducted on refund.
    pub fn reserve_on_order_and_consume_on_payment() -> (p: Self)
        ensures
            p.reserve_on_order_create,
            p.consume_on_payment_success,
            p.release_on_order_cancel,
            p.release_on_reservation_expire,
            !p.release_on_refund,
    {
        InventoryDeductionPolicy {
            reserve_on_order_create: true,
            consume_on_payment_success: true,
            release_on_order_cancel: true,
            release_on_reservation_expire: true,
            release_on_refund: false,
        }
    }
}

/// Building a stock draft again from a well-formed draft's own fields is
/// accepted and gives the same fields back: validation and normalisation
/// leave what they produced unchanged.
pub proof fn lemma_stock_draft_rebuilds_unchanged(d: InventoryStockDraft)
    requires
        d.is_well_formed(),
    ensures
        !stock_has_negative(d.available_quantity, d.reserved_quantity, d.sold_quantity, d.version),
        first_blank(stock_required_fields(d.tenant_id@, d.sku_id@)) is None,
        trimmed(d.tenant_id@) == d.tenant_id@,
        trimmed(d.sku_id@) == d.sku_id@,
        normalized_optional(string_option_view(d.warehouse_id)) == string_option_view(d.warehouse_id),
{
    let f = stock_required_fields(d.tenant_id@, d.sku_id@);
    crate::text::lemma_first_blank_names_a_blank_field(f);
    assert(f[0].1 == d.tenant_id@);
    assert(f[1].1 == d.sku_id@);
}

/// Building a reservation again from a well-formed reservation's own fields
/// is accepted and gives the same fields back.
pub proof fn lemma_reservation_draft_rebuilds_unchanged(d: InventoryReservationDraft)
    requires
        d.is_well_formed(),
    ensures
        d.quantity > 0,
        first_blank(
            reservation_required_fields(
                d.tenant_id@,
                d.reservation_id@,
                d.order_id@,
                d.sku_id@,
                d.expires_at@,
                d.idempotency_key@,
            ),
        ) is None,
        trimmed(d.tenant_id@) == d.tenant_id@,
        trimmed(d.reservation_id@) == d.reservation_id@,
        trimmed(d.order_id@) == d.order_id@,
        trimmed(d.sku_id@) == d.sku_id@,
        trimmed(d.expires_at@) == d.expires_at@,
        trimmed(d.idempotency_key@) == d.idempotency_key@,
        normalized_optional(string_option_view(d.warehouse_id)) == string_option_view(d.warehouse_id),
{
    let f = reservation_required_fields(
        d.tenant_id@,
        d.reservation_id@,
        d.order_id@,
        d.sku_id@,
        d.expires_at@,
        d.idempotency_key@,
    );
    crate::text::lemma_first_blank_names_a_blank_field(f);
    assert(f[0].1 == d.tenant_id@);
    assert(f[1].1 == d.reservation_id@);
    assert(f[2].1 == d.order_id@);
    assert(f[3].1 == d.sku_id@);
    assert(f[4].1 == d.expires_at@);
    assert(f[5].1 == d.idempotency_key@);
}

} // verus!
