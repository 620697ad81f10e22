//! Commands accepted by the inventory service.
use vstd::prelude::*;
use crate::domain::RESERVATION_QUANTITY_MESSAGE;
use crate::error::{CommerceErrorKind, CommerceServiceError, is_error};
use crate::text::{first_blank, is_blank, is_normalized_text, lemma_trimmed_normalized, required_message, required_text, trimmed};

verus! {

/// A request to reserve stock of a SKU for an order.
#[derive(Clone, Debug, Eq, PartialEq)]
pub struct CreateInventoryReservationCommand {
    pub idempotency_key: String,
    pub order_id: String,
    pub quantity: i64,
    pub request_no: String,
    pub sku_id: String,
    pub tenant_id: String,
}

/// The required text fields of the command, in the order they are checked.
pub open spec fn reservation_command_fields(
    idempotency_key: Seq<char>,
    order_id: Seq<char>,
    request_no: Seq<char>,
    sku_id: Seq<char>,
    tenant_id: Seq<char>,
) -> Seq<(Seq<char>, Seq<char>)> {
    seq![
        ("idempotency_key"@, idempotency_key),
        ("order_id"@, order_id),
        ("request_no"@, request_no),
        ("sku_id"@, sku_id),
        ("tenant_id"@, tenant_id),
    ]
}

impl CreateInventoryReservationCommand {
    /// The quantity is positive and every text is normalised.
    pub open spec fn is_well_formed(&self) -> bool {
        &&& self.quantity > 0
        &&& is_normalized_text(self.idempotency_key@)
        &&& is_normalized_text(self.order_id@)
        &&& is_normalized_text(self.request_no@)
        &&& is_normalized_text(self.sku_id@)
        &&& is_normalized_text(self.tenant_id@)
    }

    /// A reservation command; rejected when the quantity is not positive
    /// (checked first) or when a text is blank, the idempotency key being
    /// checked first and the tenant last.
    pub fn new(
        tenant_id: &str,
        order_id: &str,
        sku_id: &str,
        quantity: i64,
        request_no: &str,
        idempotency_key: &str,
    ) -> (r: Result<Self, CommerceServiceError>)
        ensures
            quantity <= 0 ==> (r matches Err(e) && is_error(
                e,
                CommerceErrorKind::Validation,
                RESERVATION_QUANTITY_MESSAGE@,
            )),
            quantity > 0 ==> (match first_blank(
                reservation_command_fields(idempotency_key@, order_id@, request_no@, sku_id@, tenant_id@),
            ) {
                Some(name) => r matches Err(e) && is_error(e, CommerceErrorKind::Validation, required_message(name)),
                None => r is Ok,
            }),
            r is Ok <==> quantity > 0 && !is_blank(idempotency_key@) && !is_blank(order_id@) && !is_blank(request_no@)
                && !is_blank(sku_id@) && !is_blank(tenant_id@),
            r matches Ok(c) ==> {
                &&& c.idempotency_key@ == trimmed(idempotency_key@)
                &&& c.order_id@ == trimmed(order_id@)
                &&& c.quantity == quantity
                &&& c.request_no@ == trimmed(request_no@)
                &&& c.sku_id@ == trimmed(sku_id@)
                &&& c.tenant_id@ == trimmed(tenant_id@)
                &&& c.is_well_formed()
            },
    {
        if quantity <= 0 {
            return Err(CommerceServiceError::validation(RESERVATION_QUANTITY_MESSAGE));
        }
        proof {
            reveal_with_fuel(first_blank, 6);
        }
        let ghost f = reservation_command_fields(idempotency_key@, order_id@, request_no@, sku_id@, tenant_id@);
        assert(f.drop_first() =~= f.subrange(1, 5));
        assert(f.subrange(1, 5).drop_first() =~= f.subrange(2, 5));
        assert(f.subrange(2, 5).drop_first() =~= f.subrange(3, 5));
        assert(f.subrange(3, 5).drop_first() =~= f.subrange(4, 5));
        assert(f.subrange(4, 5).drop_first() =~= f.subrange(5, 5));
        let idempotency = match required_text("idempotency_key", idempotency_key) {
            Ok(s) => s,
            Err(e) => return Err(e),
        };
        let order = match required_text("order_id", order_id) {
            Ok(s) => s,
            Err(e) => return Err(e),
        };
        let request = match required_text("request_no", request_no) {
            Ok(s) => s,
            Err(e) => return Err(e),
        };
        let sku = match required_text("sku_id", sku_id) {
            Ok(s) => s,
            Err(e) => return Err(e),
        };
        let tenant = match required_text("tenant_id", tenant_id) {
            Ok(s) => s,
            Err(e) => return Err(e),
        };
        proof {
            lemma_trimmed_normalized(idempotency_key@);
            lemma_trimmed_normalized(order_id@);
            lemma_trimmed_normalized(request_no@);
            lemma_trimmed_normalized(sku_id@);
            lemma_trimmed_normalized(tenant_id@);
        }
        Ok(CreateInventoryReservationCommand {
            idempotency_key: idempotency,
            order_id: order,
            quantity,
            request_no: request,
            sku_id: sku,
            tenant_id: tenant,
        })
    }
}

} // verus!
