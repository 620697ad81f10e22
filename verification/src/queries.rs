//! Queries accepted by the inventory service.
use vstd::prelude::*;
use crate::error::{CommerceErrorKind, CommerceServiceError, is_error};
use crate::text::{
    first_blank, is_blank, is_normalized_optional, is_normalized_text, lemma_normalized_optional_fixed,
    lemma_trimmed_normalized, normalized_optional, optional_text, required_message, required_text,
    str_option_view, string_option_view, trimmed,
};

verus! {

/// The stock of one SKU of a tenant, optionally in one warehouse.
#[derive(Clone, Debug, Eq, PartialEq)]
pub struct InventoryStockQuery {
    pub sku_id: String,
    pub tenant_id: String,
    pub warehouse_id: Option<String>,
}

/// The reservations of a tenant, optionally of one order and of one SKU.
#[derive(Clone, Debug, Eq, PartialEq)]
pub struct InventoryReservationListQuery {
    pub order_id: Option<String>,
    pub sku_id: Option<String>,
    pub tenant_id: String,
}

impl InventoryStockQuery {
    pub open spec fn is_well_formed(&self) -> bool {
        &&& is_normalized_text(self.sku_id@)
        &&& is_normalized_text(self.tenant_id@)
        &&& is_normalized_optional(string_option_view(self.warehouse_id))
    }

    /// A stock query; rejected when the SKU (checked first) or the tenant is blank.
    pub fn new(tenant_id: &str, sku_id: &str, warehouse_id: Option<&str>) -> (r: Result<Self, CommerceServiceError>)
        ensures
            match first_blank(seq![("sku_id"@, sku_id@), ("tenant_id"@, tenant_id@)]) {
                Some(name) => r matches Err(e) && is_error(e, CommerceErrorKind::Validation, required_message(name)),
                None => r is Ok,
            },
            r is Ok <==> !is_blank(sku_id@) && !is_blank(tenant_id@),
            r matches Ok(q) ==> {
                &&& q.sku_id@ == trimmed(sku_id@)
                &&& q.tenant_id@ == trimmed(tenant_id@)
                &&& string_option_view(q.warehouse_id) == normalized_optional(str_option_view(warehouse_id))
                &&& q.is_well_formed()
            },
    {
        proof {
            reveal_with_fuel(first_blank, 3);
        }
        let ghost f = seq![("sku_id"@, sku_id@), ("tenant_id"@, tenant_id@)];
        assert(f.drop_first() =~= seq![("tenant_id"@, tenant_id@)]);
        let sku = match required_text("sku_id", sku_id) {
            Ok(s) => s,
            Err(e) => return Err(e),
        };
        let tenant = match required_text("tenant_id", tenant_id) {
            Ok(s) => s,
            Err(e) => return Err(e),
        };
        let warehouse = optional_text(warehouse_id);
        proof {
            lemma_trimmed_normalized(sku_id@);
            lemma_trimmed_normalized(tenant_id@);
            lemma_normalized_optional_fixed(str_option_view(warehouse_id));
        }
        Ok(InventoryStockQuery { sku_id: sku, tenant_id: tenant, warehouse_id: warehouse })
    }
}

impl InventoryReservationListQuery {
    pub open spec fn is_well_formed(&self) -> bool {
        &&& is_normalized_optional(string_option_view(self.order_id))
        &&& is_normalized_optional(string_option_view(self.sku_id))
        &&& is_normalized_text(self.tenant_id@)
    }

    /// A reservation listing; rejected only when the tenant is blank, blank
    /// filters counting as absent.
    pub fn new(tenant_id: &str, order_id: Option<&str>, sku_id: Option<&str>) -> (r: Result<Self, CommerceServiceError>)
        ensures
            is_blank(tenant_id@) <==> r is Err,
            r matches Err(e) ==> is_error(e, CommerceErrorKind::Validation, required_message("tenant_id"@)),
            r matches Ok(q) ==> {
                &&& string_option_view(q.order_id) == normalized_optional(str_option_view(order_id))
                &&& string_option_view(q.sku_id) == normalized_optional(str_option_view(sku_id))
                &&& q.tenant_id@ == trimmed(tenant_id@)
                &&& q.is_well_formed()
            },
    {
        let order = optional_text(order_id);
        let sku = optional_text(sku_id);
        let tenant = match required_text("tenant_id", tenant_id) {
            Ok(s) => s,
            Err(e) => return Err(e),
        };
        proof {
            lemma_trimmed_normalized(tenant_id@);
            lemma_normalized_optional_fixed(str_option_view(order_id));
            lemma_normalized_optional_fixed(str_option_view(sku_id));
        }
        Ok(InventoryReservationListQuery { order_id: order, sku_id: sku, tenant_id: tenant })
    }
}

} // verus!
