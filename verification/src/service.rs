//! What the inventory service declares of itself to the platform.
use vstd::prelude::*;
use crate::http::{is_backend_route_table, HttpMethod, HttpRoute};
use crate::error::{CommerceErrorKind, CommerceServiceError, is_error};
use crate::ports::{IDEMPOTENCY_REPOSITORY_PORT, INVENTORY_REPOSITORY_PORT};
use crate::text::{is_blank, is_blank_str, missing_field_error, required_message};

verus! {

/// The declaration of a commerce service: its domain and name, the write
/// commands and read queries it serves, the repository ports it needs, and
/// whether its writes are idempotent.
#[derive(Clone, Debug, PartialEq, Eq)]
pub struct CommerceServiceContract {
    pub domain: &'static str,
    pub service_name: &'static str,
    pub write_commands: Vec<&'static str>,
    pub read_queries: Vec<&'static str>,
    pub required_ports: Vec<&'static str>,
    pub idempotent_writes: bool,
}

pub open spec fn views(items: Seq<&'static str>) -> Seq<Seq<char>> {
    items.map_values(|s: &'static str| s@)
}

/// The write commands of the inventory service.
pub open spec fn inventory_write_commands() -> Seq<Seq<char>> {
    seq!["inventory.stocks.update"@, "shops.current.inventory.stocks.adjustments.create"@]
}

/// The read queries of the inventory service.
pub open spec fn inventory_read_queries() -> Seq<Seq<char>> {
    seq![
        "inventory.stocks.list"@,
        "inventory.reservations.list"@,
        "inventory.movements.list"@,
        "shops.current.inventory.stocks.list"@,
    ]
}

/// The declaration of the inventory service.
pub fn inventory_service_contract() -> (c: CommerceServiceContract)
    ensures
        c.domain@ == "inventory"@,
        c.service_name@ == "commerce.inventory"@,
        views(c.write_commands@) == inventory_write_commands(),
        views(c.read_queries@) == inventory_read_queries(),
        views(c.required_ports@) == seq![INVENTORY_REPOSITORY_PORT@, IDEMPOTENCY_REPOSITORY_PORT@],
        c.idempotent_writes,
{
    let mut write_commands: Vec<&'static str> = Vec::new();
    write_commands.push("inventory.stocks.update");
    write_commands.push("shops.current.inventory.stocks.adjustments.create");
    let mut read_queries: Vec<&'static str> = Vec::new();
    read_queries.push("inventory.stocks.list");
    read_queries.push("inventory.reservations.list");
    read_queries.push("inventory.movements.list");
    read_queries.push("shops.current.inventory.stocks.list");
    let mut required_ports: Vec<&'static str> = Vec::new();
    required_ports.push(INVENTORY_REPOSITORY_PORT);
    required_ports.push(IDEMPOTENCY_REPOSITORY_PORT);
    assert(views(write_commands@) =~= inventory_write_commands());
    assert(views(read_queries@) =~= inventory_read_queries());
    assert(views(required_ports@) =~= seq![INVENTORY_REPOSITORY_PORT@, IDEMPOTENCY_REPOSITORY_PORT@]);
    CommerceServiceContract {
        domain: "inventory",
        service_name: "commerce.inventory",
        write_commands,
        read_queries,
        required_ports,
        idempotent_writes: true,
    }
}

/// Every operation of the administrator surface is declared by the service:
/// its reads among the read queries, its writes among the write commands.
pub proof fn lemma_backend_operations_are_declared(routes: Seq<HttpRoute>, i: int)
    requires
        is_backend_route_table(routes),
        0 <= i < routes.len(),
    ensures
        routes[i].method == HttpMethod::Get ==> inventory_read_queries().contains(routes[i].operation@),
        routes[i].method != HttpMethod::Get ==> inventory_write_commands().contains(routes[i].operation@),
{
    let reads = inventory_read_queries();
    let writes = inventory_write_commands();
    if i == 0 {
        assert(reads[0] == routes[i].operation@);
    } else if i == 1 {
        assert(writes[0] == routes[i].operation@);
    } else if i == 2 {
        assert(reads[1] == routes[i].operation@);
    } else {
        assert(reads[2] == routes[i].operation@);
    }
}

/// Every name in `items` holds more than white space.
pub open spec fn all_named(items: Seq<&'static str>) -> bool {
    forall|i: int| 0 <= i < items.len() ==> !is_blank(#[trigger] items[i]@)
}

/// Whether every name in `items` holds more than white space.
fn every_name_present(items: &Vec<&'static str>) -> (r: bool)
    ensures
        r == all_named(items@),
{
    let mut i: usize = 0;
    while i < items.len()
        invariant
            i <= items.len(),
            forall|j: int| 0 <= j < i ==> !is_blank(#[trigger] items@[j]@),
        decreases items.len() - i,
    {
        if is_blank_str(items[i]) {
            return false;
        }
        i = i + 1;
    }
    true
}

impl CommerceServiceContract {
    /// Accepts a declaration whose domain, service name, commands, queries
    /// and ports are all named; otherwise a validation error for the first
    /// part that is not, in that order.
    pub fn validate(&self) -> (r: Result<(), CommerceServiceError>)
        ensures
            r is Ok <==> {
                &&& !is_blank(self.domain@)
                &&& !is_blank(self.service_name@)
                &&& all_named(self.write_commands@)
                &&& all_named(self.read_queries@)
                &&& all_named(self.required_ports@)
            },
            r matches Err(e) ==> is_error(
                e,
                CommerceErrorKind::Validation,
                required_message(
                    if is_blank(self.domain@) {
                        "domain"@
                    } else if is_blank(self.service_name@) {
                        "service_name"@
                    } else if !all_named(self.write_commands@) {
                        "write_commands"@
                    } else if !all_named(self.read_queries@) {
                        "read_queries"@
                    } else {
                        "required_ports"@
                    },
                ),
            ),
    {
        if is_blank_str(self.domain) {
            return Err(missing_field_error("domain"));
        }
        if is_blank_str(self.service_name) {
            return Err(missing_field_error("service_name"));
        }
        if !every_name_present(&self.write_commands) {
            return Err(missing_field_error("write_commands"));
        }
        if !every_name_present(&self.read_queries) {
            return Err(missing_field_error("read_queries"));
        }
        if !every_name_present(&self.required_ports) {
            return Err(missing_field_error("required_ports"));
        }
        Ok(())
    }
}

} // verus!
