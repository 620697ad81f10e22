//! What the inventory service needs from its repositories.
use vstd::prelude::*;
use crate::domain::{InventoryMovementDraft, InventoryReservationDraft, InventoryStockDraft};
use crate::error::CommerceServiceError;
use crate::queries::{InventoryReservationListQuery, InventoryStockQuery};

verus! {

/// A write that an inventory repository must support.
#[derive(Clone, Copy, Debug, Eq, PartialEq, Structural)]
pub enum InventoryRepositoryCommand {
    UpsertStock,
    CreateReservation,
    ConsumeReservation,
    ReleaseReservation,
    AppendMovement,
    AdjustStock,
}

/// The requirements that the service places on a repository.
pub struct InventoryPortRequirement;

/// The repository the inventory service works against; its implementations
/// live with the storage adapters.
pub trait InventoryRepositoryPort {
    fn retrieve_stock(&self, query: &InventoryStockQuery) -> Result<Option<InventoryStockDraft>, CommerceServiceError>;

    fn upsert_stock(&self, draft: &InventoryStockDraft) -> Result<(), CommerceServiceError>;

    fn create_reservation(&self, draft: &InventoryReservationDraft) -> Result<(), CommerceServiceError>;

    fn list_reservations(
        &self,
        query: &InventoryReservationListQuery,
    ) -> Result<Vec<InventoryReservationDraft>, CommerceServiceError>;

    fn append_movement(&self, draft: &InventoryMovementDraft) -> Result<(), CommerceServiceError>;
}

pub const INVENTORY_REPOSITORY_PORT: &'static str = "inventory.repository";

pub const IDEMPOTENCY_REPOSITORY_PORT: &'static str = "idempotency.repository";

/// Every repository write, in the order a repository is expected to list them.
pub open spec fn standard_command_list() -> Seq<InventoryRepositoryCommand> {
    seq![
        InventoryRepositoryCommand::UpsertStock,
        InventoryRepositoryCommand::CreateReservation,
        InventoryRepositoryCommand::ConsumeReservation,
        InventoryRepositoryCommand::ReleaseReservation,
        InventoryRepositoryCommand::AppendMovement,
        InventoryRepositoryCommand::AdjustStock,
    ]
}

impl InventoryPortRequirement {
    /// The writes every inventory repository must support.
    pub fn standard_commands() -> (r: Vec<InventoryRepositoryCommand>)
        ensures
            r@ == standard_command_list(),
    {
        let mut r: Vec<InventoryRepositoryCommand> = Vec::new();
        r.push(InventoryRepositoryCommand::UpsertStock);
        r.push(InventoryRepositoryCommand::CreateReservation);
        r.push(InventoryRepositoryCommand::ConsumeReservation);
        r.push(InventoryRepositoryCommand::ReleaseReservation);
        r.push(InventoryRepositoryCommand::AppendMovement);
        r.push(InventoryRepositoryCommand::AdjustStock);
        r
    }
}

/// Each repository write is required exactly once.
pub proof fn lemma_standard_commands_cover_each_write_once(c: InventoryRepositoryCommand)
    ensures
        standard_command_list().contains(c),
        standard_command_list().no_duplicates(),
{
    let s = standard_command_list();
    match c {
        InventoryRepositoryCommand::UpsertStock => assert(s[0] == c),
        InventoryRepositoryCommand::CreateReservation => assert(s[1] == c),
        InventoryRepositoryCommand::ConsumeReservation => assert(s[2] == c),
        InventoryRepositoryCommand::ReleaseReservation => assert(s[3] == c),
        InventoryRepositoryCommand::AppendMovement => assert(s[4] == c),
        InventoryRepositoryCommand::AdjustStock => assert(s[5] == c),
    }
}

} // verus!
