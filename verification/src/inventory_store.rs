//! Inventory revisions as they are stored.

use vstd::prelude::*;
use crate::clock::Timestamp;
use crate::errors::{EndpointUpdateError, RepositoryError};
use crate::event_rows::{self, event_row, EventRow};
use crate::ids::{EndpointId, InventoryRevisionId};
use crate::json::{self, as_object, object_value};
use crate::model::DomainEvent;

verus! {

/// What an endpoint reported about its hardware at some time.
#[derive(Debug)]
pub struct InventoryRevision {
    pub id: InventoryRevisionId,
    pub endpoint_id: EndpointId,
    pub snapshot: serde_json::Map<String, serde_json::Value>,
    pub recorded_at: Timestamp,
}

/// A revision as it is stored.
#[derive(Debug)]
pub struct InventoryRow {
    pub endpoint_id: u128,
    pub revision_id: u128,
    pub inventory: serde_json::Value,
    pub recorded_at: Timestamp,
}

/// `revision` is the one in `row`.
pub open spec fn holds_revision(row: InventoryRow, revision: InventoryRevision) -> bool {
    &&& revision.id.0 == row.revision_id
    &&& revision.endpoint_id.0 == row.endpoint_id
    &&& json::json_value_members(row.inventory) == Some(json::json_members(revision.snapshot))
    &&& revision.recorded_at == row.recorded_at
}

/// Reads a revision. What is not an object is no inventory.
pub fn row_to_revision(row: InventoryRow) -> (r: Result<InventoryRevision, EndpointUpdateError>)
    ensures
        match r {
            Ok(revision) => holds_revision(row, revision),
            Err(error) => {
                &&& json::json_value_members(row.inventory) is None
                &&& error matches EndpointUpdateError::Repository(fault)
                &&& fault.text() == "persisted inventory revision is not a JSON object"@
            },
        },
{
    match as_object(&row.inventory) {
        Some(snapshot) => Ok(
            InventoryRevision {
                id: InventoryRevisionId(row.revision_id),
                endpoint_id: EndpointId(row.endpoint_id),
                snapshot,
                recorded_at: row.recorded_at,
            },
        ),
        None => Err(
            EndpointUpdateError::Repository(
                RepositoryError::backend("persisted inventory revision is not a JSON object"),
            ),
        ),
    }
}

/// Reads the endpoint's current revision: of an endpoint that exists, and where
/// it has one.
pub fn find_current_inventory(
    endpoint_id: EndpointId,
    endpoint_exists: bool,
    found: Option<InventoryRow>,
) -> (r: Result<Option<InventoryRevision>, EndpointUpdateError>)
    ensures
        if !endpoint_exists {
            r == Err::<Option<InventoryRevision>, EndpointUpdateError>(
                EndpointUpdateError::NotFound(endpoint_id),
            )
        } else {
            match found {
                None => r == Ok::<Option<InventoryRevision>, EndpointUpdateError>(None),
                Some(row) => match r {
                    Ok(revision) => revision matches Some(revision) && holds_revision(
                        row,
                        revision,
                    ),
                    Err(error) => {
                        &&& json::json_value_members(row.inventory) is None
                        &&& error matches EndpointUpdateError::Repository(fault)
                        &&& fault.text() == "persisted inventory revision is not a JSON object"@
                    },
                },
            }
        },
{
    if !endpoint_exists {
        return Err(EndpointUpdateError::NotFound(endpoint_id));
    }
    match found {
        None => Ok(None),
        Some(row) => match row_to_revision(row) {
            Ok(revision) => Ok(Some(revision)),
            Err(error) => Err(error),
        },
    }
}

/// A report that differs from the current revision, and the event of it.
#[derive(Debug)]
pub struct InventoryChange {
    pub revision: InventoryRevision,
    pub event: DomainEvent,
}

/// What a changed inventory writes: the revision, that it is the endpoint's
/// current one now, and the event.
#[derive(Debug)]
pub struct InventoryWrites {
    pub revision: InventoryRow,
    pub event: EventRow,
}

/// The writes are those of `change` for the endpoint.
pub open spec fn writes_change(
    writes: InventoryWrites,
    change: InventoryChange,
    endpoint_id: EndpointId,
) -> bool {
    &&& writes.revision.endpoint_id == endpoint_id.0
    &&& writes.revision.revision_id == change.revision.id.0
    &&& json::json_value_members(writes.revision.inventory) == Some(
        json::json_members(change.revision.snapshot),
    )
    &&& writes.revision.recorded_at == change.revision.recorded_at
    &&& event_rows::holds_event(
        writes.event,
        DomainEvent { endpoint_id, ..change.event },
        None,
        None,
    )
}

/// Lays a report out for writing. One that changes nothing writes nothing.
pub fn record_inventory(endpoint_id: EndpointId, change: &Option<InventoryChange>) -> (r: Option<
    InventoryWrites,
>)
    ensures
        match change {
            None => r is None,
            Some(change) => r matches Some(writes) && writes_change(writes, *change, endpoint_id),
        },
{
    match change {
        None => None,
        Some(change) => {
            let row = event_row(&change.event, None, None);
            Some(
                InventoryWrites {
                    revision: InventoryRow {
                        endpoint_id: endpoint_id.0,
                        revision_id: change.revision.id.0,
                        inventory: object_value(&change.revision.snapshot),
                        recorded_at: change.revision.recorded_at,
                    },
                    event: EventRow { endpoint_id: endpoint_id.0, ..row },
                },
            )
        },
    }
}

/// A revision that is written and read back says what was written.
pub proof fn revision_survives_storage(
    endpoint_id: EndpointId,
    change: InventoryChange,
    writes: InventoryWrites,
    read: InventoryRevision,
)
    requires
        writes_change(writes, change, endpoint_id),
        holds_revision(writes.revision, read),
    ensures
        read.id == change.revision.id,
        read.endpoint_id == endpoint_id,
        json::json_members(read.snapshot) == json::json_members(change.revision.snapshot),
        read.recorded_at == change.revision.recorded_at,
{
}

/// A revision is read column by column, and exactly where what is stored is an
/// object.
pub proof fn revision_is_read_column_by_column(
    row: InventoryRow,
    r: Result<InventoryRevision, EndpointUpdateError>,
)
    requires
        call_ensures(row_to_revision, (row,), r),
    ensures
        r is Ok <==> json::json_value_members(row.inventory) is Some,
        r matches Ok(revision) ==> revision.id.0 == row.revision_id && revision.endpoint_id.0
            == row.endpoint_id && revision.recorded_at == row.recorded_at && Some(
            json::json_members(revision.snapshot),
        ) == json::json_value_members(row.inventory),
        r matches Err(error) ==> error is Repository && error->Repository_0.text()
            == "persisted inventory revision is not a JSON object"@,
{
}

/// The current revision is that of an endpoint that exists, where it has one; an
/// endpoint that does not exist is told apart from one without a revision.
pub proof fn current_inventory_is_of_an_existing_endpoint(
    endpoint_id: EndpointId,
    endpoint_exists: bool,
    found: Option<InventoryRow>,
    r: Result<Option<InventoryRevision>, EndpointUpdateError>,
)
    requires
        call_ensures(find_current_inventory, (endpoint_id, endpoint_exists, found), r),
    ensures
        !endpoint_exists <==> (r matches Err(EndpointUpdateError::NotFound(id)) && id
            == endpoint_id),
        r matches Ok(None) <==> endpoint_exists && found is None,
        r matches Ok(Some(revision)) ==> (found matches Some(row) && revision.id.0
            == row.revision_id && revision.endpoint_id.0 == row.endpoint_id
            && revision.recorded_at == row.recorded_at),
        endpoint_exists && r is Err <==> (r matches Err(EndpointUpdateError::Repository(fault))
            && fault.text() == "persisted inventory revision is not a JSON object"@),
{
}

/// A report that changed something writes the revision and its event under the
/// endpoint, filed under no job; one that changed nothing writes nothing.
pub proof fn changed_inventory_is_written_under_its_endpoint(
    endpoint_id: EndpointId,
    change: Option<InventoryChange>,
    r: Option<InventoryWrites>,
)
    requires
        call_ensures(record_inventory, (endpoint_id, &change), r),
    ensures
        r is Some <==> change is Some,
        change matches Some(change) ==> {
            &&& r->Some_0.revision.endpoint_id == endpoint_id.0
            &&& r->Some_0.revision.revision_id == change.revision.id.0
            &&& r->Some_0.revision.recorded_at == change.revision.recorded_at
            &&& json::json_value_members(r->Some_0.revision.inventory) == Some(
                json::json_members(change.revision.snapshot),
            )
            &&& r->Some_0.event.event_id == change.event.event_id
            &&& r->Some_0.event.endpoint_id == endpoint_id.0
            &&& r->Some_0.event.occurred_at == change.event.occurred_at
            &&& r->Some_0.event.job_id is None
            &&& r->Some_0.event.job_step_id is None
            &&& r->Some_0.event.event_type is InventoryRevisionRecorded <==> change.event.body
                is InventoryRevisionRecorded
        },
{
}

} // verus!
