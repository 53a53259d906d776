//! Domain events and audit records as they are stored.

use vstd::prelude::*;
use crate::clock::Timestamp;
use crate::ids::{self, hyphenated, JobId, JobStepId};
use crate::json::{self, insert_null, insert_text, json_object, JsonMember};
use crate::model::{Actor, AuditRecord, DomainEvent, DomainEventBody};

verus! {

/// The version that every event is stored with.
pub const EVENT_VERSION: i32 = 1;

/// What kind of event it is.
#[derive(Clone, Copy, Debug, PartialEq, Eq, Structural)]
pub enum DomainEventType {
    EndpointPendingEnrollment,
    EndpointEnrolled,
    OperatorDecisionRecorded,
    InventoryRevisionRecorded,
    JobStarted,
    JobSucceeded,
    JobFailed,
    JobStepFailed,
    JobCancelled,
    AttemptIndeterminate,
}

/// The kind of an event.
pub open spec fn type_of(body: DomainEventBody) -> DomainEventType {
    match body {
        DomainEventBody::EndpointPendingEnrollment => DomainEventType::EndpointPendingEnrollment,
        DomainEventBody::EndpointEnrolled => DomainEventType::EndpointEnrolled,
        DomainEventBody::OperatorDecisionRecorded { .. } =>
            DomainEventType::OperatorDecisionRecorded,
        DomainEventBody::InventoryRevisionRecorded { .. } =>
            DomainEventType::InventoryRevisionRecorded,
        DomainEventBody::JobStarted => DomainEventType::JobStarted,
        DomainEventBody::JobSucceeded => DomainEventType::JobSucceeded,
        DomainEventBody::JobFailed => DomainEventType::JobFailed,
        DomainEventBody::JobStepFailed => DomainEventType::JobStepFailed,
        DomainEventBody::JobCancelled => DomainEventType::JobCancelled,
        DomainEventBody::AttemptIndeterminate => DomainEventType::AttemptIndeterminate,
    }
}

/// Tells an event's kind.
pub fn event_type(event: &DomainEvent) -> (r: DomainEventType)
    ensures
        r == type_of(event.body),
{
    match &event.body {
        DomainEventBody::EndpointPendingEnrollment => DomainEventType::EndpointPendingEnrollment,
        DomainEventBody::EndpointEnrolled => DomainEventType::EndpointEnrolled,
        DomainEventBody::OperatorDecisionRecorded { .. } =>
            DomainEventType::OperatorDecisionRecorded,
        DomainEventBody::InventoryRevisionRecorded { .. } =>
            DomainEventType::InventoryRevisionRecorded,
        DomainEventBody::JobStarted => DomainEventType::JobStarted,
        DomainEventBody::JobSucceeded => DomainEventType::JobSucceeded,
        DomainEventBody::JobFailed => DomainEventType::JobFailed,
        DomainEventBody::JobStepFailed => DomainEventType::JobStepFailed,
        DomainEventBody::JobCancelled => DomainEventType::JobCancelled,
        DomainEventBody::AttemptIndeterminate => DomainEventType::AttemptIndeterminate,
    }
}

/// What kind of actor it is.
#[derive(Clone, Copy, Debug, PartialEq, Eq, Structural)]
pub enum AuditActorKind {
    Operator,
    System,
}

/// An actor's label: an operator has one, the system has none.
pub open spec fn label_of(actor: Actor) -> Option<Seq<char>> {
    match actor {
        Actor::Operator { label } => Some(label@),
        Actor::System => None,
    }
}

/// The kind of an actor.
pub open spec fn kind_of(actor: Actor) -> AuditActorKind {
    match actor {
        Actor::Operator { .. } => AuditActorKind::Operator,
        Actor::System => AuditActorKind::System,
    }
}

fn actor_kind(actor: &Actor) -> (r: AuditActorKind)
    ensures
        r == kind_of(*actor),
{
    match actor {
        Actor::Operator { .. } => AuditActorKind::Operator,
        Actor::System => AuditActorKind::System,
    }
}

/// Reads an actor's label.
pub fn actor_label(actor: &Actor) -> (r: Option<String>)
    ensures
        match label_of(*actor) {
            Some(label) => r matches Some(text) && text@ == label,
            None => r is None,
        },
{
    match actor {
        Actor::Operator { label } => Some(label.clone()),
        Actor::System => None,
    }
}

/// The members of an event's payload: only what no column holds.
pub open spec fn payload_of(body: DomainEventBody) -> Map<Seq<char>, JsonMember> {
    match body {
        DomainEventBody::OperatorDecisionRecorded { decision, actor } => json::no_members().insert(
            "decision"@,
            JsonMember::Text(decision@),
        ).insert(
            "actor_kind"@,
            JsonMember::Text(
                match actor {
                    Actor::Operator { .. } => "operator"@,
                    Actor::System => "system"@,
                },
            ),
        ).insert(
            "actor_label"@,
            match label_of(actor) {
                Some(label) => JsonMember::Text(label),
                None => JsonMember::Null,
            },
        ),
        DomainEventBody::InventoryRevisionRecorded { inventory_revision_id } =>
            json::no_members().insert(
            "inventory_revision_id"@,
            JsonMember::Text(ids::hyphenated_text(inventory_revision_id.0)),
        ),
        _ => json::no_members(),
    }
}

/// Builds an event's payload.
pub fn event_payload(event: &DomainEvent) -> (r: serde_json::Map<String, serde_json::Value>)
    ensures
        json::json_members(r) == payload_of(event.body),
{
    let mut payload = json_object();
    match &event.body {
        DomainEventBody::OperatorDecisionRecorded { decision, actor } => {
            let kind = match actor {
                Actor::Operator { .. } => "operator",
                Actor::System => "system",
            };
            insert_text(&mut payload, "decision", decision.as_str());
            insert_text(&mut payload, "actor_kind", kind);
            match actor_label(actor) {
                Some(label) => {
                    insert_text(&mut payload, "actor_label", label.as_str());
                },
                None => {
                    insert_null(&mut payload, "actor_label");
                },
            }
        },
        DomainEventBody::InventoryRevisionRecorded { inventory_revision_id } => {
            insert_text(
                &mut payload,
                "inventory_revision_id",
                hyphenated(inventory_revision_id.0).as_str(),
            );
        },
        _ => {},
    }
    payload
}

/// An event as it is written.
#[derive(Debug)]
pub struct EventRow {
    pub event_id: u128,
    pub event_type: DomainEventType,
    pub event_version: i32,
    pub endpoint_id: u128,
    pub job_id: Option<u128>,
    pub job_step_id: Option<u128>,
    pub occurred_at: Timestamp,
    pub payload: serde_json::Map<String, serde_json::Value>,
}

/// The row is the event's, filed under `job_id` and `job_step_id`.
pub open spec fn holds_event(
    row: EventRow,
    event: DomainEvent,
    job_id: Option<JobId>,
    job_step_id: Option<JobStepId>,
) -> bool {
    &&& row.event_id == event.event_id
    &&& row.event_type == type_of(event.body)
    &&& row.event_version == EVENT_VERSION
    &&& row.endpoint_id == event.endpoint_id.0
    &&& row.job_id == (match job_id {
        Some(id) => Some(id.0),
        None => None,
    })
    &&& row.job_step_id == (match job_step_id {
        Some(id) => Some(id.0),
        None => None,
    })
    &&& row.occurred_at == event.occurred_at
    &&& json::json_members(row.payload) == payload_of(event.body)
}

/// Lays an event out in columns, filed under a job and a step where there are
/// any.
pub fn event_row(event: &DomainEvent, job_id: Option<JobId>, job_step_id: Option<JobStepId>) -> (r:
    EventRow)
    ensures
        holds_event(r, *event, job_id, job_step_id),
{
    EventRow {
        event_id: event.event_id,
        event_type: event_type(event),
        event_version: EVENT_VERSION,
        endpoint_id: event.endpoint_id.0,
        job_id: match job_id {
            Some(id) => Some(id.0),
            None => None,
        },
        job_step_id: match job_step_id {
            Some(id) => Some(id.0),
            None => None,
        },
        occurred_at: event.occurred_at,
        payload: event_payload(event),
    }
}

/// The rows are those of the events, in their order, each filed under the job
/// and the step that it names itself.
pub open spec fn holds_events(rows: Seq<EventRow>, events: Seq<DomainEvent>) -> bool {
    &&& rows.len() == events.len()
    &&& forall|i: int|
        0 <= i < rows.len() ==> holds_event(
            #[trigger] rows[i],
            events[i],
            events[i].job_id,
            events[i].job_step_id,
        )
}

/// Lays events out in columns.
pub fn event_rows(events: &Vec<DomainEvent>) -> (r: Vec<EventRow>)
    ensures
        holds_events(r@, events@),
{
    let mut rows: Vec<EventRow> = Vec::new();
    let mut i: usize = 0;
    while i < events.len()
        invariant
            i <= events@.len(),
            holds_events(rows@, events@.subrange(0, i as int)),
        decreases events@.len() - i,
    {
        rows.push(event_row(&events[i], events[i].job_id, events[i].job_step_id));
        i = i + 1;
    }
    assert(events@.subrange(0, i as int) =~= events@);
    rows
}

/// An audit record as it is written.
#[derive(Debug)]
pub struct AuditRow {
    pub audit_id: u128,
    pub endpoint_id: u128,
    pub actor_kind: AuditActorKind,
    pub actor_label: Option<String>,
    pub occurred_at: Timestamp,
    pub detail: String,
    pub job_id: Option<u128>,
    pub job_step_id: Option<u128>,
    pub attempt_id: Option<u128>,
    pub action_id: Option<u128>,
}

/// The row says what the record says.
pub open spec fn holds_audit(row: AuditRow, record: AuditRecord) -> bool {
    &&& row.audit_id == record.audit_id
    &&& row.endpoint_id == record.endpoint_id.0
    &&& row.actor_kind == kind_of(record.actor)
    &&& match label_of(record.actor) {
        Some(label) => row.actor_label matches Some(text) && text@ == label,
        None => row.actor_label is None,
    }
    &&& row.occurred_at == record.occurred_at
    &&& row.detail@ == record.detail@
    &&& row.job_id == (match record.job_id {
        Some(id) => Some(id.0),
        None => None,
    })
    &&& row.job_step_id == (match record.job_step_id {
        Some(id) => Some(id.0),
        None => None,
    })
    &&& row.attempt_id == (match record.attempt_id {
        Some(id) => Some(id.0),
        None => None,
    })
    &&& row.action_id == (match record.action_id {
        Some(id) => Some(id.0),
        None => None,
    })
}

/// Lays an audit record out in columns.
pub fn audit_row(record: &AuditRecord) -> (r: AuditRow)
    ensures
        holds_audit(r, *record),
{
    AuditRow {
        audit_id: record.audit_id,
        endpoint_id: record.endpoint_id.0,
        actor_kind: actor_kind(&record.actor),
        actor_label: actor_label(&record.actor),
        occurred_at: record.occurred_at,
        detail: record.detail.clone(),
        job_id: match record.job_id {
            Some(id) => Some(id.0),
            None => None,
        },
        job_step_id: match record.job_step_id {
            Some(id) => Some(id.0),
            None => None,
        },
        attempt_id: match record.attempt_id {
            Some(id) => Some(id.0),
            None => None,
        },
        action_id: match record.action_id {
            Some(id) => Some(id.0),
            None => None,
        },
    }
}

/// The row of a record that may be missing.
pub open spec fn holds_optional_audit(
    row: Option<AuditRow>,
    record: Option<AuditRecord>,
) -> bool {
    match record {
        Some(record) => row matches Some(row) && holds_audit(row, record),
        None => row is None,
    }
}

/// Lays out an audit record, where there is one.
pub fn optional_audit_row(record: &Option<AuditRecord>) -> (r: Option<AuditRow>)
    ensures
        holds_optional_audit(r, *record),
{
    match record {
        Some(record) => Some(audit_row(record)),
        None => None,
    }
}

/// An event is stored as the kind that it is, and as no other.
pub proof fn event_is_stored_as_its_kind(event: DomainEvent, r: DomainEventType)
    requires
        call_ensures(event_type, (&event,), r),
    ensures
        r is EndpointPendingEnrollment <==> event.body is EndpointPendingEnrollment,
        r is EndpointEnrolled <==> event.body is EndpointEnrolled,
        r is OperatorDecisionRecorded <==> event.body is OperatorDecisionRecorded,
        r is InventoryRevisionRecorded <==> event.body is InventoryRevisionRecorded,
        r is JobStarted <==> event.body is JobStarted,
        r is JobSucceeded <==> event.body is JobSucceeded,
        r is JobFailed <==> event.body is JobFailed,
        r is JobStepFailed <==> event.body is JobStepFailed,
        r is JobCancelled <==> event.body is JobCancelled,
        r is AttemptIndeterminate <==> event.body is AttemptIndeterminate,
{
}

/// An event is stored under its own identity, its own endpoint and its own moment, in
/// the one version there is, filed under the job and the step it is filed under.
pub proof fn event_is_stored_column_by_column(
    event: DomainEvent,
    job_id: Option<JobId>,
    job_step_id: Option<JobStepId>,
    row: EventRow,
)
    requires
        call_ensures(event_row, (&event, job_id, job_step_id), row),
    ensures
        row.event_id == event.event_id,
        row.event_version == 1,
        row.endpoint_id == event.endpoint_id.0,
        row.occurred_at == event.occurred_at,
        row.job_id is Some <==> job_id is Some,
        job_id matches Some(id) ==> row.job_id == Some(id.0),
        row.job_step_id is Some <==> job_step_id is Some,
        job_step_id matches Some(id) ==> row.job_step_id == Some(id.0),
        row.event_type is JobFailed <==> event.body is JobFailed,
        row.event_type is JobSucceeded <==> event.body is JobSucceeded,
        row.event_type is JobCancelled <==> event.body is JobCancelled,
        row.event_type is JobStarted <==> event.body is JobStarted,
        row.event_type is JobStepFailed <==> event.body is JobStepFailed,
        row.event_type is AttemptIndeterminate <==> event.body is AttemptIndeterminate,
{
}

/// Every event of a list is stored, in its place, under the job and the step that it
/// names itself.
pub proof fn events_are_stored_in_their_order(events: Vec<DomainEvent>, rows: Vec<EventRow>)
    requires
        call_ensures(event_rows, (&events,), rows),
    ensures
        rows@.len() == events@.len(),
        forall|i: int|
            0 <= i < events@.len() ==> {
                &&& (#[trigger] rows@[i]).event_id == events@[i].event_id
                &&& rows@[i].endpoint_id == events@[i].endpoint_id.0
                &&& rows@[i].occurred_at == events@[i].occurred_at
                &&& rows@[i].job_id is Some <==> events@[i].job_id is Some
                &&& events@[i].job_id matches Some(id) ==> rows@[i].job_id == Some(id.0)
                &&& rows@[i].job_step_id is Some <==> events@[i].job_step_id is Some
                &&& events@[i].job_step_id matches Some(id) ==> rows@[i].job_step_id == Some(id.0)
            },
{
}

/// The payload of an operator's decision holds the decision, who made it and under
/// which label; that of an inventory revision holds the revision; any other is empty.
pub proof fn payload_holds_what_no_column_holds(
    event: DomainEvent,
    r: serde_json::Map<String, serde_json::Value>,
)
    requires
        call_ensures(event_payload, (&event,), r),
    ensures
        event.body matches DomainEventBody::OperatorDecisionRecorded { decision, actor } ==> {
            &&& json::json_members(r).dom() =~= set!["decision"@, "actor_kind"@, "actor_label"@]
            &&& json::json_members(r)["decision"@] == JsonMember::Text(decision@)
            &&& actor is Operator ==> json::json_members(r)["actor_kind"@] == JsonMember::Text(
                "operator"@,
            )
            &&& actor is System ==> json::json_members(r)["actor_kind"@] == JsonMember::Text(
                "system"@,
            )
            &&& actor matches Actor::Operator { label } ==> json::json_members(r)["actor_label"@]
                == JsonMember::Text(label@)
            &&& actor is System ==> json::json_members(r)["actor_label"@] is Null
        },
        event.body matches DomainEventBody::InventoryRevisionRecorded { inventory_revision_id }
            ==> json::json_members(r).dom() =~= set!["inventory_revision_id"@]
            && json::json_members(r)["inventory_revision_id"@] == JsonMember::Text(
            ids::hyphenated_text(inventory_revision_id.0),
        ),
        !(event.body is OperatorDecisionRecorded) && !(event.body is InventoryRevisionRecorded)
            ==> json::json_members(r).dom() =~= Set::<Seq<char>>::empty(),
{
    reveal_strlit("decision");
    reveal_strlit("actor_kind");
    reveal_strlit("actor_label");
    assert("decision"@.len() == 8);
    assert("actor_kind"@.len() == 10);
    assert("actor_label"@.len() == 11);
}

/// An audit record is stored column by column: an operator with the label, the system
/// without one, and every identity that the record names.
pub proof fn audit_record_is_stored_column_by_column(record: AuditRecord, row: AuditRow)
    requires
        call_ensures(audit_row, (&record,), row),
    ensures
        row.audit_id == record.audit_id,
        row.endpoint_id == record.endpoint_id.0,
        row.actor_kind is Operator <==> record.actor is Operator,
        row.actor_kind is System <==> record.actor is System,
        record.actor matches Actor::Operator { label } ==> (row.actor_label matches Some(text)
            && text@ == label@),
        record.actor is System ==> row.actor_label is None,
        row.occurred_at == record.occurred_at,
        row.detail@ == record.detail@,
        row.job_id is Some <==> record.job_id is Some,
        record.job_id matches Some(id) ==> row.job_id == Some(id.0),
        row.job_step_id is Some <==> record.job_step_id is Some,
        record.job_step_id matches Some(id) ==> row.job_step_id == Some(id.0),
        row.attempt_id is Some <==> record.attempt_id is Some,
        record.attempt_id matches Some(id) ==> row.attempt_id == Some(id.0),
        row.action_id is Some <==> record.action_id is Some,
        record.action_id matches Some(id) ==> row.action_id == Some(id.0),
{
}

/// A record is stored exactly where there is one.
pub proof fn audit_record_is_stored_where_there_is_one(
    record: Option<AuditRecord>,
    row: Option<AuditRow>,
)
    requires
        call_ensures(optional_audit_row, (&record,), row),
    ensures
        row is Some <==> record is Some,
        record matches Some(record) ==> row->Some_0.audit_id == record.audit_id
            && row->Some_0.detail@ == record.detail@,
{
}

/// Only an operator has a label, and it is the operator's own.
pub proof fn only_an_operator_has_a_label(actor: Actor, r: Option<String>)
    requires
        call_ensures(actor_label, (&actor,), r),
    ensures
        r is Some <==> actor is Operator,
        actor matches Actor::Operator { label } ==> r->Some_0@ == label@,
{
}

} // verus!
