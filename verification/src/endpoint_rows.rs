//! Endpoints as they are stored: the columns they are read from, the columns
//! they are written to, and the events and audit records beside them.

use vstd::prelude::*;
use crate::bytes::copy_bytes;
use crate::clock::Timestamp;
use crate::enrollment::BootContext;
use crate::errors::RepositoryError;
use crate::event_rows::{self, audit_row, event_row, AuditRow, EventRow};
use crate::ids::EndpointId;
use crate::model::{
    AuditRecord, CredentialChain, CredentialSlot, CurrentBoot, DomainEvent, EndpointAggregate,
    HardwareConfidence, IdentityState, TrustedBootstrapState,
};
use crate::text::{self, decimal};

verus! {

/// `r` is `expected`, where a failure of the storage is told by its text.
pub open spec fn told<T>(r: Result<T, RepositoryError>, expected: Result<T, Seq<char>>) -> bool {
    match expected {
        Ok(value) => r == Ok::<T, RepositoryError>(value),
        Err(text) => r matches Err(error) && error.text() == text,
    }
}

/// The wording for stored bytes of a wrong length.
pub open spec fn length_text(what: Seq<char>, length: nat, expected: nat) -> Seq<char> {
    what + " has unexpected length "@ + text::decimal_text(length) + " (expected "@
        + text::decimal_text(expected) + ")"@
}

fn wrong_length(what: &str, length: usize, expected: u64) -> (r: RepositoryError)
    ensures
        r.text() == length_text(what@, length as nat, expected as nat),
{
    let mut message = String::new();
    message.append(what);
    message.append(" has unexpected length ");
    message.append(decimal(length as u64).as_str());
    message.append(" (expected ");
    message.append(decimal(expected).as_str());
    message.append(")");
    assert(message@ =~= length_text(what@, length as nat, expected as nat));
    RepositoryError::Backend(message)
}

/// A credential's verifier, read from its bytes.
pub open spec fn verifier_of(bytes: Vec<u8>) -> Result<Vec<u8>, Seq<char>> {
    if bytes@.len() == 48 {
        Ok(bytes)
    } else {
        Err(length_text("credential verifier"@, bytes@.len(), 48))
    }
}

/// Reads a credential's verifier.
pub fn verifier_from_bytes(bytes: Vec<u8>) -> (r: Result<Vec<u8>, RepositoryError>)
    ensures
        told(r, verifier_of(bytes)),
{
    if bytes.len() == 48 {
        Ok(bytes)
    } else {
        Err(wrong_length("credential verifier", bytes.len(), 48))
    }
}

/// A credential's lookup identity, read from its bytes.
pub open spec fn lookup_id_of(bytes: Vec<u8>) -> Result<Vec<u8>, Seq<char>> {
    if bytes@.len() == 16 {
        Ok(bytes)
    } else {
        Err(length_text("credential lookup id"@, bytes@.len(), 16))
    }
}

/// Reads a credential's lookup identity.
pub fn lookup_id_from_bytes(bytes: Vec<u8>) -> (r: Result<Vec<u8>, RepositoryError>)
    ensures
        told(r, lookup_id_of(bytes)),
{
    if bytes.len() == 16 {
        Ok(bytes)
    } else {
        Err(wrong_length("credential lookup id", bytes.len(), 16))
    }
}

/// The three columns of an endpoint's current boot. They are set together or not
/// at all.
#[derive(Debug)]
pub struct BootColumns {
    pub context_id: Option<Vec<u8>>,
    pub nonce: Option<Vec<u8>>,
    pub trusted_bootstrap: Option<TrustedBootstrapState>,
}

impl BootColumns {
    /// The current boot in these columns.
    pub open spec fn current_boot(self) -> Result<Option<CurrentBoot>, Seq<char>> {
        match (self.context_id, self.nonce, self.trusted_bootstrap) {
            (None, None, None) => Ok(None),
            (Some(id), Some(boot_nonce), Some(trusted_bootstrap)) => match lookup_id_of(id) {
                Err(text) => Err(text),
                Ok(boot_context_id) => if boot_nonce@.len() != 32 {
                    Err(length_text("current_boot_nonce"@, boot_nonce@.len(), 32))
                } else {
                    Ok(Some(CurrentBoot { boot_context_id, boot_nonce, trusted_bootstrap }))
                },
            },
            _ => Err("persisted endpoint current-boot projection is partially populated"@),
        }
    }
}

/// Reads an endpoint's current boot.
pub fn row_to_current_boot(columns: BootColumns) -> (r: Result<
    Option<CurrentBoot>,
    RepositoryError,
>)
    ensures
        told(r, columns.current_boot()),
{
    match (columns.context_id, columns.nonce, columns.trusted_bootstrap) {
        (None, None, None) => Ok(None),
        (Some(id), Some(boot_nonce), Some(trusted_bootstrap)) => {
            let boot_context_id = match lookup_id_from_bytes(id) {
                Ok(id) => id,
                Err(error) => {
                    return Err(error);
                },
            };
            if boot_nonce.len() != 32 {
                return Err(wrong_length("current_boot_nonce", boot_nonce.len(), 32));
            }
            Ok(Some(CurrentBoot { boot_context_id, boot_nonce, trusted_bootstrap }))
        },
        _ => Err(
            RepositoryError::backend(
                "persisted endpoint current-boot projection is partially populated",
            ),
        ),
    }
}

/// An endpoint as it is read, with its credentials and their lookup identities.
#[derive(Debug)]
pub struct EndpointRow {
    pub id: u128,
    pub inventory_signal: String,
    pub identity_state: IdentityState,
    pub hardware_confidence: HardwareConfidence,
    pub created_at: Timestamp,
    pub updated_at: Timestamp,
    pub current_boot: BootColumns,
    pub predecessor_verifier: Vec<u8>,
    pub predecessor_issued_at: Timestamp,
    pub predecessor_expires_at: Timestamp,
    pub predecessor_lookup_id: Option<Vec<u8>>,
    pub successor_verifier: Option<Vec<u8>>,
    pub successor_lookup_id: Option<Vec<u8>>,
    /// What reading the column gave; asked for only where there is a successor.
    pub successor_issued_at: Result<Timestamp, RepositoryError>,
    /// What reading the column gave; asked for only where there is a successor.
    pub successor_expires_at: Result<Timestamp, RepositoryError>,
    pub revoked: bool,
}

/// A credential slot, read from its columns.
pub open spec fn slot_of(
    lookup_id: Vec<u8>,
    verifier: Vec<u8>,
    issued_at: Result<Timestamp, Seq<char>>,
    expires_at: Result<Timestamp, Seq<char>>,
) -> Result<CredentialSlot, Seq<char>> {
    match lookup_id_of(lookup_id) {
        Err(text) => Err(text),
        Ok(lookup_id) => match verifier_of(verifier) {
            Err(text) => Err(text),
            Ok(hash) => match (issued_at, expires_at) {
                (Err(text), _) => Err(text),
                (_, Err(text)) => Err(text),
                (Ok(issued_at), Ok(expires_at)) => Ok(
                    CredentialSlot { lookup_id, hash, issued_at, expires_at },
                ),
            },
        },
    }
}

/// What reading a column gave, a failure told by its text.
pub open spec fn column_text(column: Result<Timestamp, RepositoryError>) -> Result<
    Timestamp,
    Seq<char>,
> {
    match column {
        Ok(value) => Ok(value),
        Err(error) => Err(error.text()),
    }
}

fn read_slot(
    lookup_id: Vec<u8>,
    verifier: Vec<u8>,
    issued_at: Result<Timestamp, RepositoryError>,
    expires_at: Result<Timestamp, RepositoryError>,
) -> (r: Result<CredentialSlot, RepositoryError>)
    ensures
        told(r, slot_of(lookup_id, verifier, column_text(issued_at), column_text(expires_at))),
{
    let lookup_id = match lookup_id_from_bytes(lookup_id) {
        Ok(id) => id,
        Err(error) => {
            return Err(error);
        },
    };
    let hash = match verifier_from_bytes(verifier) {
        Ok(hash) => hash,
        Err(error) => {
            return Err(error);
        },
    };
    match (issued_at, expires_at) {
        (Ok(issued_at), Ok(expires_at)) => Ok(
            CredentialSlot { lookup_id, hash, issued_at, expires_at },
        ),
        (Err(error), _) => Err(error),
        (_, Err(error)) => Err(error),
    }
}

impl EndpointRow {
    /// The current credential. A stored one has a lookup identity.
    pub open spec fn predecessor(self) -> Result<CredentialSlot, Seq<char>> {
        match self.predecessor_lookup_id {
            None => Err("persisted predecessor credential is missing its lookup mapping"@),
            Some(lookup_id) => slot_of(
                lookup_id,
                self.predecessor_verifier,
                Ok(self.predecessor_issued_at),
                Ok(self.predecessor_expires_at),
            ),
        }
    }

    /// The credential that is to follow, if there is one.
    pub open spec fn successor(self) -> Result<Option<CredentialSlot>, Seq<char>> {
        match (self.successor_verifier, self.successor_lookup_id) {
            (None, None) => Ok(None),
            (Some(verifier), Some(lookup_id)) => match slot_of(
                lookup_id,
                verifier,
                column_text(self.successor_issued_at),
                column_text(self.successor_expires_at),
            ) {
                Ok(slot) => Ok(Some(slot)),
                Err(text) => Err(text),
            },
            _ => Err("persisted successor verifier and lookup mapping disagree on presence"@),
        }
    }

    /// The endpoint in this row: the first of boot, predecessor and successor
    /// that cannot be read is what it fails with.
    pub open spec fn aggregate(self) -> Result<EndpointAggregate, Seq<char>> {
        match (self.current_boot.current_boot(), self.predecessor(), self.successor()) {
            (Err(text), _, _) => Err(text),
            (_, Err(text), _) => Err(text),
            (_, _, Err(text)) => Err(text),
            (Ok(current_boot), Ok(predecessor), Ok(successor)) => Ok(
                EndpointAggregate {
                    id: EndpointId(self.id),
                    inventory_signal: self.inventory_signal,
                    identity: self.identity_state,
                    credential: CredentialChain { predecessor, successor, revoked: self.revoked },
                    hardware_confidence: self.hardware_confidence,
                    current_boot,
                    created_at: self.created_at,
                    updated_at: self.updated_at,
                },
            ),
        }
    }
}

/// Reads an endpoint.
pub fn row_to_aggregate(row: EndpointRow) -> (r: Result<EndpointAggregate, RepositoryError>)
    ensures
        told(r, row.aggregate()),
{
    let current_boot = match row_to_current_boot(row.current_boot) {
        Ok(current_boot) => current_boot,
        Err(error) => {
            return Err(error);
        },
    };
    let predecessor_lookup_id = match row.predecessor_lookup_id {
        Some(lookup_id) => lookup_id,
        None => {
            return Err(
                RepositoryError::backend(
                    "persisted predecessor credential is missing its lookup mapping",
                ),
            );
        },
    };
    let predecessor = match read_slot(
        predecessor_lookup_id,
        row.predecessor_verifier,
        Ok(row.predecessor_issued_at),
        Ok(row.predecessor_expires_at),
    ) {
        Ok(slot) => slot,
        Err(error) => {
            return Err(error);
        },
    };
    let successor = match (row.successor_verifier, row.successor_lookup_id) {
        (Some(verifier), Some(lookup_id)) => match read_slot(
            lookup_id,
            verifier,
            row.successor_issued_at,
            row.successor_expires_at,
        ) {
            Ok(slot) => Some(slot),
            Err(error) => {
                return Err(error);
            },
        },
        (None, None) => None,
        _ => {
            return Err(
                RepositoryError::backend(
                    "persisted successor verifier and lookup mapping disagree on presence",
                ),
            );
        },
    };
    Ok(
        EndpointAggregate {
            id: EndpointId(row.id),
            inventory_signal: row.inventory_signal,
            identity: row.identity_state,
            credential: CredentialChain { predecessor, successor, revoked: row.revoked },
            hardware_confidence: row.hardware_confidence,
            current_boot,
            created_at: row.created_at,
            updated_at: row.updated_at,
        },
    )
}

/// A change of an endpoint, with the events and the audit record that belong to
/// it.
#[derive(Debug)]
pub struct TransitionOutcome {
    pub endpoint: EndpointAggregate,
    pub events: Vec<DomainEvent>,
    pub audit: Option<AuditRecord>,
}

/// An endpoint's columns as they are written. Of one that is stored already, the
/// inventory signal and the time of creation stay as they are.
#[derive(Debug)]
pub struct EndpointColumns {
    pub id: u128,
    pub inventory_signal: String,
    pub identity_state: IdentityState,
    pub hardware_confidence: HardwareConfidence,
    pub created_at: Timestamp,
    pub updated_at: Timestamp,
    pub current_boot: BootColumns,
}

/// An endpoint's credentials as they are written.
#[derive(Debug)]
pub struct CredentialColumns {
    pub endpoint_id: u128,
    pub predecessor_verifier: Vec<u8>,
    pub predecessor_issued_at: Timestamp,
    pub predecessor_expires_at: Timestamp,
    pub successor_verifier: Option<Vec<u8>>,
    pub successor_issued_at: Option<Timestamp>,
    pub successor_expires_at: Option<Timestamp>,
    pub revoked: bool,
}

/// Which of the two credentials a lookup identity leads to.
#[derive(Clone, Copy, Debug, PartialEq, Eq, Structural)]
pub enum CredentialSlotRole {
    Predecessor,
    Successor,
}

/// A lookup identity as it is written.
#[derive(Debug)]
pub struct LookupRow {
    pub endpoint_id: u128,
    pub slot: CredentialSlotRole,
    pub lookup_id: Vec<u8>,
}

/// The columns say what `boot` says.
pub open spec fn holds_boot(columns: BootColumns, boot: Option<CurrentBoot>) -> bool {
    match boot {
        None => columns.context_id is None && columns.nonce is None && columns.trusted_bootstrap
            is None,
        Some(boot) => {
            &&& columns.context_id matches Some(id) && id@ == boot.boot_context_id@
            &&& columns.nonce matches Some(nonce) && nonce@ == boot.boot_nonce@
            &&& columns.trusted_bootstrap == Some(boot.trusted_bootstrap)
        },
    }
}

/// The columns say what `endpoint` says, its credentials aside.
pub open spec fn holds_endpoint(columns: EndpointColumns, endpoint: EndpointAggregate) -> bool {
    &&& columns.id == endpoint.id.0
    &&& columns.inventory_signal@ == endpoint.inventory_signal@
    &&& columns.identity_state == endpoint.identity
    &&& columns.hardware_confidence == endpoint.hardware_confidence
    &&& columns.created_at == endpoint.created_at
    &&& columns.updated_at == endpoint.updated_at
    &&& holds_boot(columns.current_boot, endpoint.current_boot)
}

/// The columns say what `endpoint` says of its credentials, their lookup
/// identities aside.
pub open spec fn holds_credentials(
    columns: CredentialColumns,
    endpoint: EndpointAggregate,
) -> bool {
    let chain = endpoint.credential;
    &&& columns.endpoint_id == endpoint.id.0
    &&& columns.predecessor_verifier@ == chain.predecessor.hash@
    &&& columns.predecessor_issued_at == chain.predecessor.issued_at
    &&& columns.predecessor_expires_at == chain.predecessor.expires_at
    &&& match chain.successor {
        Some(successor) => {
            &&& columns.successor_verifier matches Some(verifier) && verifier@ == successor.hash@
            &&& columns.successor_issued_at == Some(successor.issued_at)
            &&& columns.successor_expires_at == Some(successor.expires_at)
        },
        None => columns.successor_verifier is None && columns.successor_issued_at is None
            && columns.successor_expires_at is None,
    }
    &&& columns.revoked == chain.revoked
}

/// The rows lead from the lookup identities of `chain` to its credentials, and
/// from no others.
pub open spec fn holds_lookups(
    rows: Seq<LookupRow>,
    endpoint_id: EndpointId,
    chain: CredentialChain,
) -> bool {
    &&& rows.len() == (if chain.successor is Some {
        2int
    } else {
        1
    })
    &&& rows[0].endpoint_id == endpoint_id.0 && rows[0].slot is Predecessor
        && rows[0].lookup_id@ == chain.predecessor.lookup_id@
    &&& chain.successor matches Some(successor) ==> rows[1].endpoint_id == endpoint_id.0
        && rows[1].slot is Successor && rows[1].lookup_id@ == successor.lookup_id@
}

/// Lays an endpoint out in columns.
pub fn endpoint_columns(endpoint: &EndpointAggregate) -> (r: EndpointColumns)
    ensures
        holds_endpoint(r, *endpoint),
{
    let current_boot = match &endpoint.current_boot {
        Some(boot) => BootColumns {
            context_id: Some(copy_bytes(&boot.boot_context_id)),
            nonce: Some(copy_bytes(&boot.boot_nonce)),
            trusted_bootstrap: Some(boot.trusted_bootstrap),
        },
        None => BootColumns { context_id: None, nonce: None, trusted_bootstrap: None },
    };
    EndpointColumns {
        id: endpoint.id.0,
        inventory_signal: endpoint.inventory_signal.clone(),
        identity_state: endpoint.identity,
        hardware_confidence: endpoint.hardware_confidence,
        created_at: endpoint.created_at,
        updated_at: endpoint.updated_at,
        current_boot,
    }
}

/// Lays an endpoint's credentials out in columns.
pub fn credential_columns(endpoint: &EndpointAggregate) -> (r: CredentialColumns)
    ensures
        holds_credentials(r, *endpoint),
{
    let predecessor = &endpoint.credential.predecessor;
    let (successor_verifier, successor_issued_at, successor_expires_at) =
        match &endpoint.credential.successor {
        Some(successor) => (
            Some(copy_bytes(&successor.hash)),
            Some(successor.issued_at),
            Some(successor.expires_at),
        ),
        None => (None, None, None),
    };
    CredentialColumns {
        endpoint_id: endpoint.id.0,
        predecessor_verifier: copy_bytes(&predecessor.hash),
        predecessor_issued_at: predecessor.issued_at,
        predecessor_expires_at: predecessor.expires_at,
        successor_verifier,
        successor_issued_at,
        successor_expires_at,
        revoked: endpoint.credential.revoked,
    }
}

/// The rows that replace all of an endpoint's lookup identities. The old ones
/// are deleted first, whatever they were: the same identity may move from one
/// credential to the other.
pub fn persist_lookup_projection(endpoint_id: EndpointId, chain: &CredentialChain) -> (r: Vec<
    LookupRow,
>)
    ensures
        holds_lookups(r@, endpoint_id, *chain),
{
    let mut rows: Vec<LookupRow> = Vec::new();
    rows.push(
        LookupRow {
            endpoint_id: endpoint_id.0,
            slot: CredentialSlotRole::Predecessor,
            lookup_id: copy_bytes(&chain.predecessor.lookup_id),
        },
    );
    if let Some(successor) = &chain.successor {
        rows.push(
            LookupRow {
                endpoint_id: endpoint_id.0,
                slot: CredentialSlotRole::Successor,
                lookup_id: copy_bytes(&successor.lookup_id),
            },
        );
    }
    rows
}

/// A row that holds what was written of an endpoint.
pub open spec fn reads_back(
    row: EndpointRow,
    endpoint: EndpointColumns,
    credentials: CredentialColumns,
    lookups: Seq<LookupRow>,
) -> bool {
    &&& row.id == endpoint.id
    &&& row.inventory_signal == endpoint.inventory_signal
    &&& row.identity_state == endpoint.identity_state
    &&& row.hardware_confidence == endpoint.hardware_confidence
    &&& row.created_at == endpoint.created_at
    &&& row.updated_at == endpoint.updated_at
    &&& row.current_boot == endpoint.current_boot
    &&& row.predecessor_verifier == credentials.predecessor_verifier
    &&& row.predecessor_issued_at == credentials.predecessor_issued_at
    &&& row.predecessor_expires_at == credentials.predecessor_expires_at
    &&& row.predecessor_lookup_id == Some(lookups[0].lookup_id)
    &&& row.successor_verifier == credentials.successor_verifier
    &&& credentials.successor_issued_at matches Some(at) ==> row.successor_issued_at == Ok::<
        Timestamp,
        RepositoryError,
    >(at)
    &&& credentials.successor_expires_at matches Some(at) ==> row.successor_expires_at == Ok::<
        Timestamp,
        RepositoryError,
    >(at)
    &&& row.successor_lookup_id == (if lookups.len() == 2 {
        Some(lookups[1].lookup_id)
    } else {
        None
    })
    &&& row.revoked == credentials.revoked
}

/// The bytes of a slot have the lengths that are stored.
pub open spec fn storable_slot(slot: CredentialSlot) -> bool {
    slot.lookup_id@.len() == 16 && slot.hash@.len() == 48
}

/// All bytes of an endpoint have the lengths that are stored.
pub open spec fn storable(endpoint: EndpointAggregate) -> bool {
    &&& storable_slot(endpoint.credential.predecessor)
    &&& endpoint.credential.successor matches Some(successor) ==> storable_slot(successor)
    &&& endpoint.current_boot matches Some(boot) ==> boot.boot_context_id@.len() == 16
        && boot.boot_nonce@.len() == 32
}

/// Two slots that say the same.
pub open spec fn same_slot(left: CredentialSlot, right: CredentialSlot) -> bool {
    &&& left.lookup_id@ == right.lookup_id@
    &&& left.hash@ == right.hash@
    &&& left.issued_at == right.issued_at
    &&& left.expires_at == right.expires_at
}

/// Two endpoints that say the same.
pub open spec fn same_endpoint(left: EndpointAggregate, right: EndpointAggregate) -> bool {
    &&& left.id == right.id
    &&& left.inventory_signal@ == right.inventory_signal@
    &&& left.identity == right.identity
    &&& left.hardware_confidence == right.hardware_confidence
    &&& left.created_at == right.created_at
    &&& left.updated_at == right.updated_at
    &&& same_slot(left.credential.predecessor, right.credential.predecessor)
    &&& match (left.credential.successor, right.credential.successor) {
        (Some(first), Some(second)) => same_slot(first, second),
        (None, None) => true,
        _ => false,
    }
    &&& left.credential.revoked == right.credential.revoked
    &&& match (left.current_boot, right.current_boot) {
        (Some(first), Some(second)) => first.boot_context_id@ == second.boot_context_id@
            && first.boot_nonce@ == second.boot_nonce@ && first.trusted_bootstrap
            == second.trusted_bootstrap,
        (None, None) => true,
        _ => false,
    }
}

/// An endpoint that is written and read back is the endpoint that was written.
pub proof fn endpoint_survives_storage(
    endpoint: EndpointAggregate,
    columns: EndpointColumns,
    credentials: CredentialColumns,
    lookups: Seq<LookupRow>,
    row: EndpointRow,
)
    requires
        storable(endpoint),
        holds_endpoint(columns, endpoint),
        holds_credentials(credentials, endpoint),
        holds_lookups(lookups, endpoint.id, endpoint.credential),
        reads_back(row, columns, credentials, lookups),
    ensures
        row.aggregate() matches Ok(read) && same_endpoint(read, endpoint),
{
}

/// Everything that is written for a change of an endpoint, in this order. The
/// lookup identities are not among it.
#[derive(Debug)]
pub struct TransitionWrites {
    pub endpoint: EndpointColumns,
    pub credentials: CredentialColumns,
    pub events: Vec<EventRow>,
    pub audit: Option<AuditRow>,
}

/// The rows are those of an endpoint's events, in their order, filed under no
/// job.
pub open spec fn holds_endpoint_events(rows: Seq<EventRow>, events: Seq<DomainEvent>) -> bool {
    &&& rows.len() == events.len()
    &&& forall|i: int|
        0 <= i < rows.len() ==> event_rows::holds_event(#[trigger] rows[i], events[i], None, None)
}

/// An endpoint's audit record is filed under no job either.
pub open spec fn without_job(record: AuditRecord) -> AuditRecord {
    AuditRecord { job_id: None, job_step_id: None, attempt_id: None, action_id: None, ..record }
}

/// Lays a change of an endpoint out for writing.
pub fn persist_transition(outcome: &TransitionOutcome) -> (r: TransitionWrites)
    ensures
        holds_endpoint(r.endpoint, outcome.endpoint),
        holds_credentials(r.credentials, outcome.endpoint),
        holds_endpoint_events(r.events@, outcome.events@),
        match outcome.audit {
            Some(record) => r.audit matches Some(row) && event_rows::holds_audit(
                row,
                without_job(record),
            ),
            None => r.audit is None,
        },
{
    let mut events: Vec<EventRow> = Vec::new();
    let mut i: usize = 0;
    while i < outcome.events.len()
        invariant
            i <= outcome.events@.len(),
            holds_endpoint_events(events@, outcome.events@.subrange(0, i as int)),
        decreases outcome.events@.len() - i,
    {
        events.push(event_row(&outcome.events[i], None, None));
        i = i + 1;
    }
    assert(outcome.events@.subrange(0, i as int) =~= outcome.events@);
    let audit = match &outcome.audit {
        Some(record) => {
            let row = audit_row(record);
            Some(
                AuditRow {
                    job_id: None,
                    job_step_id: None,
                    attempt_id: None,
                    action_id: None,
                    ..row
                },
            )
        },
        None => None,
    };
    TransitionWrites {
        endpoint: endpoint_columns(&outcome.endpoint),
        credentials: credential_columns(&outcome.endpoint),
        events,
        audit,
    }
}

/// A boot context as it is read.
#[derive(Debug)]
pub struct BootContextRow {
    pub boot_context_id: Vec<u8>,
    pub verifier: Vec<u8>,
    pub issued_at: Timestamp,
    pub expires_at: Timestamp,
    pub inventory_signal: String,
    pub resolved_endpoint_id: Option<u128>,
    /// Missing in rows from before there were nonces.
    pub boot_nonce: Option<Vec<u8>>,
}

impl BootContextRow {
    /// The boot context in this row. One without a nonce is never made up for.
    pub open spec fn boot_context(self) -> Result<BootContext, Seq<char>> {
        match self.boot_nonce {
            None => Err(
                "boot context has no boot_nonce (a historical, pre-trusted-bootstrap row); it cannot be redeemed through the current credential-redemption flow"@,
            ),
            Some(boot_nonce) => if boot_nonce@.len() != 32 {
                Err(length_text("boot context boot_nonce"@, boot_nonce@.len(), 32))
            } else {
                match (lookup_id_of(self.boot_context_id), verifier_of(self.verifier)) {
                    (Err(text), _) => Err(text),
                    (_, Err(text)) => Err(text),
                    (Ok(boot_context_id), Ok(verifier)) => Ok(
                        BootContext {
                            boot_context_id,
                            verifier,
                            issued_at: self.issued_at,
                            expires_at: self.expires_at,
                            inventory_signal: self.inventory_signal,
                            resolved_endpoint_id: match self.resolved_endpoint_id {
                                Some(id) => Some(EndpointId(id)),
                                None => None,
                            },
                            boot_nonce,
                        },
                    ),
                }
            },
        }
    }
}

/// Reads a boot context, where there is one.
pub fn load_boot_context(row: Option<BootContextRow>) -> (r: Result<
    Option<BootContext>,
    RepositoryError,
>)
    ensures
        match row {
            None => r == Ok::<Option<BootContext>, RepositoryError>(None),
            Some(row) => match row.boot_context() {
                Ok(context) => r == Ok::<Option<BootContext>, RepositoryError>(Some(context)),
                Err(text) => r matches Err(error) && error.text() == text,
            },
        },
{
    let row = match row {
        Some(row) => row,
        None => {
            return Ok(None);
        },
    };
    let boot_nonce = match row.boot_nonce {
        Some(nonce) => nonce,
        None => {
            return Err(
                RepositoryError::backend(
                    "boot context has no boot_nonce (a historical, pre-trusted-bootstrap row); it cannot be redeemed through the current credential-redemption flow",
                ),
            );
        },
    };
    if boot_nonce.len() != 32 {
        return Err(wrong_length("boot context boot_nonce", boot_nonce.len(), 32));
    }
    let boot_context_id = match lookup_id_from_bytes(row.boot_context_id) {
        Ok(id) => id,
        Err(error) => {
            return Err(error);
        },
    };
    let verifier = match verifier_from_bytes(row.verifier) {
        Ok(verifier) => verifier,
        Err(error) => {
            return Err(error);
        },
    };
    Ok(
        Some(
            BootContext {
                boot_context_id,
                verifier,
                issued_at: row.issued_at,
                expires_at: row.expires_at,
                inventory_signal: row.inventory_signal,
                resolved_endpoint_id: match row.resolved_endpoint_id {
                    Some(id) => Some(EndpointId(id)),
                    None => None,
                },
                boot_nonce,
            },
        ),
    )
}

/// A boot context is redeemable only with a nonce of its own.
pub proof fn redeemable_context_has_its_own_nonce(row: BootContextRow)
    requires
        row.boot_context() is Ok,
    ensures
        row.boot_nonce matches Some(nonce) && nonce@.len() == 32 && row.boot_context()->Ok_0.boot_nonce
            == nonce,
{
}

/// A credential is read exactly where its lookup identity and its verifier have their
/// lengths, and then as stored.
pub proof fn credential_bytes_have_their_lengths(
    bytes: Vec<u8>,
    verifier: Result<Vec<u8>, RepositoryError>,
    lookup_id: Result<Vec<u8>, RepositoryError>,
)
    requires
        call_ensures(verifier_from_bytes, (bytes,), verifier),
        call_ensures(lookup_id_from_bytes, (bytes,), lookup_id),
    ensures
        verifier is Ok <==> bytes@.len() == 48,
        verifier matches Ok(same) ==> same == bytes,
        lookup_id is Ok <==> bytes@.len() == 16,
        lookup_id matches Ok(same) ==> same == bytes,
{
}

/// The current boot is read exactly where its three columns are set together, with
/// their lengths, or not at all; then each is what its column holds.
pub proof fn current_boot_is_read_whole(
    columns: BootColumns,
    r: Result<Option<CurrentBoot>, RepositoryError>,
)
    requires
        call_ensures(row_to_current_boot, (columns,), r),
    ensures
        r matches Ok(None) <==> columns.context_id is None && columns.nonce is None
            && columns.trusted_bootstrap is None,
        r matches Ok(Some(_)) <==> columns.trusted_bootstrap is Some && (columns.context_id
            matches Some(id) && id@.len() == 16) && (columns.nonce matches Some(nonce)
            && nonce@.len() == 32),
        r matches Ok(Some(boot)) ==> columns.context_id == Some(boot.boot_context_id)
            && columns.nonce == Some(boot.boot_nonce) && columns.trusted_bootstrap == Some(
            boot.trusted_bootstrap,
        ),
{
}

/// An endpoint is read column by column: the credential it has, the one that is to
/// follow it where there is one, whether both are revoked, and its current boot.
pub proof fn endpoint_is_read_column_by_column(
    row: EndpointRow,
    r: Result<EndpointAggregate, RepositoryError>,
)
    requires
        call_ensures(row_to_aggregate, (row,), r),
    ensures
        r matches Ok(endpoint) ==> {
            &&& endpoint.id.0 == row.id
            &&& endpoint.inventory_signal == row.inventory_signal
            &&& endpoint.identity == row.identity_state
            &&& endpoint.hardware_confidence == row.hardware_confidence
            &&& endpoint.created_at == row.created_at
            &&& endpoint.updated_at == row.updated_at
            &&& Some(endpoint.credential.predecessor.lookup_id) == row.predecessor_lookup_id
            &&& endpoint.credential.predecessor.hash == row.predecessor_verifier
            &&& endpoint.credential.predecessor.issued_at == row.predecessor_issued_at
            &&& endpoint.credential.predecessor.expires_at == row.predecessor_expires_at
            &&& endpoint.credential.revoked == row.revoked
            &&& endpoint.credential.successor is Some <==> row.successor_verifier is Some
            &&& endpoint.credential.successor is Some <==> row.successor_lookup_id is Some
            &&& endpoint.credential.successor matches Some(successor) ==> {
                &&& row.successor_verifier == Some(successor.hash)
                &&& row.successor_lookup_id == Some(successor.lookup_id)
                &&& row.successor_issued_at matches Ok(at) && at == successor.issued_at
                &&& row.successor_expires_at matches Ok(at) && at == successor.expires_at
            }
            &&& endpoint.current_boot is Some <==> row.current_boot.trusted_bootstrap is Some
            &&& endpoint.current_boot matches Some(boot) ==> row.current_boot.trusted_bootstrap
                == Some(boot.trusted_bootstrap) && row.current_boot.nonce == Some(boot.boot_nonce)
                && row.current_boot.context_id == Some(boot.boot_context_id)
        },
{
}

/// An endpoint is readable exactly where its boot, its credential and the one that is
/// to follow are.
pub proof fn endpoint_is_readable_where_its_parts_are(
    row: EndpointRow,
    r: Result<EndpointAggregate, RepositoryError>,
)
    requires
        call_ensures(row_to_aggregate, (row,), r),
    ensures
        r is Ok <==> {
            &&& (row.current_boot.context_id is None && row.current_boot.nonce is None
                && row.current_boot.trusted_bootstrap is None) || (
            row.current_boot.trusted_bootstrap is Some && (row.current_boot.context_id
                matches Some(id) && id@.len() == 16) && (row.current_boot.nonce matches Some(nonce)
                && nonce@.len() == 32))
            &&& row.predecessor_lookup_id matches Some(id) && id@.len() == 16
            &&& row.predecessor_verifier@.len() == 48
            &&& (row.successor_verifier is None && row.successor_lookup_id is None) || ((
            row.successor_verifier matches Some(verifier) && verifier@.len() == 48) && (
            row.successor_lookup_id matches Some(id) && id@.len() == 16) && row.successor_issued_at
                is Ok && row.successor_expires_at is Ok)
        },
{
}

/// What is written of an endpoint is read back as the same endpoint, by every step of
/// the writing and of the reading.
pub proof fn written_endpoint_is_read_back(
    outcome: TransitionOutcome,
    writes: TransitionWrites,
    lookups: Vec<LookupRow>,
    row: EndpointRow,
    r: Result<EndpointAggregate, RepositoryError>,
)
    requires
        storable(outcome.endpoint),
        call_ensures(persist_transition, (&outcome,), writes),
        call_ensures(
            persist_lookup_projection,
            (outcome.endpoint.id, &outcome.endpoint.credential),
            lookups,
        ),
        reads_back(row, writes.endpoint, writes.credentials, lookups@),
        call_ensures(row_to_aggregate, (row,), r),
    ensures
        r matches Ok(read) && {
            &&& read.id == outcome.endpoint.id
            &&& read.inventory_signal@ == outcome.endpoint.inventory_signal@
            &&& read.identity == outcome.endpoint.identity
            &&& read.hardware_confidence == outcome.endpoint.hardware_confidence
            &&& read.created_at == outcome.endpoint.created_at
            &&& read.updated_at == outcome.endpoint.updated_at
            &&& read.credential.revoked == outcome.endpoint.credential.revoked
            &&& read.credential.predecessor.lookup_id@
                == outcome.endpoint.credential.predecessor.lookup_id@
            &&& read.credential.predecessor.hash@ == outcome.endpoint.credential.predecessor.hash@
            &&& read.credential.predecessor.issued_at
                == outcome.endpoint.credential.predecessor.issued_at
            &&& read.credential.predecessor.expires_at
                == outcome.endpoint.credential.predecessor.expires_at
            &&& read.credential.successor is Some
                <==> outcome.endpoint.credential.successor is Some
            &&& outcome.endpoint.credential.successor matches Some(successor) ==> {
                &&& read.credential.successor->Some_0.lookup_id@ == successor.lookup_id@
                &&& read.credential.successor->Some_0.hash@ == successor.hash@
                &&& read.credential.successor->Some_0.issued_at == successor.issued_at
                &&& read.credential.successor->Some_0.expires_at == successor.expires_at
            }
            &&& read.current_boot is Some <==> outcome.endpoint.current_boot is Some
            &&& outcome.endpoint.current_boot matches Some(boot) ==> {
                &&& read.current_boot->Some_0.boot_context_id@ == boot.boot_context_id@
                &&& read.current_boot->Some_0.boot_nonce@ == boot.boot_nonce@
                &&& read.current_boot->Some_0.trusted_bootstrap == boot.trusted_bootstrap
            }
        },
{
    endpoint_survives_storage(
        outcome.endpoint,
        writes.endpoint,
        writes.credentials,
        lookups@,
        row,
    );
}

/// A lookup identity leads to the endpoint's current credential or to the one that is
/// to follow it, as whose it is; there is one row for each credential.
pub proof fn lookups_lead_to_their_credentials(
    endpoint_id: EndpointId,
    chain: CredentialChain,
    rows: Vec<LookupRow>,
)
    requires
        call_ensures(persist_lookup_projection, (endpoint_id, &chain), rows),
    ensures
        rows@.len() == 2 <==> chain.successor is Some,
        rows@.len() == 1 <==> chain.successor is None,
        forall|i: int| 0 <= i < rows@.len() ==> (#[trigger] rows@[i]).endpoint_id == endpoint_id.0,
        rows@[0].slot == CredentialSlotRole::Predecessor && rows@[0].lookup_id@
            == chain.predecessor.lookup_id@,
        chain.successor matches Some(successor) ==> rows@[1].slot == CredentialSlotRole::Successor
            && rows@[1].lookup_id@ == successor.lookup_id@,
{
}

/// A change of an endpoint is written with every one of its events, in their order,
/// and with its audit record; both are filed under no job.
pub proof fn endpoint_change_is_filed_under_no_job(
    outcome: TransitionOutcome,
    writes: TransitionWrites,
)
    requires
        call_ensures(persist_transition, (&outcome,), writes),
    ensures
        writes.events@.len() == outcome.events@.len(),
        forall|i: int|
            0 <= i < outcome.events@.len() ==> {
                &&& (#[trigger] writes.events@[i]).event_id == outcome.events@[i].event_id
                &&& writes.events@[i].endpoint_id == outcome.events@[i].endpoint_id.0
                &&& writes.events@[i].job_id is None
                &&& writes.events@[i].job_step_id is None
                &&& writes.events@[i].event_type is EndpointEnrolled
                    <==> outcome.events@[i].body is EndpointEnrolled
            },
        writes.audit is Some <==> outcome.audit is Some,
        outcome.audit matches Some(record) ==> {
            &&& writes.audit->Some_0.audit_id == record.audit_id
            &&& writes.audit->Some_0.endpoint_id == record.endpoint_id.0
            &&& writes.audit->Some_0.detail@ == record.detail@
            &&& writes.audit->Some_0.occurred_at == record.occurred_at
            &&& writes.audit->Some_0.actor_kind is Operator <==> record.actor is Operator
            &&& writes.audit->Some_0.job_id is None
            &&& writes.audit->Some_0.job_step_id is None
            &&& writes.audit->Some_0.attempt_id is None
            &&& writes.audit->Some_0.action_id is None
        },
{
}

/// A boot context is read exactly where its identity, its verifier and its own nonce
/// have their lengths, and then column by column.
pub proof fn boot_context_is_read_column_by_column(
    row: BootContextRow,
    r: Result<Option<BootContext>, RepositoryError>,
)
    requires
        call_ensures(load_boot_context, (Some(row),), r),
    ensures
        r is Ok <==> row.boot_context_id@.len() == 16 && row.verifier@.len() == 48 && (
        row.boot_nonce matches Some(nonce) && nonce@.len() == 32),
        r matches Ok(found) ==> {
            &&& found matches Some(context)
            &&& context.boot_context_id == row.boot_context_id
            &&& context.verifier == row.verifier
            &&& context.issued_at == row.issued_at
            &&& context.expires_at == row.expires_at
            &&& context.inventory_signal == row.inventory_signal
            &&& context.resolved_endpoint_id is Some <==> row.resolved_endpoint_id is Some
            &&& context.resolved_endpoint_id matches Some(id) ==> row.resolved_endpoint_id == Some(
                id.0,
            )
            &&& Some(context.boot_nonce) == row.boot_nonce
        },
{
}

/// A boot context that is not there is no fault.
pub proof fn missing_boot_context_is_no_fault(r: Result<Option<BootContext>, RepositoryError>)
    requires
        call_ensures(load_boot_context, (None,), r),
    ensures
        r matches Ok(found) && found is None,
{
}

/// Bytes of a wrong length are told by what they were to be, by their own length and by
/// the one that was due.
pub proof fn wrong_length_is_told(
    bytes: Vec<u8>,
    verifier: Result<Vec<u8>, RepositoryError>,
    lookup_id: Result<Vec<u8>, RepositoryError>,
)
    requires
        call_ensures(verifier_from_bytes, (bytes,), verifier),
        call_ensures(lookup_id_from_bytes, (bytes,), lookup_id),
    ensures
        verifier matches Err(fault) ==> fault.text() == "credential verifier"@
            + " has unexpected length "@ + text::decimal_text(bytes@.len()) + " (expected "@
            + text::decimal_text(48) + ")"@,
        lookup_id matches Err(fault) ==> fault.text() == "credential lookup id"@
            + " has unexpected length "@ + text::decimal_text(bytes@.len()) + " (expected "@
            + text::decimal_text(16) + ")"@,
{
}

/// A current boot that cannot be read is told by its identity before its nonce, and by
/// neither where only some of its columns are set.
pub proof fn unreadable_boot_is_told(
    columns: BootColumns,
    r: Result<Option<CurrentBoot>, RepositoryError>,
    lookup_id: Result<Vec<u8>, RepositoryError>,
)
    requires
        call_ensures(row_to_current_boot, (columns,), r),
        columns.context_id matches Some(id) ==> call_ensures(
            lookup_id_from_bytes,
            (id,),
            lookup_id,
        ),
    ensures
        r matches Err(fault) ==> {
            if columns.context_id is None || columns.nonce is None || columns.trusted_bootstrap
                is None {
                fault.text() == "persisted endpoint current-boot projection is partially populated"@
            } else if columns.context_id->Some_0@.len() != 16 {
                lookup_id matches Err(same) && fault.text() == same.text()
            } else {
                fault.text() == "current_boot_nonce"@ + " has unexpected length "@
                    + text::decimal_text(columns.nonce->Some_0@.len()) + " (expected "@
                    + text::decimal_text(32) + ")"@
            }
        },
{
}

/// An endpoint that cannot be read is told by its boot first, by the credential it has
/// next, and by the one that is to follow last.
pub proof fn unreadable_endpoint_is_told(
    row: EndpointRow,
    boot: Result<Option<CurrentBoot>, RepositoryError>,
    lookup_id: Result<Vec<u8>, RepositoryError>,
    verifier: Result<Vec<u8>, RepositoryError>,
    next_lookup_id: Result<Vec<u8>, RepositoryError>,
    next_verifier: Result<Vec<u8>, RepositoryError>,
    r: Result<EndpointAggregate, RepositoryError>,
)
    requires
        call_ensures(row_to_aggregate, (row,), r),
        call_ensures(row_to_current_boot, (row.current_boot,), boot),
        row.predecessor_lookup_id matches Some(id) ==> call_ensures(
            lookup_id_from_bytes,
            (id,),
            lookup_id,
        ),
        call_ensures(verifier_from_bytes, (row.predecessor_verifier,), verifier),
        row.successor_lookup_id matches Some(id) ==> call_ensures(
            lookup_id_from_bytes,
            (id,),
            next_lookup_id,
        ),
        row.successor_verifier matches Some(bytes) ==> call_ensures(
            verifier_from_bytes,
            (bytes,),
            next_verifier,
        ),
    ensures
        r matches Err(fault) ==> {
            if boot is Err {
                fault.text() == boot->Err_0.text()
            } else if row.predecessor_lookup_id is None {
                fault.text() == "persisted predecessor credential is missing its lookup mapping"@
            } else if lookup_id is Err {
                fault.text() == lookup_id->Err_0.text()
            } else if verifier is Err {
                fault.text() == verifier->Err_0.text()
            } else if row.successor_lookup_id is None || row.successor_verifier is None {
                fault.text()
                    == "persisted successor verifier and lookup mapping disagree on presence"@
            } else if next_lookup_id is Err {
                fault.text() == next_lookup_id->Err_0.text()
            } else if next_verifier is Err {
                fault.text() == next_verifier->Err_0.text()
            } else if row.successor_issued_at is Err {
                fault.text() == row.successor_issued_at->Err_0.text()
            } else {
                row.successor_expires_at is Err && fault.text()
                    == row.successor_expires_at->Err_0.text()
            }
        },
{
}

/// A boot context that cannot be read is told by its nonce first, by its identity next,
/// and by its verifier last.
pub proof fn unreadable_boot_context_is_told(
    row: BootContextRow,
    lookup_id: Result<Vec<u8>, RepositoryError>,
    verifier: Result<Vec<u8>, RepositoryError>,
    r: Result<Option<BootContext>, RepositoryError>,
)
    requires
        call_ensures(load_boot_context, (Some(row),), r),
        call_ensures(lookup_id_from_bytes, (row.boot_context_id,), lookup_id),
        call_ensures(verifier_from_bytes, (row.verifier,), verifier),
    ensures
        r matches Err(fault) ==> match row.boot_nonce {
            None => fault.text()
                == "boot context has no boot_nonce (a historical, pre-trusted-bootstrap row); it cannot be redeemed through the current credential-redemption flow"@,
            Some(nonce) => if nonce@.len() != 32 {
                fault.text() == "boot context boot_nonce"@ + " has unexpected length "@
                    + text::decimal_text(nonce@.len()) + " (expected "@ + text::decimal_text(32)
                    + ")"@
            } else if lookup_id is Err {
                fault.text() == lookup_id->Err_0.text()
            } else {
                verifier is Err && fault.text() == verifier->Err_0.text()
            },
        },
{
}

} // verus!
