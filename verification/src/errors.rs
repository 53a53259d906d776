//! Errors: what a port can refuse, what the application reports for it, and
//! how each is worded.

use vstd::prelude::*;
use crate::ids::{EndpointId, JobId, JobStepId, TransferId};
use crate::text::{self, append_identity};

verus! {

/// A failure of the storage behind a port.
#[derive(Debug)]
pub enum RepositoryError {
    Backend(String),
}

impl RepositoryError {
    /// A backend failure with the given message.
    pub fn backend(message: &str) -> (r: RepositoryError)
        ensures
            r.text() == message@,
    {
        RepositoryError::Backend(message.to_owned())
    }

    pub open spec fn text(&self) -> Seq<char> {
        match self {
            RepositoryError::Backend(message) => message@,
        }
    }
}

/// A refusal by the lifecycle rules, in their own words.
#[derive(Debug)]
pub struct DomainFault {
    pub message: String,
}

/// What a request to the application can fail with.
#[derive(Debug)]
pub enum ApplicationError {
    EndpointNotFound(EndpointId),
    EndpointNotEnrolled(EndpointId),
    JobNotFound(JobId),
    JobNotEligibleForAdmission(JobId),
    JobNotRunning(JobId),
    JobNotEligibleForCancellation(JobId),
    JobHasNoUncertainAttempt(JobId),
    EndpointNotAvailable,
    JobStepNotFound(JobStepId, JobId),
    JobStepNotEligible(JobStepId),
    JobStepAlreadyAuthorized(JobStepId),
    JobStepNotCurrent(JobStepId),
    NoCurrentInventory(EndpointId),
    NoCurrentTarget(EndpointId),
    UnknownAction,
    JobEndpointMismatch(JobId, EndpointId),
    TransferNotFound(TransferId),
    InvalidTransition(DomainFault),
    EmptyWorkflow(DomainFault),
    ChunkRecord(DomainFault),
    ChunkAccept(DomainFault),
    Seal(DomainFault),
    ArtifactTransition(DomainFault),
    TransferBinding(DomainFault),
    Repository(RepositoryError),
}

impl ApplicationError {
    /// The error's wording.
    pub open spec fn text(&self) -> Seq<char> {
        match self {
            ApplicationError::EndpointNotFound(id) =>
                "endpoint "@ + text::identity_text("EndpointId"@, id.0) + " not found"@,
            ApplicationError::EndpointNotEnrolled(id) =>
                "endpoint "@ + text::identity_text("EndpointId"@, id.0) + " is not enrolled"@,
            ApplicationError::JobNotFound(id) =>
                "job "@ + text::identity_text("JobId"@, id.0) + " not found"@,
            ApplicationError::JobNotEligibleForAdmission(id) =>
                "job "@ + text::identity_text("JobId"@, id.0) + " is not eligible for admission"@,
            ApplicationError::JobNotRunning(id) =>
                "job "@ + text::identity_text("JobId"@, id.0) + " is not Running"@,
            ApplicationError::JobNotEligibleForCancellation(id) =>
                "job "@ + text::identity_text("JobId"@, id.0)
                    + " is not eligible for a cancellation request"@,
            ApplicationError::JobHasNoUncertainAttempt(id) =>
                "job "@ + text::identity_text("JobId"@, id.0)
                    + " has no attempt currently awaiting reconciliation"@,
            ApplicationError::EndpointNotAvailable => "endpoint already has an active job"@,
            ApplicationError::JobStepNotFound(first, second) =>
                "job step "@ + text::identity_text("JobStepId"@, first.0) + " not found in job "@
                    + text::identity_text("JobId"@, second.0),
            ApplicationError::JobStepNotEligible(id) =>
                "job step "@ + text::identity_text("JobStepId"@, id.0)
                    + " is not eligible for destructive intent authorization"@,
            ApplicationError::JobStepAlreadyAuthorized(id) =>
                "job step "@ + text::identity_text("JobStepId"@, id.0)
                    + " already has a destructive intent"@,
            ApplicationError::JobStepNotCurrent(id) =>
                "job step "@ + text::identity_text("JobStepId"@, id.0)
                    + " is not the current eligible step"@,
            ApplicationError::NoCurrentInventory(id) =>
                "endpoint "@ + text::identity_text("EndpointId"@, id.0)
                    + " has no current durable inventory revision"@,
            ApplicationError::NoCurrentTarget(id) =>
                "endpoint "@ + text::identity_text("EndpointId"@, id.0)
                    + " has no current target fingerprint"@,
            ApplicationError::UnknownAction => "unknown action"@,
            ApplicationError::JobEndpointMismatch(first, second) =>
                "job "@ + text::identity_text("JobId"@, first.0) + " does not target endpoint "@
                    + text::identity_text("EndpointId"@, second.0),
            ApplicationError::TransferNotFound(id) =>
                "transfer "@ + text::identity_text("TransferId"@, id.0) + " not found"@,
            ApplicationError::InvalidTransition(inner) => inner.message@,
            ApplicationError::EmptyWorkflow(inner) => inner.message@,
            ApplicationError::ChunkRecord(inner) => inner.message@,
            ApplicationError::ChunkAccept(inner) => inner.message@,
            ApplicationError::Seal(inner) => inner.message@,
            ApplicationError::ArtifactTransition(inner) => inner.message@,
            ApplicationError::TransferBinding(inner) => inner.message@,
            ApplicationError::Repository(inner) => inner.text(),
        }
    }

    /// The error as a message. Where the error comes from elsewhere, so does the
    /// message.
    pub fn message(&self) -> (r: String)
        ensures
            r@ == self.text(),
    {
        let mut text = String::new();
        match self {
            ApplicationError::EndpointNotFound(id) => {
                text.append("endpoint ");
                append_identity(&mut text, "EndpointId", id.0);
                text.append(" not found");
            },
            ApplicationError::EndpointNotEnrolled(id) => {
                text.append("endpoint ");
                append_identity(&mut text, "EndpointId", id.0);
                text.append(" is not enrolled");
            },
            ApplicationError::JobNotFound(id) => {
                text.append("job ");
                append_identity(&mut text, "JobId", id.0);
                text.append(" not found");
            },
            ApplicationError::JobNotEligibleForAdmission(id) => {
                text.append("job ");
                append_identity(&mut text, "JobId", id.0);
                text.append(" is not eligible for admission");
            },
            ApplicationError::JobNotRunning(id) => {
                text.append("job ");
                append_identity(&mut text, "JobId", id.0);
                text.append(" is not Running");
            },
            ApplicationError::JobNotEligibleForCancellation(id) => {
                text.append("job ");
                append_identity(&mut text, "JobId", id.0);
                text.append(" is not eligible for a cancellation request");
            },
            ApplicationError::JobHasNoUncertainAttempt(id) => {
                text.append("job ");
                append_identity(&mut text, "JobId", id.0);
                text.append(" has no attempt currently awaiting reconciliation");
            },
            ApplicationError::EndpointNotAvailable => {
                text.append("endpoint already has an active job");
            },
            ApplicationError::JobStepNotFound(first, second) => {
                text.append("job step ");
                append_identity(&mut text, "JobStepId", first.0);
                text.append(" not found in job ");
                append_identity(&mut text, "JobId", second.0);
            },
            ApplicationError::JobStepNotEligible(id) => {
                text.append("job step ");
                append_identity(&mut text, "JobStepId", id.0);
                text.append(" is not eligible for destructive intent authorization");
            },
            ApplicationError::JobStepAlreadyAuthorized(id) => {
                text.append("job step ");
                append_identity(&mut text, "JobStepId", id.0);
                text.append(" already has a destructive intent");
            },
            ApplicationError::JobStepNotCurrent(id) => {
                text.append("job step ");
                append_identity(&mut text, "JobStepId", id.0);
                text.append(" is not the current eligible step");
            },
            ApplicationError::NoCurrentInventory(id) => {
                text.append("endpoint ");
                append_identity(&mut text, "EndpointId", id.0);
                text.append(" has no current durable inventory revision");
            },
            ApplicationError::NoCurrentTarget(id) => {
                text.append("endpoint ");
                append_identity(&mut text, "EndpointId", id.0);
                text.append(" has no current target fingerprint");
            },
            ApplicationError::UnknownAction => {
                text.append("unknown action");
            },
            ApplicationError::JobEndpointMismatch(first, second) => {
                text.append("job ");
                append_identity(&mut text, "JobId", first.0);
                text.append(" does not target endpoint ");
                append_identity(&mut text, "EndpointId", second.0);
            },
            ApplicationError::TransferNotFound(id) => {
                text.append("transfer ");
                append_identity(&mut text, "TransferId", id.0);
                text.append(" not found");
            },
            ApplicationError::InvalidTransition(inner) => text.append(inner.message.as_str()),
            ApplicationError::EmptyWorkflow(inner) => text.append(inner.message.as_str()),
            ApplicationError::ChunkRecord(inner) => text.append(inner.message.as_str()),
            ApplicationError::ChunkAccept(inner) => text.append(inner.message.as_str()),
            ApplicationError::Seal(inner) => text.append(inner.message.as_str()),
            ApplicationError::ArtifactTransition(inner) => text.append(inner.message.as_str()),
            ApplicationError::TransferBinding(inner) => text.append(inner.message.as_str()),
            ApplicationError::Repository(inner) => {
                match inner {
                    RepositoryError::Backend(message) => text.append(message.as_str()),
                }
            },
        }
        assert(text@ =~= self.text());
        text
    }
}

/// Refusal to persist a new transfer.
#[derive(Debug)]
pub enum CreateTransferError {
    EndpointNotFound(EndpointId),
    JobNotFound(JobId),
    JobEndpointMismatch(JobId, EndpointId),
    JobStepNotFound(JobStepId, JobId),
    Repository(RepositoryError),
}

impl vstd::std_specs::convert::FromSpecImpl<CreateTransferError> for ApplicationError {
    open spec fn obeys_from_spec() -> bool {
        true
    }

    open spec fn from_spec(err: CreateTransferError) -> ApplicationError {
        match err {
            CreateTransferError::EndpointNotFound(inner) =>
                ApplicationError::EndpointNotFound(inner),
            CreateTransferError::JobNotFound(inner) => ApplicationError::JobNotFound(inner),
            CreateTransferError::JobEndpointMismatch(first, second) =>
                ApplicationError::JobEndpointMismatch(first, second),
            CreateTransferError::JobStepNotFound(first, second) =>
                ApplicationError::JobStepNotFound(first, second),
            CreateTransferError::Repository(inner) => ApplicationError::Repository(inner),
        }
    }
}

impl From<CreateTransferError> for ApplicationError {
    fn from(err: CreateTransferError) -> (r: ApplicationError) {
        match err {
            CreateTransferError::EndpointNotFound(inner) =>
                ApplicationError::EndpointNotFound(inner),
            CreateTransferError::JobNotFound(inner) => ApplicationError::JobNotFound(inner),
            CreateTransferError::JobEndpointMismatch(first, second) =>
                ApplicationError::JobEndpointMismatch(first, second),
            CreateTransferError::JobStepNotFound(first, second) =>
                ApplicationError::JobStepNotFound(first, second),
            CreateTransferError::Repository(inner) => ApplicationError::Repository(inner),
        }
    }
}

/// Refusal to record an expected chunk.
#[derive(Debug)]
pub enum RecordChunkError {
    TransferNotFound(TransferId),
    Domain(DomainFault),
    Repository(RepositoryError),
}

impl vstd::std_specs::convert::FromSpecImpl<RecordChunkError> for ApplicationError {
    open spec fn obeys_from_spec() -> bool {
        true
    }

    open spec fn from_spec(err: RecordChunkError) -> ApplicationError {
        match err {
            RecordChunkError::TransferNotFound(inner) => ApplicationError::TransferNotFound(inner),
            RecordChunkError::Domain(inner) => ApplicationError::ChunkRecord(inner),
            RecordChunkError::Repository(inner) => ApplicationError::Repository(inner),
        }
    }
}

impl From<RecordChunkError> for ApplicationError {
    fn from(err: RecordChunkError) -> (r: ApplicationError) {
        match err {
            RecordChunkError::TransferNotFound(inner) => ApplicationError::TransferNotFound(inner),
            RecordChunkError::Domain(inner) => ApplicationError::ChunkRecord(inner),
            RecordChunkError::Repository(inner) => ApplicationError::Repository(inner),
        }
    }
}

/// Refusal to mark a chunk as held.
#[derive(Debug)]
pub enum AcceptChunkError {
    TransferNotFound(TransferId),
    Domain(DomainFault),
    Repository(RepositoryError),
}

impl vstd::std_specs::convert::FromSpecImpl<AcceptChunkError> for ApplicationError {
    open spec fn obeys_from_spec() -> bool {
        true
    }

    open spec fn from_spec(err: AcceptChunkError) -> ApplicationError {
        match err {
            AcceptChunkError::TransferNotFound(inner) => ApplicationError::TransferNotFound(inner),
            AcceptChunkError::Domain(inner) => ApplicationError::ChunkAccept(inner),
            AcceptChunkError::Repository(inner) => ApplicationError::Repository(inner),
        }
    }
}

impl From<AcceptChunkError> for ApplicationError {
    fn from(err: AcceptChunkError) -> (r: ApplicationError) {
        match err {
            AcceptChunkError::TransferNotFound(inner) => ApplicationError::TransferNotFound(inner),
            AcceptChunkError::Domain(inner) => ApplicationError::ChunkAccept(inner),
            AcceptChunkError::Repository(inner) => ApplicationError::Repository(inner),
        }
    }
}

/// Refusal to seal a manifest.
#[derive(Debug)]
pub enum SealManifestError {
    TransferNotFound(TransferId),
    Domain(DomainFault),
    Repository(RepositoryError),
}

impl vstd::std_specs::convert::FromSpecImpl<SealManifestError> for ApplicationError {
    open spec fn obeys_from_spec() -> bool {
        true
    }

    open spec fn from_spec(err: SealManifestError) -> ApplicationError {
        match err {
            SealManifestError::TransferNotFound(inner) => ApplicationError::TransferNotFound(inner),
            SealManifestError::Domain(inner) => ApplicationError::Seal(inner),
            SealManifestError::Repository(inner) => ApplicationError::Repository(inner),
        }
    }
}

impl From<SealManifestError> for ApplicationError {
    fn from(err: SealManifestError) -> (r: ApplicationError) {
        match err {
            SealManifestError::TransferNotFound(inner) => ApplicationError::TransferNotFound(inner),
            SealManifestError::Domain(inner) => ApplicationError::Seal(inner),
            SealManifestError::Repository(inner) => ApplicationError::Repository(inner),
        }
    }
}

/// Refusal to move an artifact to another state.
#[derive(Debug)]
pub enum ArtifactTransitionRepoError {
    TransferNotFound(TransferId),
    Domain(DomainFault),
    Repository(RepositoryError),
}

impl vstd::std_specs::convert::FromSpecImpl<ArtifactTransitionRepoError> for ApplicationError {
    open spec fn obeys_from_spec() -> bool {
        true
    }

    open spec fn from_spec(err: ArtifactTransitionRepoError) -> ApplicationError {
        match err {
            ArtifactTransitionRepoError::TransferNotFound(inner) =>
                ApplicationError::TransferNotFound(inner),
            ArtifactTransitionRepoError::Domain(inner) =>
                ApplicationError::ArtifactTransition(inner),
            ArtifactTransitionRepoError::Repository(inner) => ApplicationError::Repository(inner),
        }
    }
}

impl From<ArtifactTransitionRepoError> for ApplicationError {
    fn from(err: ArtifactTransitionRepoError) -> (r: ApplicationError) {
        match err {
            ArtifactTransitionRepoError::TransferNotFound(inner) =>
                ApplicationError::TransferNotFound(inner),
            ArtifactTransitionRepoError::Domain(inner) =>
                ApplicationError::ArtifactTransition(inner),
            ArtifactTransitionRepoError::Repository(inner) => ApplicationError::Repository(inner),
        }
    }
}

/// Refusal to bind a transfer to its attempt.
#[derive(Debug)]
pub enum BindAttemptError {
    TransferNotFound(TransferId),
    Domain(DomainFault),
    Repository(RepositoryError),
}

impl vstd::std_specs::convert::FromSpecImpl<BindAttemptError> for ApplicationError {
    open spec fn obeys_from_spec() -> bool {
        true
    }

    open spec fn from_spec(err: BindAttemptError) -> ApplicationError {
        match err {
            BindAttemptError::TransferNotFound(inner) => ApplicationError::TransferNotFound(inner),
            BindAttemptError::Domain(inner) => ApplicationError::TransferBinding(inner),
            BindAttemptError::Repository(inner) => ApplicationError::Repository(inner),
        }
    }
}

impl From<BindAttemptError> for ApplicationError {
    fn from(err: BindAttemptError) -> (r: ApplicationError) {
        match err {
            BindAttemptError::TransferNotFound(inner) => ApplicationError::TransferNotFound(inner),
            BindAttemptError::Domain(inner) => ApplicationError::TransferBinding(inner),
            BindAttemptError::Repository(inner) => ApplicationError::Repository(inner),
        }
    }
}

/// Refusal to admit a job.
#[derive(Debug)]
pub enum AdmitJobError {
    JobNotFound(JobId),
    NotEligible(JobId),
    EndpointNotAvailable,
    Repository(RepositoryError),
}

impl vstd::std_specs::convert::FromSpecImpl<AdmitJobError> for ApplicationError {
    open spec fn obeys_from_spec() -> bool {
        true
    }

    open spec fn from_spec(err: AdmitJobError) -> ApplicationError {
        match err {
            AdmitJobError::JobNotFound(inner) => ApplicationError::JobNotFound(inner),
            AdmitJobError::NotEligible(inner) =>
                ApplicationError::JobNotEligibleForAdmission(inner),
            AdmitJobError::EndpointNotAvailable => ApplicationError::EndpointNotAvailable,
            AdmitJobError::Repository(inner) => ApplicationError::Repository(inner),
        }
    }
}

impl From<AdmitJobError> for ApplicationError {
    fn from(err: AdmitJobError) -> (r: ApplicationError) {
        match err {
            AdmitJobError::JobNotFound(inner) => ApplicationError::JobNotFound(inner),
            AdmitJobError::NotEligible(inner) =>
                ApplicationError::JobNotEligibleForAdmission(inner),
            AdmitJobError::EndpointNotAvailable => ApplicationError::EndpointNotAvailable,
            AdmitJobError::Repository(inner) => ApplicationError::Repository(inner),
        }
    }
}

/// Refusal to advance a job step to satisfied preconditions.
#[derive(Debug)]
pub enum SatisfyStepPreconditionsError {
    JobNotFound(JobId),
    JobNotRunning(JobId),
    JobStepNotFound(JobStepId, JobId),
    NotCurrent(JobStepId),
    Repository(RepositoryError),
}

impl vstd::std_specs::convert::FromSpecImpl<SatisfyStepPreconditionsError> for ApplicationError {
    open spec fn obeys_from_spec() -> bool {
        true
    }

    open spec fn from_spec(err: SatisfyStepPreconditionsError) -> ApplicationError {
        match err {
            SatisfyStepPreconditionsError::JobNotFound(inner) =>
                ApplicationError::JobNotFound(inner),
            SatisfyStepPreconditionsError::JobNotRunning(inner) =>
                ApplicationError::JobNotRunning(inner),
            SatisfyStepPreconditionsError::JobStepNotFound(first, second) =>
                ApplicationError::JobStepNotFound(first, second),
            SatisfyStepPreconditionsError::NotCurrent(inner) =>
                ApplicationError::JobStepNotCurrent(inner),
            SatisfyStepPreconditionsError::Repository(inner) => ApplicationError::Repository(inner),
        }
    }
}

impl From<SatisfyStepPreconditionsError> for ApplicationError {
    fn from(err: SatisfyStepPreconditionsError) -> (r: ApplicationError) {
        match err {
            SatisfyStepPreconditionsError::JobNotFound(inner) =>
                ApplicationError::JobNotFound(inner),
            SatisfyStepPreconditionsError::JobNotRunning(inner) =>
                ApplicationError::JobNotRunning(inner),
            SatisfyStepPreconditionsError::JobStepNotFound(first, second) =>
                ApplicationError::JobStepNotFound(first, second),
            SatisfyStepPreconditionsError::NotCurrent(inner) =>
                ApplicationError::JobStepNotCurrent(inner),
            SatisfyStepPreconditionsError::Repository(inner) => ApplicationError::Repository(inner),
        }
    }
}

/// Refusal to update an endpoint.
#[derive(Debug)]
pub enum EndpointUpdateError {
    NotFound(EndpointId),
    InvalidTransition(DomainFault),
    Repository(RepositoryError),
}

impl vstd::std_specs::convert::FromSpecImpl<EndpointUpdateError> for ApplicationError {
    open spec fn obeys_from_spec() -> bool {
        true
    }

    open spec fn from_spec(err: EndpointUpdateError) -> ApplicationError {
        match err {
            EndpointUpdateError::NotFound(inner) => ApplicationError::EndpointNotFound(inner),
            EndpointUpdateError::InvalidTransition(inner) =>
                ApplicationError::InvalidTransition(inner),
            EndpointUpdateError::Repository(inner) => ApplicationError::Repository(inner),
        }
    }
}

impl From<EndpointUpdateError> for ApplicationError {
    fn from(err: EndpointUpdateError) -> (r: ApplicationError) {
        match err {
            EndpointUpdateError::NotFound(inner) => ApplicationError::EndpointNotFound(inner),
            EndpointUpdateError::InvalidTransition(inner) =>
                ApplicationError::InvalidTransition(inner),
            EndpointUpdateError::Repository(inner) => ApplicationError::Repository(inner),
        }
    }
}

/// Refusal to apply evidence. An action that does not exist and one that belongs
/// to another endpoint are told apart nowhere.
#[derive(Debug)]
pub enum ApplyActionEvidenceError {
    UnknownAction,
    Repository(RepositoryError),
}

impl vstd::std_specs::convert::FromSpecImpl<ApplyActionEvidenceError> for ApplicationError {
    open spec fn obeys_from_spec() -> bool {
        true
    }

    open spec fn from_spec(err: ApplyActionEvidenceError) -> ApplicationError {
        match err {
            ApplyActionEvidenceError::UnknownAction => ApplicationError::UnknownAction,
            ApplyActionEvidenceError::Repository(inner) => ApplicationError::Repository(inner),
        }
    }
}

impl From<ApplyActionEvidenceError> for ApplicationError {
    fn from(err: ApplyActionEvidenceError) -> (r: ApplicationError) {
        match err {
            ApplyActionEvidenceError::UnknownAction => ApplicationError::UnknownAction,
            ApplyActionEvidenceError::Repository(inner) => ApplicationError::Repository(inner),
        }
    }
}

/// Refusal of a cancellation request.
#[derive(Debug)]
pub enum RequestCancellationError {
    JobNotFound(JobId),
    NotEligible(JobId),
    Repository(RepositoryError),
}

impl vstd::std_specs::convert::FromSpecImpl<RequestCancellationError> for ApplicationError {
    open spec fn obeys_from_spec() -> bool {
        true
    }

    open spec fn from_spec(err: RequestCancellationError) -> ApplicationError {
        match err {
            RequestCancellationError::JobNotFound(inner) => ApplicationError::JobNotFound(inner),
            RequestCancellationError::NotEligible(inner) =>
                ApplicationError::JobNotEligibleForCancellation(inner),
            RequestCancellationError::Repository(inner) => ApplicationError::Repository(inner),
        }
    }
}

impl From<RequestCancellationError> for ApplicationError {
    fn from(err: RequestCancellationError) -> (r: ApplicationError) {
        match err {
            RequestCancellationError::JobNotFound(inner) => ApplicationError::JobNotFound(inner),
            RequestCancellationError::NotEligible(inner) =>
                ApplicationError::JobNotEligibleForCancellation(inner),
            RequestCancellationError::Repository(inner) => ApplicationError::Repository(inner),
        }
    }
}

/// Refusal to persist a new workflow.
#[derive(Debug)]
pub enum CreateWorkflowError {
    EndpointNotFound(EndpointId),
    EndpointNotEnrolled(EndpointId),
    Repository(RepositoryError),
}

impl vstd::std_specs::convert::FromSpecImpl<CreateWorkflowError> for ApplicationError {
    open spec fn obeys_from_spec() -> bool {
        true
    }

    open spec fn from_spec(err: CreateWorkflowError) -> ApplicationError {
        match err {
            CreateWorkflowError::EndpointNotFound(inner) =>
                ApplicationError::EndpointNotFound(inner),
            CreateWorkflowError::EndpointNotEnrolled(inner) =>
                ApplicationError::EndpointNotEnrolled(inner),
            CreateWorkflowError::Repository(inner) => ApplicationError::Repository(inner),
        }
    }
}

impl From<CreateWorkflowError> for ApplicationError {
    fn from(err: CreateWorkflowError) -> (r: ApplicationError) {
        match err {
            CreateWorkflowError::EndpointNotFound(inner) =>
                ApplicationError::EndpointNotFound(inner),
            CreateWorkflowError::EndpointNotEnrolled(inner) =>
                ApplicationError::EndpointNotEnrolled(inner),
            CreateWorkflowError::Repository(inner) => ApplicationError::Repository(inner),
        }
    }
}

/// Refusal to authorize a destructive step.
#[derive(Debug)]
pub enum AuthorizeDestructiveIntentError {
    JobStepNotFound(JobStepId, JobId),
    NotEligible(JobStepId),
    AlreadyAuthorized(JobStepId),
    Repository(RepositoryError),
}

impl vstd::std_specs::convert::FromSpecImpl<AuthorizeDestructiveIntentError> for ApplicationError {
    open spec fn obeys_from_spec() -> bool {
        true
    }

    open spec fn from_spec(err: AuthorizeDestructiveIntentError) -> ApplicationError {
        match err {
            AuthorizeDestructiveIntentError::JobStepNotFound(first, second) =>
                ApplicationError::JobStepNotFound(first, second),
            AuthorizeDestructiveIntentError::NotEligible(inner) =>
                ApplicationError::JobStepNotEligible(inner),
            AuthorizeDestructiveIntentError::AlreadyAuthorized(inner) =>
                ApplicationError::JobStepAlreadyAuthorized(inner),
            AuthorizeDestructiveIntentError::Repository(inner) =>
                ApplicationError::Repository(inner),
        }
    }
}

impl From<AuthorizeDestructiveIntentError> for ApplicationError {
    fn from(err: AuthorizeDestructiveIntentError) -> (r: ApplicationError) {
        match err {
            AuthorizeDestructiveIntentError::JobStepNotFound(first, second) =>
                ApplicationError::JobStepNotFound(first, second),
            AuthorizeDestructiveIntentError::NotEligible(inner) =>
                ApplicationError::JobStepNotEligible(inner),
            AuthorizeDestructiveIntentError::AlreadyAuthorized(inner) =>
                ApplicationError::JobStepAlreadyAuthorized(inner),
            AuthorizeDestructiveIntentError::Repository(inner) =>
                ApplicationError::Repository(inner),
        }
    }
}

/// Refusal to close an attempt as indeterminate.
#[derive(Debug)]
pub enum CloseIndeterminateError {
    JobNotFound(JobId),
    NoUncertainAttempt(JobId),
    Repository(RepositoryError),
}

impl vstd::std_specs::convert::FromSpecImpl<CloseIndeterminateError> for ApplicationError {
    open spec fn obeys_from_spec() -> bool {
        true
    }

    open spec fn from_spec(err: CloseIndeterminateError) -> ApplicationError {
        match err {
            CloseIndeterminateError::JobNotFound(inner) => ApplicationError::JobNotFound(inner),
            CloseIndeterminateError::NoUncertainAttempt(inner) =>
                ApplicationError::JobHasNoUncertainAttempt(inner),
            CloseIndeterminateError::Repository(inner) => ApplicationError::Repository(inner),
        }
    }
}

impl From<CloseIndeterminateError> for ApplicationError {
    fn from(err: CloseIndeterminateError) -> (r: ApplicationError) {
        match err {
            CloseIndeterminateError::JobNotFound(inner) => ApplicationError::JobNotFound(inner),
            CloseIndeterminateError::NoUncertainAttempt(inner) =>
                ApplicationError::JobHasNoUncertainAttempt(inner),
            CloseIndeterminateError::Repository(inner) => ApplicationError::Repository(inner),
        }
    }
}

/// The refusal of a transfer is reported as what it is, of the same things.
pub proof fn transfer_refusal_is_reported_as_it_is(err: CreateTransferError, r: ApplicationError)
    requires
        call_ensures(<ApplicationError as From<CreateTransferError>>::from, (err,), r),
    ensures
        err matches CreateTransferError::EndpointNotFound(inner) ==> r == ApplicationError::EndpointNotFound(inner),
        err matches CreateTransferError::JobNotFound(inner) ==> r == ApplicationError::JobNotFound(inner),
        err matches CreateTransferError::JobEndpointMismatch(first, second) ==> r == ApplicationError::JobEndpointMismatch(first, second),
        err matches CreateTransferError::JobStepNotFound(first, second) ==> r == ApplicationError::JobStepNotFound(first, second),
        err matches CreateTransferError::Repository(inner) ==> r == ApplicationError::Repository(inner),
{
}

/// The refusal of an expected chunk is reported as what it is, of the same things.
pub proof fn recording_refusal_is_reported_as_it_is(err: RecordChunkError, r: ApplicationError)
    requires
        call_ensures(<ApplicationError as From<RecordChunkError>>::from, (err,), r),
    ensures
        err matches RecordChunkError::TransferNotFound(inner) ==> r == ApplicationError::TransferNotFound(inner),
        err matches RecordChunkError::Domain(inner) ==> r == ApplicationError::ChunkRecord(inner),
        err matches RecordChunkError::Repository(inner) ==> r == ApplicationError::Repository(inner),
{
}

/// The refusal of a verified chunk is reported as what it is, of the same things.
pub proof fn acceptance_refusal_is_reported_as_it_is(err: AcceptChunkError, r: ApplicationError)
    requires
        call_ensures(<ApplicationError as From<AcceptChunkError>>::from, (err,), r),
    ensures
        err matches AcceptChunkError::TransferNotFound(inner) ==> r == ApplicationError::TransferNotFound(inner),
        err matches AcceptChunkError::Domain(inner) ==> r == ApplicationError::ChunkAccept(inner),
        err matches AcceptChunkError::Repository(inner) ==> r == ApplicationError::Repository(inner),
{
}

/// The refusal of a seal is reported as what it is, of the same things.
pub proof fn seal_refusal_is_reported_as_it_is(err: SealManifestError, r: ApplicationError)
    requires
        call_ensures(<ApplicationError as From<SealManifestError>>::from, (err,), r),
    ensures
        err matches SealManifestError::TransferNotFound(inner) ==> r == ApplicationError::TransferNotFound(inner),
        err matches SealManifestError::Domain(inner) ==> r == ApplicationError::Seal(inner),
        err matches SealManifestError::Repository(inner) ==> r == ApplicationError::Repository(inner),
{
}

/// The refusal of an artifact's change is reported as what it is, of the same things.
pub proof fn artifact_refusal_is_reported_as_it_is(err: ArtifactTransitionRepoError, r: ApplicationError)
    requires
        call_ensures(<ApplicationError as From<ArtifactTransitionRepoError>>::from, (err,), r),
    ensures
        err matches ArtifactTransitionRepoError::TransferNotFound(inner) ==> r == ApplicationError::TransferNotFound(inner),
        err matches ArtifactTransitionRepoError::Domain(inner) ==> r == ApplicationError::ArtifactTransition(inner),
        err matches ArtifactTransitionRepoError::Repository(inner) ==> r == ApplicationError::Repository(inner),
{
}

/// The refusal of a binding is reported as what it is, of the same things.
pub proof fn binding_refusal_is_reported_as_it_is(err: BindAttemptError, r: ApplicationError)
    requires
        call_ensures(<ApplicationError as From<BindAttemptError>>::from, (err,), r),
    ensures
        err matches BindAttemptError::TransferNotFound(inner) ==> r == ApplicationError::TransferNotFound(inner),
        err matches BindAttemptError::Domain(inner) ==> r == ApplicationError::TransferBinding(inner),
        err matches BindAttemptError::Repository(inner) ==> r == ApplicationError::Repository(inner),
{
}

/// The refusal of an admission is reported as what it is, of the same things.
pub proof fn admission_refusal_is_reported_as_it_is(err: AdmitJobError, r: ApplicationError)
    requires
        call_ensures(<ApplicationError as From<AdmitJobError>>::from, (err,), r),
    ensures
        err matches AdmitJobError::JobNotFound(inner) ==> r == ApplicationError::JobNotFound(inner),
        err matches AdmitJobError::NotEligible(inner) ==> r == ApplicationError::JobNotEligibleForAdmission(inner),
        err is EndpointNotAvailable ==> r is EndpointNotAvailable,
        err matches AdmitJobError::Repository(inner) ==> r == ApplicationError::Repository(inner),
{
}

/// The refusal of a step's preconditions is reported as what it is, of the same things.
pub proof fn preconditions_refusal_is_reported_as_it_is(err: SatisfyStepPreconditionsError, r: ApplicationError)
    requires
        call_ensures(<ApplicationError as From<SatisfyStepPreconditionsError>>::from, (err,), r),
    ensures
        err matches SatisfyStepPreconditionsError::JobNotFound(inner) ==> r == ApplicationError::JobNotFound(inner),
        err matches SatisfyStepPreconditionsError::JobNotRunning(inner) ==> r == ApplicationError::JobNotRunning(inner),
        err matches SatisfyStepPreconditionsError::JobStepNotFound(first, second) ==> r == ApplicationError::JobStepNotFound(first, second),
        err matches SatisfyStepPreconditionsError::NotCurrent(inner) ==> r == ApplicationError::JobStepNotCurrent(inner),
        err matches SatisfyStepPreconditionsError::Repository(inner) ==> r == ApplicationError::Repository(inner),
{
}

/// The refusal of an endpoint's change is reported as what it is, of the same things.
pub proof fn endpoint_refusal_is_reported_as_it_is(err: EndpointUpdateError, r: ApplicationError)
    requires
        call_ensures(<ApplicationError as From<EndpointUpdateError>>::from, (err,), r),
    ensures
        err matches EndpointUpdateError::NotFound(inner) ==> r == ApplicationError::EndpointNotFound(inner),
        err matches EndpointUpdateError::InvalidTransition(inner) ==> r == ApplicationError::InvalidTransition(inner),
        err matches EndpointUpdateError::Repository(inner) ==> r == ApplicationError::Repository(inner),
{
}

/// The refusal of evidence is reported as what it is, of the same things.
pub proof fn evidence_refusal_is_reported_as_it_is(err: ApplyActionEvidenceError, r: ApplicationError)
    requires
        call_ensures(<ApplicationError as From<ApplyActionEvidenceError>>::from, (err,), r),
    ensures
        err is UnknownAction ==> r is UnknownAction,
        err matches ApplyActionEvidenceError::Repository(inner) ==> r == ApplicationError::Repository(inner),
{
}

/// The refusal of a cancellation is reported as what it is, of the same things.
pub proof fn cancellation_refusal_is_reported_as_it_is(err: RequestCancellationError, r: ApplicationError)
    requires
        call_ensures(<ApplicationError as From<RequestCancellationError>>::from, (err,), r),
    ensures
        err matches RequestCancellationError::JobNotFound(inner) ==> r == ApplicationError::JobNotFound(inner),
        err matches RequestCancellationError::NotEligible(inner) ==> r == ApplicationError::JobNotEligibleForCancellation(inner),
        err matches RequestCancellationError::Repository(inner) ==> r == ApplicationError::Repository(inner),
{
}

/// The refusal of a workflow is reported as what it is, of the same things.
pub proof fn workflow_refusal_is_reported_as_it_is(err: CreateWorkflowError, r: ApplicationError)
    requires
        call_ensures(<ApplicationError as From<CreateWorkflowError>>::from, (err,), r),
    ensures
        err matches CreateWorkflowError::EndpointNotFound(inner) ==> r == ApplicationError::EndpointNotFound(inner),
        err matches CreateWorkflowError::EndpointNotEnrolled(inner) ==> r == ApplicationError::EndpointNotEnrolled(inner),
        err matches CreateWorkflowError::Repository(inner) ==> r == ApplicationError::Repository(inner),
{
}

/// The refusal of an authorization is reported as what it is, of the same things.
pub proof fn intent_refusal_is_reported_as_it_is(err: AuthorizeDestructiveIntentError, r: ApplicationError)
    requires
        call_ensures(<ApplicationError as From<AuthorizeDestructiveIntentError>>::from, (err,), r),
    ensures
        err matches AuthorizeDestructiveIntentError::JobStepNotFound(first, second) ==> r == ApplicationError::JobStepNotFound(first, second),
        err matches AuthorizeDestructiveIntentError::NotEligible(inner) ==> r == ApplicationError::JobStepNotEligible(inner),
        err matches AuthorizeDestructiveIntentError::AlreadyAuthorized(inner) ==> r == ApplicationError::JobStepAlreadyAuthorized(inner),
        err matches AuthorizeDestructiveIntentError::Repository(inner) ==> r == ApplicationError::Repository(inner),
{
}

/// The refusal to close an attempt is reported as what it is, of the same things.
pub proof fn closing_refusal_is_reported_as_it_is(err: CloseIndeterminateError, r: ApplicationError)
    requires
        call_ensures(<ApplicationError as From<CloseIndeterminateError>>::from, (err,), r),
    ensures
        err matches CloseIndeterminateError::JobNotFound(inner) ==> r == ApplicationError::JobNotFound(inner),
        err matches CloseIndeterminateError::NoUncertainAttempt(inner) ==> r == ApplicationError::JobHasNoUncertainAttempt(inner),
        err matches CloseIndeterminateError::Repository(inner) ==> r == ApplicationError::Repository(inner),
{
}

/// An error is worded by what it is, and names what it is about.
pub proof fn errors_are_worded_by_what_they_are(error: ApplicationError, r: String)
    requires
        call_ensures(ApplicationError::message, (&error,), r),
    ensures
        error matches ApplicationError::EndpointNotFound(id) ==> r@ == "endpoint "@ + text::identity_text("EndpointId"@, id.0) + " not found"@,
        error matches ApplicationError::EndpointNotEnrolled(id) ==> r@ == "endpoint "@ + text::identity_text("EndpointId"@, id.0) + " is not enrolled"@,
        error matches ApplicationError::JobNotFound(id) ==> r@ == "job "@ + text::identity_text("JobId"@, id.0) + " not found"@,
        error matches ApplicationError::JobNotEligibleForAdmission(id) ==> r@ == "job "@ + text::identity_text("JobId"@, id.0) + " is not eligible for admission"@,
        error matches ApplicationError::JobNotRunning(id) ==> r@ == "job "@ + text::identity_text("JobId"@, id.0) + " is not Running"@,
        error matches ApplicationError::JobNotEligibleForCancellation(id) ==> r@ == "job "@ + text::identity_text("JobId"@, id.0) + " is not eligible for a cancellation request"@,
        error matches ApplicationError::JobHasNoUncertainAttempt(id) ==> r@ == "job "@ + text::identity_text("JobId"@, id.0) + " has no attempt currently awaiting reconciliation"@,
        error is EndpointNotAvailable ==> r@ == "endpoint already has an active job"@,
        error matches ApplicationError::JobStepNotFound(first, second) ==> r@ == "job step "@ + text::identity_text("JobStepId"@, first.0) + " not found in job "@ + text::identity_text("JobId"@, second.0),
        error matches ApplicationError::JobStepNotEligible(id) ==> r@ == "job step "@ + text::identity_text("JobStepId"@, id.0) + " is not eligible for destructive intent authorization"@,
        error matches ApplicationError::JobStepAlreadyAuthorized(id) ==> r@ == "job step "@ + text::identity_text("JobStepId"@, id.0) + " already has a destructive intent"@,
        error matches ApplicationError::JobStepNotCurrent(id) ==> r@ == "job step "@ + text::identity_text("JobStepId"@, id.0) + " is not the current eligible step"@,
        error matches ApplicationError::NoCurrentInventory(id) ==> r@ == "endpoint "@ + text::identity_text("EndpointId"@, id.0) + " has no current durable inventory revision"@,
        error matches ApplicationError::NoCurrentTarget(id) ==> r@ == "endpoint "@ + text::identity_text("EndpointId"@, id.0) + " has no current target fingerprint"@,
        error is UnknownAction ==> r@ == "unknown action"@,
        error matches ApplicationError::JobEndpointMismatch(first, second) ==> r@ == "job "@ + text::identity_text("JobId"@, first.0) + " does not target endpoint "@ + text::identity_text("EndpointId"@, second.0),
        error matches ApplicationError::TransferNotFound(id) ==> r@ == "transfer "@ + text::identity_text("TransferId"@, id.0) + " not found"@,
        error matches ApplicationError::InvalidTransition(inner) ==> r@ == inner.message@,
        error matches ApplicationError::EmptyWorkflow(inner) ==> r@ == inner.message@,
        error matches ApplicationError::ChunkRecord(inner) ==> r@ == inner.message@,
        error matches ApplicationError::ChunkAccept(inner) ==> r@ == inner.message@,
        error matches ApplicationError::Seal(inner) ==> r@ == inner.message@,
        error matches ApplicationError::ArtifactTransition(inner) ==> r@ == inner.message@,
        error matches ApplicationError::TransferBinding(inner) ==> r@ == inner.message@,
        error matches ApplicationError::Repository(inner) ==> r@ == inner->Backend_0@,
{
}

/// A failure of the storage is in its own words.
pub proof fn storage_failure_is_in_its_own_words(message: &str, r: RepositoryError)
    requires
        call_ensures(RepositoryError::backend, (message,), r),
    ensures
        r matches RepositoryError::Backend(text) && text@ == message@,
{
}

} // verus!
