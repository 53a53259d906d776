use bamep_server::action_detail::TransferResultDetailError;
use bamep_server::errors::{
    AdmitJobError, ApplicationError, AuthorizeDestructiveIntentError, CloseIndeterminateError,
    CreateWorkflowError, DomainFault, EndpointUpdateError, RepositoryError,
    RequestCancellationError, SatisfyStepPreconditionsError,
};
use bamep_server::ids::{EndpointId, JobId, JobStepId, TransferId};

const ENDPOINT: EndpointId = EndpointId(0xe);
const JOB: JobId = JobId(0x1);
const STEP: JobStepId = JobStepId(0x5);

fn fault() -> DomainFault {
    DomainFault { message: "in its own words".to_string() }
}

#[test]
fn every_error_is_worded() {
    let endpoint = "EndpointId(00000000-0000-0000-0000-00000000000e)";
    let job = "JobId(00000000-0000-0000-0000-000000000001)";
    let step = "JobStepId(00000000-0000-0000-0000-000000000005)";
    for (error, words) in [
        (ApplicationError::EndpointNotFound(ENDPOINT), format!("endpoint {} not found", endpoint)),
        (
            ApplicationError::EndpointNotEnrolled(ENDPOINT),
            format!("endpoint {} is not enrolled", endpoint),
        ),
        (ApplicationError::JobNotFound(JOB), format!("job {} not found", job)),
        (
            ApplicationError::JobNotEligibleForAdmission(JOB),
            format!("job {} is not eligible for admission", job),
        ),
        (ApplicationError::JobNotRunning(JOB), format!("job {} is not Running", job)),
        (
            ApplicationError::JobNotEligibleForCancellation(JOB),
            format!("job {} is not eligible for a cancellation request", job),
        ),
        (
            ApplicationError::JobHasNoUncertainAttempt(JOB),
            format!("job {} has no attempt currently awaiting reconciliation", job),
        ),
        (
            ApplicationError::EndpointNotAvailable,
            "endpoint already has an active job".to_string(),
        ),
        (
            ApplicationError::JobStepNotFound(STEP, JOB),
            format!("job step {} not found in job {}", step, job),
        ),
        (
            ApplicationError::JobStepNotEligible(STEP),
            format!("job step {} is not eligible for destructive intent authorization", step),
        ),
        (
            ApplicationError::JobStepAlreadyAuthorized(STEP),
            format!("job step {} already has a destructive intent", step),
        ),
        (
            ApplicationError::JobStepNotCurrent(STEP),
            format!("job step {} is not the current eligible step", step),
        ),
        (
            ApplicationError::NoCurrentInventory(ENDPOINT),
            format!("endpoint {} has no current durable inventory revision", endpoint),
        ),
        (
            ApplicationError::NoCurrentTarget(ENDPOINT),
            format!("endpoint {} has no current target fingerprint", endpoint),
        ),
        (ApplicationError::UnknownAction, "unknown action".to_string()),
        (
            ApplicationError::JobEndpointMismatch(JOB, ENDPOINT),
            format!("job {} does not target endpoint {}", job, endpoint),
        ),
        (
            ApplicationError::TransferNotFound(TransferId(3)),
            "transfer TransferId(00000000-0000-0000-0000-000000000003) not found".to_string(),
        ),
        (ApplicationError::InvalidTransition(fault()), "in its own words".to_string()),
        (ApplicationError::EmptyWorkflow(fault()), "in its own words".to_string()),
        (ApplicationError::Seal(fault()), "in its own words".to_string()),
        (
            ApplicationError::Repository(RepositoryError::Backend("down".to_string())),
            "down".to_string(),
        ),
    ] {
        assert_eq!(error.message(), words);
    }
}

#[test]
fn details_are_refused_in_words() {
    assert_eq!(
        TransferResultDetailError::MissingCode.message(),
        "detail.code is missing or not a string"
    );
    assert_eq!(
        TransferResultDetailError::UnknownCode.message(),
        "detail.code is not a recognized bamep.m1.data-plane-transfer code"
    );
    assert_eq!(
        TransferResultDetailError::OutcomeCodeMismatch.message(),
        "detail.code is not valid for this ActionResult.outcome"
    );
    assert_eq!(
        TransferResultDetailError::MissingArtifactId.message(),
        "detail.artifact_id is missing or not a string"
    );
    assert_eq!(
        TransferResultDetailError::MalformedArtifactId.message(),
        "detail.artifact_id is not a canonical lowercase-hyphenated UUID"
    );
}

#[test]
fn what_a_port_refuses_keeps_its_subject() {
    let told = |error: ApplicationError| error.message();
    assert!(matches!(
        ApplicationError::from(AdmitJobError::NotEligible(JOB)),
        ApplicationError::JobNotEligibleForAdmission(JOB)
    ));
    assert!(matches!(
        ApplicationError::from(SatisfyStepPreconditionsError::NotCurrent(STEP)),
        ApplicationError::JobStepNotCurrent(STEP)
    ));
    assert!(matches!(
        ApplicationError::from(EndpointUpdateError::NotFound(ENDPOINT)),
        ApplicationError::EndpointNotFound(ENDPOINT)
    ));
    assert_eq!(
        told(EndpointUpdateError::InvalidTransition(fault()).into()),
        "in its own words"
    );
    assert!(matches!(
        ApplicationError::from(RequestCancellationError::NotEligible(JOB)),
        ApplicationError::JobNotEligibleForCancellation(JOB)
    ));
    assert!(matches!(
        ApplicationError::from(CreateWorkflowError::EndpointNotEnrolled(ENDPOINT)),
        ApplicationError::EndpointNotEnrolled(ENDPOINT)
    ));
    assert!(matches!(
        ApplicationError::from(AuthorizeDestructiveIntentError::AlreadyAuthorized(STEP)),
        ApplicationError::JobStepAlreadyAuthorized(STEP)
    ));
    assert!(matches!(
        ApplicationError::from(CloseIndeterminateError::NoUncertainAttempt(JOB)),
        ApplicationError::JobHasNoUncertainAttempt(JOB)
    ));
    assert_eq!(
        told(
            CloseIndeterminateError::Repository(RepositoryError::Backend("down".to_string()))
                .into()
        ),
        "down"
    );
}
