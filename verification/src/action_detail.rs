//! The typed actions that are dispatched to agents: the parameters they are
//! sent with and the result details that come back.

use vstd::prelude::*;
use crate::ids::{self, hyphenated, parse_canonical_uuid};
use crate::json::{self, insert_text, insert_unsigned, json_object, json_text, JsonMember};
use crate::model::{DigestAlgorithm, Transfer, TransferDirection};
use crate::text::same_text;

verus! {

pub const M1_SIMULATED_EXECUTION_ACTION_TYPE: &'static str = "bamep.m1.simulated-execution";

pub const M1_SIMULATED_EXECUTION_ACTION_VERSION: &'static str = "1";

pub const M1_DATA_PLANE_TRANSFER_ACTION_TYPE: &'static str = "bamep.m1.data-plane-transfer";

pub const M1_DATA_PLANE_TRANSFER_ACTION_VERSION: &'static str = "1";

/// The wire name of a transfer direction.
pub open spec fn direction_text(direction: TransferDirection) -> Seq<char> {
    match direction {
        TransferDirection::AgentToServer => "agent_to_server"@,
    }
}

/// The wire name of a digest algorithm.
pub open spec fn digest_algorithm_text(algorithm: DigestAlgorithm) -> Seq<char> {
    match algorithm {
        DigestAlgorithm::Sha256 => "sha256"@,
    }
}

/// The parameters of a data-plane transfer, all of them taken from the durable
/// transfer.
pub open spec fn transfer_parameters(transfer: &Transfer) -> Map<Seq<char>, JsonMember> {
    Map::empty().insert(
        "transfer_id"@,
        JsonMember::Text(ids::hyphenated_text(transfer.id.0)),
    ).insert("artifact_id"@, JsonMember::Text(ids::hyphenated_text(transfer.artifact_id.0))).insert(
        "direction"@,
        JsonMember::Text(direction_text(transfer.direction)),
    ).insert(
        "digest_algorithm"@,
        JsonMember::Text(digest_algorithm_text(transfer.digest_algorithm)),
    ).insert("chunk_size"@, JsonMember::Unsigned(transfer.chunk_size as nat))
}

/// Builds the parameters object of a data-plane transfer action.
pub fn transfer_action_parameters(transfer: &Transfer) -> (r: serde_json::Map<
    String,
    serde_json::Value,
>)
    ensures
        json::json_members(r) == transfer_parameters(transfer),
{
    let direction = match transfer.direction {
        TransferDirection::AgentToServer => "agent_to_server",
    };
    let digest_algorithm = match transfer.digest_algorithm {
        DigestAlgorithm::Sha256 => "sha256",
    };
    let mut parameters = json_object();
    insert_text(&mut parameters, "transfer_id", hyphenated(transfer.id.0).as_str());
    insert_text(&mut parameters, "artifact_id", hyphenated(transfer.artifact_id.0).as_str());
    insert_text(&mut parameters, "direction", direction);
    insert_text(&mut parameters, "digest_algorithm", digest_algorithm);
    insert_unsigned(&mut parameters, "chunk_size", transfer.chunk_size as u64);
    parameters
}

/// How an agent says an action ended.
#[derive(Clone, Copy, Debug, PartialEq, Eq, Structural)]
pub enum ActionResultOutcome {
    Succeeded,
    Failed,
    Cancelled,
}

/// The code that a simulated execution reports for an outcome, where it reports
/// one at all.
pub open spec fn simulated_code(outcome: ActionResultOutcome) -> Option<Seq<char>> {
    match outcome {
        ActionResultOutcome::Succeeded => Some("SIMULATED_COMPLETION"@),
        ActionResultOutcome::Failed => Some("SIMULATED_FAILURE"@),
        ActionResultOutcome::Cancelled => None,
    }
}

/// Whether `detail` is what a simulated execution reports for `outcome`: its
/// `code` is the outcome's code. Members besides `code` are of no account, and
/// `Cancelled` is never reported this way.
pub fn m1_result_detail_matches(
    outcome: ActionResultOutcome,
    detail: &serde_json::Map<String, serde_json::Value>,
) -> (r: bool)
    ensures
        r <==> simulated_code(outcome) is Some && json::member_text(json::json_members(*detail), "code"@)
            == simulated_code(outcome),
{
    let expected_code = match outcome {
        ActionResultOutcome::Succeeded => "SIMULATED_COMPLETION",
        ActionResultOutcome::Failed => "SIMULATED_FAILURE",
        ActionResultOutcome::Cancelled => {
            return false;
        },
    };
    match json_text(detail, "code") {
        Some(code) => same_text(code.as_str(), expected_code),
        None => false,
    }
}

/// The codes that a data-plane transfer can report.
#[derive(Clone, Copy, Debug, PartialEq, Eq, Structural)]
pub enum TransferResultCode {
    /// The artifact was sealed and verified.
    TransferVerified,
    /// The artifact was sealed, and its verification failed.
    ArtifactVerificationFailed,
    /// A required chunk could not be reproduced or verified.
    ChunkVerificationFailed,
    /// The capture was abandoned before it was complete.
    TransferAbandoned,
}

/// A result detail of a data-plane transfer whose shape is right.
#[derive(Clone, Copy, Debug, PartialEq, Eq, Structural)]
pub struct TransferResultDetail {
    pub code: TransferResultCode,
    pub artifact_id: u128,
}

/// What is wrong with the shape of a result detail.
#[derive(Clone, Copy, Debug, PartialEq, Eq, Structural)]
pub enum TransferResultDetailError {
    MissingCode,
    UnknownCode,
    OutcomeCodeMismatch,
    MissingArtifactId,
    MalformedArtifactId,
}

impl TransferResultDetailError {
    pub open spec fn text(self) -> Seq<char> {
        match self {
            TransferResultDetailError::MissingCode => "detail.code is missing or not a string"@,
            TransferResultDetailError::UnknownCode =>
                "detail.code is not a recognized bamep.m1.data-plane-transfer code"@,
            TransferResultDetailError::OutcomeCodeMismatch =>
                "detail.code is not valid for this ActionResult.outcome"@,
            TransferResultDetailError::MissingArtifactId =>
                "detail.artifact_id is missing or not a string"@,
            TransferResultDetailError::MalformedArtifactId =>
                "detail.artifact_id is not a canonical lowercase-hyphenated UUID"@,
        }
    }

    pub fn message(self) -> (r: &'static str)
        ensures
            r@ == self.text(),
    {
        match self {
            TransferResultDetailError::MissingCode => "detail.code is missing or not a string",
            TransferResultDetailError::UnknownCode =>
                "detail.code is not a recognized bamep.m1.data-plane-transfer code",
            TransferResultDetailError::OutcomeCodeMismatch =>
                "detail.code is not valid for this ActionResult.outcome",
            TransferResultDetailError::MissingArtifactId =>
                "detail.artifact_id is missing or not a string",
            TransferResultDetailError::MalformedArtifactId =>
                "detail.artifact_id is not a canonical lowercase-hyphenated UUID",
        }
    }
}

/// The wire spelling of a code.
pub open spec fn code_text(code: TransferResultCode) -> Seq<char> {
    match code {
        TransferResultCode::TransferVerified => "TRANSFER_VERIFIED"@,
        TransferResultCode::ArtifactVerificationFailed => "ARTIFACT_VERIFICATION_FAILED"@,
        TransferResultCode::ChunkVerificationFailed => "CHUNK_VERIFICATION_FAILED"@,
        TransferResultCode::TransferAbandoned => "TRANSFER_ABANDONED"@,
    }
}

/// No two codes are spelled alike.
pub proof fn codes_are_spelled_apart(first: TransferResultCode, second: TransferResultCode)
    ensures
        code_text(first) == code_text(second) ==> first == second,
{
    reveal_strlit("TRANSFER_VERIFIED");
    reveal_strlit("ARTIFACT_VERIFICATION_FAILED");
    reveal_strlit("CHUNK_VERIFICATION_FAILED");
    reveal_strlit("TRANSFER_ABANDONED");
    assert("TRANSFER_VERIFIED"@[0] == 'T');
    assert("TRANSFER_VERIFIED"@.len() == 17);
    assert("TRANSFER_ABANDONED"@.len() == 18);
    assert("ARTIFACT_VERIFICATION_FAILED"@[0] == 'A');
    assert("CHUNK_VERIFICATION_FAILED"@[0] == 'C');
}

/// Success is reported with the one success code, failure with one of the
/// three others, and cancellation with none.
pub open spec fn code_suits(outcome: ActionResultOutcome, code: TransferResultCode) -> bool {
    match outcome {
        ActionResultOutcome::Succeeded => code is TransferVerified,
        ActionResultOutcome::Failed => code !is TransferVerified,
        ActionResultOutcome::Cancelled => false,
    }
}

/// What reading `members` as a result detail for `outcome` yields.
pub open spec fn detail_reads_as(
    outcome: ActionResultOutcome,
    members: Map<Seq<char>, JsonMember>,
    r: Result<TransferResultDetail, TransferResultDetailError>,
) -> bool {
    let code = json::member_text(members, "code"@);
    let artifact_id = json::member_text(members, "artifact_id"@);
    match r {
        Ok(detail) => {
            &&& code == Some(code_text(detail.code))
            &&& code_suits(outcome, detail.code)
            &&& artifact_id == Some(ids::hyphenated_text(detail.artifact_id))
        },
        Err(TransferResultDetailError::MissingCode) => code is None,
        Err(TransferResultDetailError::UnknownCode) => {
            &&& code is Some
            &&& forall|known: TransferResultCode| code != Some(#[trigger] code_text(known))
        },
        Err(TransferResultDetailError::OutcomeCodeMismatch) => {
            exists|known: TransferResultCode|
                code == Some(#[trigger] code_text(known)) && !code_suits(outcome, known)
        },
        Err(TransferResultDetailError::MissingArtifactId) => {
            &&& exists|known: TransferResultCode|
                code == Some(#[trigger] code_text(known)) && code_suits(outcome, known)
            &&& artifact_id is None
        },
        Err(TransferResultDetailError::MalformedArtifactId) => {
            &&& exists|known: TransferResultCode|
                code == Some(#[trigger] code_text(known)) && code_suits(outcome, known)
            &&& artifact_id is Some
            &&& forall|id: u128| artifact_id != Some(#[trigger] ids::hyphenated_text(id))
        },
    }
}

fn parse_code(text: &str) -> (r: Option<TransferResultCode>)
    ensures
        r matches Some(code) ==> text@ == code_text(code),
        r is None ==> forall|code: TransferResultCode| text@ != #[trigger] code_text(code),
{
    if same_text(text, "TRANSFER_VERIFIED") {
        Some(TransferResultCode::TransferVerified)
    } else if same_text(text, "ARTIFACT_VERIFICATION_FAILED") {
        Some(TransferResultCode::ArtifactVerificationFailed)
    } else if same_text(text, "CHUNK_VERIFICATION_FAILED") {
        Some(TransferResultCode::ChunkVerificationFailed)
    } else if same_text(text, "TRANSFER_ABANDONED") {
        Some(TransferResultCode::TransferAbandoned)
    } else {
        None
    }
}

/// Reads the result detail of a data-plane transfer. Members besides `code` and
/// `artifact_id` are of no account.
pub fn parse_transfer_result_detail(
    outcome: ActionResultOutcome,
    detail: &serde_json::Map<String, serde_json::Value>,
) -> (r: Result<TransferResultDetail, TransferResultDetailError>)
    ensures
        detail_reads_as(outcome, json::json_members(*detail), r),
{
    let code_value = match json_text(detail, "code") {
        Some(value) => value,
        None => {
            return Err(TransferResultDetailError::MissingCode);
        },
    };
    let code = match parse_code(code_value.as_str()) {
        Some(code) => code,
        None => {
            return Err(TransferResultDetailError::UnknownCode);
        },
    };
    let suits = match outcome {
        ActionResultOutcome::Succeeded => matches!(code, TransferResultCode::TransferVerified),
        ActionResultOutcome::Failed => !matches!(code, TransferResultCode::TransferVerified),
        ActionResultOutcome::Cancelled => false,
    };
    if !suits {
        return Err(TransferResultDetailError::OutcomeCodeMismatch);
    }
    let artifact_value = match json_text(detail, "artifact_id") {
        Some(value) => value,
        None => {
            return Err(TransferResultDetailError::MissingArtifactId);
        },
    };
    match parse_canonical_uuid(artifact_value.as_str()) {
        Some(artifact_id) => Ok(TransferResultDetail { code, artifact_id }),
        None => Err(TransferResultDetailError::MalformedArtifactId),
    }
}

/// A result detail reads in one way only.
pub proof fn detail_reading_is_unique(
    outcome: ActionResultOutcome,
    members: Map<Seq<char>, JsonMember>,
    first: Result<TransferResultDetail, TransferResultDetailError>,
    second: Result<TransferResultDetail, TransferResultDetailError>,
)
    requires
        detail_reads_as(outcome, members, first),
        detail_reads_as(outcome, members, second),
    ensures
        first == second,
{
    assert forall|a: TransferResultCode, b: TransferResultCode|
        code_text(a) == code_text(b) implies a == b by {
        codes_are_spelled_apart(a, b);
    }
    if first is Ok && second is Ok {
        ids::canonical_text_identifies(first->Ok_0.artifact_id, second->Ok_0.artifact_id);
    }
}

/// An agent is told the durable transfer: its identity and its artifact's, where the
/// data goes, how it is digested and in which size it is cut, and nothing else.
pub proof fn agent_is_told_the_durable_transfer(
    transfer: Transfer,
    r: serde_json::Map<String, serde_json::Value>,
)
    requires
        call_ensures(transfer_action_parameters, (&transfer,), r),
    ensures
        json::json_members(r).dom() =~= set![
            "transfer_id"@,
            "artifact_id"@,
            "direction"@,
            "digest_algorithm"@,
            "chunk_size"@,
        ],
        json::json_members(r)["transfer_id"@] == JsonMember::Text(
            ids::hyphenated_text(transfer.id.0),
        ),
        json::json_members(r)["artifact_id"@] == JsonMember::Text(
            ids::hyphenated_text(transfer.artifact_id.0),
        ),
        json::json_members(r)["direction"@] == JsonMember::Text("agent_to_server"@),
        json::json_members(r)["digest_algorithm"@] == JsonMember::Text("sha256"@),
        json::json_members(r)["chunk_size"@] == JsonMember::Unsigned(transfer.chunk_size as nat),
{
    reveal_strlit("transfer_id");
    reveal_strlit("artifact_id");
    reveal_strlit("direction");
    reveal_strlit("digest_algorithm");
    reveal_strlit("chunk_size");
    assert("transfer_id"@[0] == 't' && "transfer_id"@.len() == 11);
    assert("artifact_id"@[0] == 'a');
    assert("direction"@.len() == 9);
    assert("digest_algorithm"@.len() == 16);
    assert("chunk_size"@.len() == 10);
}

/// A simulated execution reports success and failure each with its own code, and
/// cancellation never this way.
pub proof fn simulated_result_goes_with_its_code(
    outcome: ActionResultOutcome,
    detail: serde_json::Map<String, serde_json::Value>,
    r: bool,
)
    requires
        call_ensures(m1_result_detail_matches, (outcome, &detail), r),
    ensures
        outcome is Succeeded ==> r == (json::member_text(json::json_members(detail), "code"@)
            == Some("SIMULATED_COMPLETION"@)),
        outcome is Failed ==> r == (json::member_text(json::json_members(detail), "code"@) == Some(
            "SIMULATED_FAILURE"@,
        )),
        outcome is Cancelled ==> !r,
{
}

/// A transfer's result is read exactly where its code is one of the four and goes with
/// the outcome, and its artifact's identity is spelled canonically; then the code and
/// the artifact are the ones that were sent.
pub proof fn transfer_result_is_read_as_sent(
    outcome: ActionResultOutcome,
    detail: serde_json::Map<String, serde_json::Value>,
    r: Result<TransferResultDetail, TransferResultDetailError>,
)
    requires
        call_ensures(parse_transfer_result_detail, (outcome, &detail), r),
    ensures
        r matches Ok(read) ==> {
            let code = json::member_text(json::json_members(detail), "code"@);
            &&& code == Some("TRANSFER_VERIFIED"@) <==> read.code is TransferVerified
            &&& code == Some("ARTIFACT_VERIFICATION_FAILED"@) <==> read.code
                is ArtifactVerificationFailed
            &&& code == Some("CHUNK_VERIFICATION_FAILED"@) <==> read.code
                is ChunkVerificationFailed
            &&& code == Some("TRANSFER_ABANDONED"@) <==> read.code is TransferAbandoned
            &&& read.code is TransferVerified <==> outcome is Succeeded
            &&& read.code !is TransferVerified <==> outcome is Failed
            &&& json::member_text(json::json_members(detail), "artifact_id"@) == Some(
                ids::hyphenated_text(read.artifact_id),
            )
        },
        outcome is Cancelled ==> r is Err,
        r matches Err(TransferResultDetailError::MissingCode) <==> json::member_text(
            json::json_members(detail),
            "code"@,
        ) is None,
        r matches Err(TransferResultDetailError::UnknownCode) <==> {
            let code = json::member_text(json::json_members(detail), "code"@);
            code is Some && code != Some("TRANSFER_VERIFIED"@) && code != Some(
                "ARTIFACT_VERIFICATION_FAILED"@,
            ) && code != Some("CHUNK_VERIFICATION_FAILED"@) && code != Some("TRANSFER_ABANDONED"@)
        },
        r matches Err(TransferResultDetailError::MissingArtifactId) ==> json::member_text(
            json::json_members(detail),
            "artifact_id"@,
        ) is None,
        r matches Err(TransferResultDetailError::MalformedArtifactId) ==> json::member_text(
            json::json_members(detail),
            "artifact_id"@,
        ) is Some,
        r is Ok ==> json::member_text(json::json_members(detail), "artifact_id"@) is Some,
        r matches Err(TransferResultDetailError::OutcomeCodeMismatch) <==> {
            let code = json::member_text(json::json_members(detail), "code"@);
            (code == Some("TRANSFER_VERIFIED"@) && outcome !is Succeeded) || ((code == Some(
                "ARTIFACT_VERIFICATION_FAILED"@,
            ) || code == Some("CHUNK_VERIFICATION_FAILED"@) || code == Some("TRANSFER_ABANDONED"@))
                && outcome !is Failed)
        },
{
    codes_are_spelled_apart(
        TransferResultCode::TransferVerified,
        TransferResultCode::ArtifactVerificationFailed,
    );
    codes_are_spelled_apart(
        TransferResultCode::TransferVerified,
        TransferResultCode::ChunkVerificationFailed,
    );
    codes_are_spelled_apart(
        TransferResultCode::TransferVerified,
        TransferResultCode::TransferAbandoned,
    );
    codes_are_spelled_apart(
        TransferResultCode::ArtifactVerificationFailed,
        TransferResultCode::ChunkVerificationFailed,
    );
    codes_are_spelled_apart(
        TransferResultCode::ArtifactVerificationFailed,
        TransferResultCode::TransferAbandoned,
    );
    codes_are_spelled_apart(
        TransferResultCode::ChunkVerificationFailed,
        TransferResultCode::TransferAbandoned,
    );
    assert(code_text(TransferResultCode::TransferVerified) == "TRANSFER_VERIFIED"@);
    assert(code_text(TransferResultCode::ArtifactVerificationFailed)
        == "ARTIFACT_VERIFICATION_FAILED"@);
    assert(code_text(TransferResultCode::ChunkVerificationFailed) == "CHUNK_VERIFICATION_FAILED"@);
    assert(code_text(TransferResultCode::TransferAbandoned) == "TRANSFER_ABANDONED"@);
}

/// What is wrong with a result's detail is worded by what it is.
pub proof fn detail_errors_are_worded_by_what_they_are(
    error: TransferResultDetailError,
    r: &'static str,
)
    requires
        call_ensures(TransferResultDetailError::message, (error,), r),
    ensures
        error is MissingCode ==> r@ == "detail.code is missing or not a string"@,
        error is UnknownCode ==> r@
            == "detail.code is not a recognized bamep.m1.data-plane-transfer code"@,
        error is OutcomeCodeMismatch ==> r@
            == "detail.code is not valid for this ActionResult.outcome"@,
        error is MissingArtifactId ==> r@ == "detail.artifact_id is missing or not a string"@,
        error is MalformedArtifactId ==> r@
            == "detail.artifact_id is not a canonical lowercase-hyphenated UUID"@,
{
}

} // verus!
