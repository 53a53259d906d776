//! The decision core of the server: every rule by which a request, a piece of
//! evidence or a durable row turns into an outcome, stated as contracts and
//! proved. Databases, sockets and wire codecs stay outside this crate; they
//! hand it plain values and carry out what it decides.

pub mod action_detail;
pub mod agent_gateway;
pub mod agent_messages;
pub mod artifact_verification;
pub mod authorization;
pub mod bytes;
pub mod cancellation;
pub mod chunk_acceptance;
pub mod clock;
pub mod daemon;
pub mod dispatch;
pub mod endpoint_rows;
pub mod enrollment;
pub mod errors;
pub mod event_rows;
pub mod evidence;
pub mod evidence_service;
pub mod ids;
pub mod inventory_store;
pub mod job_store;
pub mod json;
pub mod manifest_seal;
pub mod model;
pub mod reconciliation;
pub mod reservations;
pub mod resume_discovery;
pub mod scheduling;
pub mod target_revalidation_fixture;
pub mod text;
pub mod transfer_service;
pub mod transfer_store;
pub mod worker_control_plane;
pub mod worker_runtime_ownership;
pub mod worker_session;
