# bamep_server

The decisions of the Bamep server, a bare-metal provisioning platform, as a
library that Verus verifies.

The server leads jobs through destructive dispatch, evidence, cancellation and
reconciliation; it takes agents in, issues them capabilities for data transfers,
and answers the worker process that moves the data. What it decides, and what it
makes of every outcome of a store, a socket or a peer, is in `src/`, each function
with a contract. Reading, writing, sending and waiting is in `app/`.

## Layout

- `src/model.rs`, `ids.rs`, `clock.rs`, `text.rs`, `bytes.rs`, `json.rs`,
  `errors.rs`: the data that everything else speaks of.
- `src/scheduling.rs`, `dispatch.rs`, `reservations.rs`, `evidence.rs`,
  `evidence_service.rs`, `cancellation.rs`, `reconciliation.rs`,
  `action_detail.rs`, `target_revalidation_fixture.rs`: the life of a job.
- `src/enrollment.rs`, `agent_gateway.rs`, `agent_messages.rs`: agents, from the
  handshake to the end of the session.
- `src/authorization.rs`, `transfer_service.rs`, `chunk_acceptance.rs`,
  `manifest_seal.rs`, `artifact_verification.rs`, `resume_discovery.rs`: data
  transfers.
- `src/worker_session.rs`, `worker_control_plane.rs`,
  `worker_runtime_ownership.rs`: the worker, its socket and the directory that
  the socket stands in.
- `src/job_store.rs`, `transfer_store.rs`, `endpoint_rows.rs`, `event_rows.rs`,
  `inventory_store.rs`: what is read under which lock, and what is written.
- `src/daemon.rs`: starting and stopping the process.
- `tests/`: the library from outside.
- `app/`: PostgreSQL, sockets, files and the async plumbing.

## How it fits together

A function that decides takes what a store or a peer said as an argument, and
returns what is to be done next: a value, a step, or the rows of a transaction.
Steps that come in one order are types, each with the method that leads to the
next. Where the lifecycle rules have a say, their ruling is an argument, or a
closure whose answers the contract speaks of.

What Verus does not prove is marked `external_body`: calls into `uuid`, `chrono`
and `serde_json`, and one `format!`. Each of them says above it what is claimed.
Public proof functions state what holds across functions.
