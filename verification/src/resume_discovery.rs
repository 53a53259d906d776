//! Handing out, page by page, which chunks of a transfer are held already.
//!
//! The pages are slices of one snapshot, taken when the request was authorized.
//! A page that does not finish the snapshot comes with a cursor; the cursor
//! remembers the chunk index at which the next page goes on.

use vstd::prelude::*;
use crate::authorization::{
    self, AuthorizationOperation, ResumeAuthorizationOutcome, ResumeHeldChunk,
    WorkerAuthorizationQueryInput,
};
use crate::errors::ApplicationError;
use crate::ids::{self, TransferId};
use crate::model::DigestAlgorithm;
use crate::text;

verus! {

/// How many held chunks one page carries at most.
pub const RESUME_PAGE_MAX_HELD_CHUNKS: usize = 8192;

/// One held chunk, as it is kept in a snapshot and sent in a page.
#[derive(Debug)]
pub struct HeldChunkEntry {
    pub chunk_index: u64,
    pub digest: String,
}

/// A held chunk by its text.
pub struct HeldChunkView {
    pub chunk_index: u64,
    pub digest: Seq<char>,
}

impl View for HeldChunkEntry {
    type V = HeldChunkView;

    open spec fn view(&self) -> HeldChunkView {
        HeldChunkView { chunk_index: self.chunk_index, digest: self.digest@ }
    }
}

/// The entries by their text.
pub open spec fn views(entries: Seq<HeldChunkEntry>) -> Seq<HeldChunkView> {
    entries.map_values(|entry: HeldChunkEntry| entry@)
}

/// The snapshot that pages are cut from.
#[derive(Debug)]
pub struct ResumeSnapshot {
    pub transfer_id: TransferId,
    pub sealed: bool,
    pub digest_algorithm: DigestAlgorithm,
    pub chunk_size: u32,
    pub expected_chunk_count: Option<u64>,
    pub held: Vec<HeldChunkEntry>,
}

/// Indices ascend without repetition, and each has a successor.
pub open spec fn ascending(held: Seq<HeldChunkEntry>) -> bool {
    &&& forall|i: int, j: int|
        0 <= i < j < held.len() ==> (#[trigger] held[i]).chunk_index < (
        #[trigger] held[j]).chunk_index
    &&& forall|i: int| 0 <= i < held.len() ==> (#[trigger] held[i]).chunk_index < u64::MAX
}

impl ResumeSnapshot {
    pub open spec fn well_formed(&self) -> bool {
        ascending(self.held@)
    }
}

/// Where the page that starts at `start` ends.
pub open spec fn page_end(len: int, start: int, page_size: int) -> int {
    if start + page_size < len {
        start + page_size
    } else {
        len
    }
}

fn end_of_page(len: usize, start: usize, page_size: usize) -> (r: usize)
    requires
        start <= len,
    ensures
        r == page_end(len as int, start as int, page_size as int),
        start <= r <= len,
{
    if page_size < len - start {
        start + page_size
    } else {
        len
    }
}

/// The entries that come before chunk index `next`, counted.
pub open spec fn entries_before(held: Seq<HeldChunkEntry>, next: u64, count: int) -> bool {
    &&& 0 <= count <= held.len()
    &&& forall|i: int| 0 <= i < count ==> (#[trigger] held[i]).chunk_index < next
    &&& forall|i: int| count <= i < held.len() ==> (#[trigger] held[i]).chunk_index >= next
}

/// Finds how many entries come before chunk index `next`, by halving.
pub fn partition_point(held: &Vec<HeldChunkEntry>, next: u64) -> (r: usize)
    requires
        ascending(held@),
    ensures
        entries_before(held@, next, r as int),
{
    let mut low: usize = 0;
    let mut high: usize = held.len();
    while low < high
        invariant
            ascending(held@),
            0 <= low <= high <= held@.len(),
            forall|i: int| 0 <= i < low ==> (#[trigger] held@[i]).chunk_index < next,
            forall|i: int| high <= i < held@.len() ==> (#[trigger] held@[i]).chunk_index >= next,
        decreases high - low,
    {
        let middle: usize = low + (high - low) / 2;
        if held[middle].chunk_index < next {
            low = middle + 1;
        } else {
            high = middle;
        }
    }
    low
}

fn copy_slice(held: &Vec<HeldChunkEntry>, start: usize, end: usize) -> (r: Vec<HeldChunkEntry>)
    requires
        start <= end <= held@.len(),
    ensures
        views(r@) == views(held@).subrange(start as int, end as int),
{
    let mut slice: Vec<HeldChunkEntry> = Vec::new();
    let mut i: usize = start;
    while i < end
        invariant
            start <= i <= end <= held@.len(),
            slice@.len() == i - start,
            forall|j: int| 0 <= j < slice@.len() ==> (#[trigger] slice@[j])@ == held@[start + j]@,
        decreases end - i,
    {
        let entry = HeldChunkEntry {
            chunk_index: held[i].chunk_index,
            digest: held[i].digest.clone(),
        };
        assert(entry@ == held@[i as int]@);
        slice.push(entry);
        i = i + 1;
    }
    assert(views(slice@) =~= views(held@).subrange(start as int, end as int));
    slice
}

fn snapshot_entries(held: &Vec<ResumeHeldChunk>) -> (r: Vec<HeldChunkEntry>)
    ensures
        r@.len() == held@.len(),
        forall|i: int|
            0 <= i < r@.len() ==> (#[trigger] r@[i]).chunk_index == held@[i].chunk_index
                && r@[i].digest@ == held@[i].digest_wire@,
{
    let mut entries: Vec<HeldChunkEntry> = Vec::new();
    let mut i: usize = 0;
    while i < held.len()
        invariant
            i <= held@.len(),
            entries@.len() == i,
            forall|j: int|
                0 <= j < i ==> (#[trigger] entries@[j]).chunk_index == held@[j].chunk_index
                    && entries@[j].digest@ == held@[j].digest_wire@,
        decreases held@.len() - i,
    {
        entries.push(
            HeldChunkEntry {
                chunk_index: held[i].chunk_index,
                digest: held[i].digest_wire.clone(),
            },
        );
        i = i + 1;
    }
    entries
}

/// The held chunks of a snapshot as the authorization listed them.
pub open spec fn listed(held: Seq<ResumeHeldChunk>) -> Seq<HeldChunkView> {
    held.map_values(
        |chunk: ResumeHeldChunk|
            HeldChunkView { chunk_index: chunk.chunk_index, digest: chunk.digest_wire@ },
    )
}

/// A worker's request for what is held of a transfer.
#[derive(Debug)]
pub struct ResumeDiscoveryQuery {
    pub message_id: u128,
    pub token: String,
    pub transfer_id: u128,
    pub proof_id: String,
    pub issued_at: u64,
    pub signature: String,
}

/// What is asked of the authorization for such a request: resuming, of no chunk
/// in particular.
pub fn resume_query_input(query: &ResumeDiscoveryQuery) -> (r: WorkerAuthorizationQueryInput)
    ensures
        r.token@ == query.token@,
        r.operation is ResumeDiscovery,
        r.transfer_id == query.transfer_id,
        r.chunk_index is None,
        r.proof_id@ == query.proof_id@,
        r.issued_at_millis == query.issued_at,
        r.signature@ == query.signature@,
{
    WorkerAuthorizationQueryInput {
        token: query.token.clone(),
        operation: AuthorizationOperation::ResumeDiscovery,
        transfer_id: query.transfer_id,
        chunk_index: None,
        proof_id: query.proof_id.clone(),
        issued_at_millis: query.issued_at,
        signature: query.signature.clone(),
    }
}

/// What a cursor remembers: the snapshot it reads, and where it goes on.
#[derive(Clone, Copy, Debug, PartialEq, Eq, Structural)]
pub struct ResumeCursorState {
    pub snapshot_id: u64,
    pub next_chunk_index: u64,
}

/// What a cursor is bound to. The proof is that of the request which was
/// authorized; every cursor that follows keeps it.
#[derive(Debug)]
pub struct ResumeCursorBinding {
    pub transfer_id: TransferId,
    pub proof_id: String,
    pub state: ResumeCursorState,
}

/// A page as it is answered. A cursor is present exactly where more is to come.
#[derive(Debug)]
pub enum ResumeDiscoveryPage {
    First {
        in_reply_to: u128,
        transfer_id: u128,
        sealed: bool,
        digest_algorithm: DigestAlgorithm,
        chunk_size: u32,
        expected_chunk_count: Option<u64>,
        held_chunks: Vec<HeldChunkEntry>,
        resume_cursor: Option<String>,
    },
    Continuation {
        in_reply_to: u128,
        held_chunks: Vec<HeldChunkEntry>,
        resume_cursor: Option<String>,
    },
    Denied { in_reply_to: u128 },
}

/// A first page that has to wait for its cursor.
#[derive(Debug)]
pub struct PendingFirstPage {
    pub in_reply_to: u128,
    pub transfer_id: TransferId,
    pub sealed: bool,
    pub digest_algorithm: DigestAlgorithm,
    pub chunk_size: u32,
    pub expected_chunk_count: Option<u64>,
    pub slice: Vec<HeldChunkEntry>,
    pub next_chunk_index: u64,
    pub proof_id: String,
}

/// What follows from an authorization to resume.
#[derive(Debug)]
pub enum ResumeQueryStep {
    Reply(ResumeDiscoveryPage),
    /// The snapshot is to be kept; the page waits.
    Register { snapshot: ResumeSnapshot, pending: PendingFirstPage },
}

/// Cuts the first page. A denial and a failure of the storage are answered
/// alike. Where everything held fits one page, it is answered at once and no
/// snapshot is kept.
pub fn handle_resume_discovery_query(
    query: &ResumeDiscoveryQuery,
    authorized: Result<ResumeAuthorizationOutcome, ApplicationError>,
    page_size: usize,
) -> (r: ResumeQueryStep)
    requires
        page_size >= 1,
        authorized matches Ok(ResumeAuthorizationOutcome::Approved(facts)) ==> authorization::listed_ascending(facts.held@),
    ensures
        match authorized {
            Ok(ResumeAuthorizationOutcome::Approved(facts)) => {
                let len = facts.held@.len() as int;
                let end = page_end(len, 0, page_size as int);
                if end == len {
                    &&& r matches ResumeQueryStep::Reply(page)
                    &&& page matches ResumeDiscoveryPage::First {
                        in_reply_to,
                        transfer_id,
                        sealed,
                        digest_algorithm,
                        chunk_size,
                        expected_chunk_count,
                        held_chunks,
                        resume_cursor,
                    }
                    &&& in_reply_to == query.message_id
                    &&& transfer_id == query.transfer_id
                    &&& sealed == facts.sealed
                    &&& digest_algorithm == facts.digest_algorithm
                    &&& chunk_size == facts.chunk_size
                    &&& expected_chunk_count == facts.expected_chunk_count
                    &&& views(held_chunks@) == listed(facts.held@)
                    &&& resume_cursor is None
                } else {
                    &&& r matches ResumeQueryStep::Register { snapshot, pending }
                    &&& snapshot.well_formed()
                    &&& snapshot.transfer_id.0 == query.transfer_id
                    &&& snapshot.sealed == facts.sealed
                    &&& snapshot.digest_algorithm == facts.digest_algorithm
                    &&& snapshot.chunk_size == facts.chunk_size
                    &&& snapshot.expected_chunk_count == facts.expected_chunk_count
                    &&& views(snapshot.held@) == listed(facts.held@)
                    &&& pending.in_reply_to == query.message_id
                    &&& pending.transfer_id.0 == query.transfer_id
                    &&& pending.sealed == facts.sealed
                    &&& pending.digest_algorithm == facts.digest_algorithm
                    &&& pending.chunk_size == facts.chunk_size
                    &&& pending.expected_chunk_count == facts.expected_chunk_count
                    &&& views(pending.slice@) == listed(facts.held@).subrange(0, end)
                    &&& pending.next_chunk_index == facts.held@[end - 1].chunk_index + 1
                    &&& pending.proof_id@ == query.proof_id@
                }
            },
            _ => r == ResumeQueryStep::Reply(
                ResumeDiscoveryPage::Denied { in_reply_to: query.message_id },
            ),
        },
{
    let facts = match authorized {
        Ok(ResumeAuthorizationOutcome::Approved(facts)) => facts,
        Ok(ResumeAuthorizationOutcome::Denied) | Err(_) => {
            return ResumeQueryStep::Reply(
                ResumeDiscoveryPage::Denied { in_reply_to: query.message_id },
            );
        },
    };
    let held = snapshot_entries(&facts.held);
    assert(views(held@) =~= listed(facts.held@));
    let end: usize = end_of_page(held.len(), 0, page_size);
    let slice = copy_slice(&held, 0, end);
    if end == held.len() {
        assert(views(slice@) =~= listed(facts.held@));
        return ResumeQueryStep::Reply(
            ResumeDiscoveryPage::First {
                in_reply_to: query.message_id,
                transfer_id: query.transfer_id,
                sealed: facts.sealed,
                digest_algorithm: facts.digest_algorithm,
                chunk_size: facts.chunk_size,
                expected_chunk_count: facts.expected_chunk_count,
                held_chunks: slice,
                resume_cursor: None,
            },
        );
    }
    let pending = PendingFirstPage {
        in_reply_to: query.message_id,
        transfer_id: TransferId(query.transfer_id),
        sealed: facts.sealed,
        digest_algorithm: facts.digest_algorithm,
        chunk_size: facts.chunk_size,
        expected_chunk_count: facts.expected_chunk_count,
        slice,
        next_chunk_index: held[end - 1].chunk_index + 1,
        proof_id: query.proof_id.clone(),
    };
    let snapshot = ResumeSnapshot {
        transfer_id: TransferId(query.transfer_id),
        sealed: facts.sealed,
        digest_algorithm: facts.digest_algorithm,
        chunk_size: facts.chunk_size,
        expected_chunk_count: facts.expected_chunk_count,
        held,
    };
    ResumeQueryStep::Register { snapshot, pending }
}

/// A page that is ready, and the snapshot to let go, if any.
#[derive(Debug)]
pub struct ResumeReply {
    pub page: ResumeDiscoveryPage,
    pub drop_snapshot: Option<u64>,
}

/// What follows once the snapshot was kept, or was not.
#[derive(Debug)]
pub enum ResumeRegisterStep {
    /// A cursor with this binding is to be made.
    Mint { binding: ResumeCursorBinding, pending: PendingFirstPage },
    Reply(ResumeDiscoveryPage),
}

impl PendingFirstPage {
    /// Goes on with the kept snapshot. One that could not be kept is a denial,
    /// and why is not said.
    pub fn snapshot_registered(self, registered: Option<u64>) -> (r: ResumeRegisterStep)
        ensures
            match registered {
                Some(snapshot_id) => {
                    &&& r matches ResumeRegisterStep::Mint { binding, pending }
                    &&& pending == self
                    &&& binding.transfer_id == self.transfer_id
                    &&& binding.proof_id@ == self.proof_id@
                    &&& binding.state == (ResumeCursorState {
                        snapshot_id,
                        next_chunk_index: self.next_chunk_index,
                    })
                },
                None => r == ResumeRegisterStep::Reply(
                    ResumeDiscoveryPage::Denied { in_reply_to: self.in_reply_to },
                ),
            },
    {
        match registered {
            None => ResumeRegisterStep::Reply(
                ResumeDiscoveryPage::Denied { in_reply_to: self.in_reply_to },
            ),
            Some(snapshot_id) => {
                let binding = ResumeCursorBinding {
                    transfer_id: self.transfer_id,
                    proof_id: self.proof_id.clone(),
                    state: ResumeCursorState {
                        snapshot_id,
                        next_chunk_index: self.next_chunk_index,
                    },
                };
                ResumeRegisterStep::Mint { binding, pending: self }
            },
        }
    }

    /// Answers with the cursor. Without one there is no page either, and the
    /// snapshot that was kept for it is let go.
    pub fn cursor_minted(self, snapshot_id: u64, minted: Option<String>) -> (r: ResumeReply)
        ensures
            match minted {
                Some(cursor) => r == (ResumeReply {
                    page: ResumeDiscoveryPage::First {
                        in_reply_to: self.in_reply_to,
                        transfer_id: self.transfer_id.0,
                        sealed: self.sealed,
                        digest_algorithm: self.digest_algorithm,
                        chunk_size: self.chunk_size,
                        expected_chunk_count: self.expected_chunk_count,
                        held_chunks: self.slice,
                        resume_cursor: Some(cursor),
                    },
                    drop_snapshot: None,
                }),
                None => r == (ResumeReply {
                    page: ResumeDiscoveryPage::Denied { in_reply_to: self.in_reply_to },
                    drop_snapshot: Some(snapshot_id),
                }),
            },
    {
        match minted {
            Some(cursor) => ResumeReply {
                page: ResumeDiscoveryPage::First {
                    in_reply_to: self.in_reply_to,
                    transfer_id: self.transfer_id.0,
                    sealed: self.sealed,
                    digest_algorithm: self.digest_algorithm,
                    chunk_size: self.chunk_size,
                    expected_chunk_count: self.expected_chunk_count,
                    held_chunks: self.slice,
                    resume_cursor: Some(cursor),
                },
                drop_snapshot: None,
            },
            None => ResumeReply {
                page: ResumeDiscoveryPage::Denied { in_reply_to: self.in_reply_to },
                drop_snapshot: Some(snapshot_id),
            },
        }
    }
}

/// A later page that has to wait until its cursor was replaced.
#[derive(Debug)]
pub struct PendingContinuation {
    pub in_reply_to: u128,
    pub transfer_id: TransferId,
    pub snapshot_id: u64,
    pub slice: Vec<HeldChunkEntry>,
    /// What the cursor that follows is to remember; the last page has none.
    pub successor: Option<ResumeCursorState>,
}

/// What follows from a request for a later page.
#[derive(Debug)]
pub enum ResumeContinueStep {
    Reply(ResumeDiscoveryPage),
    Advance(PendingContinuation),
}

/// Whether `pending` holds the page of `snapshot` that goes on at `start`.
pub open spec fn is_page_from(
    pending: PendingContinuation,
    snapshot: ResumeSnapshot,
    snapshot_id: u64,
    start: int,
    page_size: int,
) -> bool {
    let end = page_end(snapshot.held@.len() as int, start, page_size);
    &&& views(pending.slice@) == views(snapshot.held@).subrange(start, end)
    &&& pending.successor == (if end < snapshot.held@.len() {
        Some(
            ResumeCursorState {
                snapshot_id,
                next_chunk_index: (snapshot.held@[end - 1].chunk_index + 1) as u64,
            },
        )
    } else {
        None
    })
}

/// Cuts a later page. The cursor is all the authority there is: one that is not
/// known, or whose snapshot is gone, is denied.
pub fn handle_resume_discovery_continue(
    in_reply_to: u128,
    binding: Option<&ResumeCursorBinding>,
    snapshot: Option<&ResumeSnapshot>,
    page_size: usize,
) -> (r: ResumeContinueStep)
    requires
        page_size >= 1,
        snapshot matches Some(snapshot) ==> snapshot.well_formed(),
    ensures
        match (binding, snapshot) {
            (Some(binding), Some(snapshot)) => {
                &&& r matches ResumeContinueStep::Advance(pending)
                &&& pending.in_reply_to == in_reply_to
                &&& pending.transfer_id == binding.transfer_id
                &&& pending.snapshot_id == binding.state.snapshot_id
                &&& exists|start: int| #[trigger]
                    entries_before(snapshot.held@, binding.state.next_chunk_index, start)
                        && is_page_from(
                        pending,
                        *snapshot,
                        binding.state.snapshot_id,
                        start,
                        page_size as int,
                    )
            },
            _ => r == ResumeContinueStep::Reply(ResumeDiscoveryPage::Denied { in_reply_to }),
        },
{
    match (binding, snapshot) {
        (Some(binding), Some(snapshot)) => {
            let snapshot_id: u64 = binding.state.snapshot_id;
            let start: usize = partition_point(&snapshot.held, binding.state.next_chunk_index);
            let end: usize = end_of_page(snapshot.held.len(), start, page_size);
            let slice = copy_slice(&snapshot.held, start, end);
            let successor = if end < snapshot.held.len() {
                Some(
                    ResumeCursorState {
                        snapshot_id,
                        next_chunk_index: snapshot.held[end - 1].chunk_index + 1,
                    },
                )
            } else {
                None
            };
            let pending = PendingContinuation {
                in_reply_to,
                transfer_id: binding.transfer_id,
                snapshot_id,
                slice,
                successor,
            };
            assert(entries_before(
                snapshot.held@,
                binding.state.next_chunk_index,
                start as int,
            ));
            assert(is_page_from(pending, *snapshot, snapshot_id, start as int, page_size as int));
            ResumeContinueStep::Advance(pending)
        },
        _ => ResumeContinueStep::Reply(ResumeDiscoveryPage::Denied { in_reply_to }),
    }
}

/// How replacing a cursor went: the one that follows it, none where none was
/// asked for, or a failure.
#[derive(Debug)]
pub enum CursorAdvance {
    Next(String),
    Finished,
    Failed,
}

impl PendingContinuation {
    /// Answers once the cursor was replaced. More comes with the next cursor or
    /// not at all; the last page lets the snapshot go, and so does every failure.
    pub fn advanced(self, advanced: CursorAdvance) -> (r: ResumeReply)
        ensures
            match (self.successor, advanced) {
                (Some(_), CursorAdvance::Next(cursor)) => r == (ResumeReply {
                    page: ResumeDiscoveryPage::Continuation {
                        in_reply_to: self.in_reply_to,
                        held_chunks: self.slice,
                        resume_cursor: Some(cursor),
                    },
                    drop_snapshot: None,
                }),
                (None, CursorAdvance::Finished) => r == (ResumeReply {
                    page: ResumeDiscoveryPage::Continuation {
                        in_reply_to: self.in_reply_to,
                        held_chunks: self.slice,
                        resume_cursor: None,
                    },
                    drop_snapshot: Some(self.snapshot_id),
                }),
                _ => r == (ResumeReply {
                    page: ResumeDiscoveryPage::Denied { in_reply_to: self.in_reply_to },
                    drop_snapshot: Some(self.snapshot_id),
                }),
            },
    {
        match (self.successor, advanced) {
            (Some(_), CursorAdvance::Next(cursor)) => ResumeReply {
                page: ResumeDiscoveryPage::Continuation {
                    in_reply_to: self.in_reply_to,
                    held_chunks: self.slice,
                    resume_cursor: Some(cursor),
                },
                drop_snapshot: None,
            },
            (None, CursorAdvance::Finished) => ResumeReply {
                page: ResumeDiscoveryPage::Continuation {
                    in_reply_to: self.in_reply_to,
                    held_chunks: self.slice,
                    resume_cursor: None,
                },
                drop_snapshot: Some(self.snapshot_id),
            },
            _ => ResumeReply {
                page: ResumeDiscoveryPage::Denied { in_reply_to: self.in_reply_to },
                drop_snapshot: Some(self.snapshot_id),
            },
        }
    }
}

/// A page goes on exactly where the one before it ended: the cursor leaves no
/// gap and repeats nothing.
pub proof fn page_goes_on_where_the_last_one_ended(
    held: Seq<HeldChunkEntry>,
    end: int,
    start: int,
)
    requires
        ascending(held),
        0 < end < held.len(),
        entries_before(held, (held[end - 1].chunk_index + 1) as u64, start),
    ensures
        start == end,
{
    let next = (held[end - 1].chunk_index + 1) as u64;
    if start < end {
        assert(held[end - 1].chunk_index >= next);
    } else if start > end {
        assert(held[end].chunk_index < next);
        assert(held[end - 1].chunk_index < held[end].chunk_index);
    }
}

/// The position at which the page that goes on at chunk index `next` starts.
pub open spec fn start_of(held: Seq<HeldChunkEntry>, next: u64) -> int {
    choose|start: int| entries_before(held, next, start)
}

/// All entries handed out from position `start` on, when each page is followed
/// by the one that its cursor leads to.
pub open spec fn handed_out(held: Seq<HeldChunkEntry>, start: int, page_size: int) -> Seq<
    HeldChunkView,
>
    decreases held.len() - start,
{
    if start < 0 || start >= held.len() || page_size < 1 {
        Seq::empty()
    } else {
        let end = page_end(held.len() as int, start, page_size);
        views(held).subrange(start, end) + (if end < held.len() {
            let resumed = start_of(held, (held[end - 1].chunk_index + 1) as u64);
            if start < resumed <= held.len() {
                handed_out(held, resumed, page_size)
            } else {
                Seq::empty()
            }
        } else {
            Seq::empty()
        })
    }
}

/// Whatever the page size, the pages put together are the snapshot: every held
/// chunk once, in ascending order.
pub proof fn pages_add_up_to_the_snapshot(
    held: Seq<HeldChunkEntry>,
    start: int,
    page_size: int,
)
    requires
        ascending(held),
        page_size >= 1,
        0 <= start <= held.len(),
    ensures
        handed_out(held, start, page_size) == views(held).subrange(start, held.len() as int),
    decreases held.len() - start,
{
    if start < held.len() {
        let end = page_end(held.len() as int, start, page_size);
        if end < held.len() {
            let next = (held[end - 1].chunk_index + 1) as u64;
            assert forall|i: int| 0 <= i < end implies (#[trigger] held[i]).chunk_index < next by {
                if i < end - 1 {
                    assert(held[i].chunk_index < held[end - 1].chunk_index);
                }
            }
            assert forall|i: int| end <= i < held.len() implies (#[trigger] held[i]).chunk_index
                >= next by {
                assert(held[end - 1].chunk_index < held[i].chunk_index);
            }
            assert(entries_before(held, next, end));
            let resumed = start_of(held, next);
            page_goes_on_where_the_last_one_ended(held, end, resumed);
            pages_add_up_to_the_snapshot(held, end, page_size);
        }
        assert(handed_out(held, start, page_size) =~= views(held).subrange(
            start,
            held.len() as int,
        ));
    } else {
        assert(views(held).subrange(start, held.len() as int) =~= Seq::empty());
    }
}

/// An entry as it is written in a page.
pub open spec fn entry_text(entry: HeldChunkView) -> Seq<char> {
    "{\"chunk_index\":"@ + text::decimal_text(entry.chunk_index as nat) + ",\"digest\":\""@
        + entry.digest + "\"}"@
}

/// How long the entries are in a page, each with the comma behind it.
pub open spec fn entries_len(entries: Seq<HeldChunkView>) -> nat
    decreases entries.len(),
{
    if entries.len() == 0 {
        0
    } else {
        entries_len(entries.drop_last()) + entry_text(entries.last()).len() + 1
    }
}

/// An index that a manifest can hold, and a digest of 43 characters at most.
pub open spec fn bounded_entry(entry: HeldChunkView) -> bool {
    entry.chunk_index <= u32::MAX && entry.digest.len() <= 43
}

/// An entry takes at most 82 characters of a page.
pub proof fn entry_takes_little_room(entry: HeldChunkView)
    requires
        bounded_entry(entry),
    ensures
        entry_text(entry).len() + 1 <= 82,
{
    reveal_strlit("{\"chunk_index\":");
    reveal_strlit(",\"digest\":\"");
    reveal_strlit("\"}");
    reveal_with_fuel(text::ten_to, 11);
    text::decimal_text_is_short(entry.chunk_index as nat, 10);
}

/// The entries of a page take at most 82 characters each.
pub proof fn entries_take_little_room(entries: Seq<HeldChunkView>)
    requires
        forall|i: int| 0 <= i < entries.len() ==> bounded_entry(#[trigger] entries[i]),
    ensures
        entries_len(entries) <= 82 * entries.len(),
    decreases entries.len(),
{
    if entries.len() > 0 {
        entry_takes_little_room(entries.last());
        entries_take_little_room(entries.drop_last());
    }
}

/// How long a field is in a message: its name in quotes, a colon, its value and
/// the comma behind it.
pub open spec fn field_len(name: Seq<char>, value: Seq<char>) -> nat {
    (name.len() + value.len() + 4) as nat
}

/// A text as it is written in a message.
pub open spec fn quoted(value: Seq<char>) -> Seq<char> {
    "\""@ + value + "\""@
}

/// An identity as it is written in a message.
pub open spec fn identity_value(id: u128) -> Seq<char> {
    quoted(ids::hyphenated_text(id))
}

/// A cursor as it is written in a message; a page without one says so.
pub open spec fn cursor_value(cursor: Option<String>) -> Seq<char> {
    match cursor {
        Some(cursor) => quoted(cursor@),
        None => "null"@,
    }
}

/// How long the fields are that every message has.
pub open spec fn envelope_len(message_id: u128, in_reply_to: u128) -> nat {
    field_len("protocol_version"@, quoted("1"@)) + field_len(
        "message_id"@,
        identity_value(message_id),
    ) + field_len("type"@, quoted("ResumeDiscoveryPage"@)) + field_len(
        "in_reply_to"@,
        identity_value(in_reply_to),
    )
}

/// How long the list of held chunks is, with its name and its brackets.
pub open spec fn held_len(held: Seq<HeldChunkEntry>) -> nat {
    field_len("held_chunks"@, "[]"@) + entries_len(views(held))
}

/// How long a page is in its frame: an object of its fields, each under its own
/// name, between braces.
pub open spec fn page_len(message_id: u128, page: ResumeDiscoveryPage) -> nat {
    match page {
        ResumeDiscoveryPage::First {
            in_reply_to,
            transfer_id,
            sealed,
            digest_algorithm,
            chunk_size,
            expected_chunk_count,
            held_chunks,
            resume_cursor,
        } => 2 + envelope_len(message_id, in_reply_to) + field_len(
            "transfer_id"@,
            identity_value(transfer_id),
        ) + field_len(
            "sealed"@,
            if sealed {
                "true"@
            } else {
                "false"@
            },
        ) + field_len("digest_algorithm"@, quoted("sha256"@)) + field_len(
            "chunk_size"@,
            text::decimal_text(chunk_size as nat),
        ) + field_len(
            "expected_chunk_count"@,
            match expected_chunk_count {
                Some(count) => text::decimal_text(count as nat),
                None => "null"@,
            },
        ) + held_len(held_chunks@) + field_len("resume_cursor"@, cursor_value(resume_cursor)),
        ResumeDiscoveryPage::Continuation { in_reply_to, held_chunks, resume_cursor } => 2
            + envelope_len(message_id, in_reply_to) + held_len(held_chunks@) + field_len(
            "resume_cursor"@,
            cursor_value(resume_cursor),
        ),
        ResumeDiscoveryPage::Denied { in_reply_to } => 2 + envelope_len(message_id, in_reply_to)
            + field_len("denied"@, "true"@),
    }
}

/// The held chunks that a page carries.
pub open spec fn page_entries(page: ResumeDiscoveryPage) -> Seq<HeldChunkEntry> {
    match page {
        ResumeDiscoveryPage::First { held_chunks, .. } => held_chunks@,
        ResumeDiscoveryPage::Continuation { held_chunks, .. } => held_chunks@,
        ResumeDiscoveryPage::Denied { .. } => Seq::empty(),
    }
}

/// The cursor that a page carries.
pub open spec fn page_cursor(page: ResumeDiscoveryPage) -> Option<String> {
    match page {
        ResumeDiscoveryPage::First { resume_cursor, .. } => resume_cursor,
        ResumeDiscoveryPage::Continuation { resume_cursor, .. } => resume_cursor,
        ResumeDiscoveryPage::Denied { .. } => None,
    }
}

/// A whole page, with its entries, the fields of its manifest and its cursor, stays
/// below nine tenths of a frame of one mebibyte, as long as it carries no more
/// entries than a page may and its cursor has at most four thousand characters.
pub proof fn largest_page_fits_a_frame(message_id: u128, page: ResumeDiscoveryPage)
    requires
        page_entries(page).len() <= RESUME_PAGE_MAX_HELD_CHUNKS,
        forall|i: int|
            0 <= i < page_entries(page).len() ==> bounded_entry(
                (#[trigger] page_entries(page)[i])@,
            ),
        page_cursor(page) matches Some(cursor) ==> cursor@.len() <= 4000,
    ensures
        10 * page_len(message_id, page) < 9 * (1024 * 1024),
{
    reveal_strlit("\"");
    reveal_strlit("null");
    reveal_strlit("protocol_version");
    reveal_strlit("1");
    reveal_strlit("message_id");
    reveal_strlit("type");
    reveal_strlit("ResumeDiscoveryPage");
    reveal_strlit("in_reply_to");
    reveal_strlit("held_chunks");
    reveal_strlit("[]");
    reveal_strlit("transfer_id");
    reveal_strlit("sealed");
    reveal_strlit("true");
    reveal_strlit("false");
    reveal_strlit("digest_algorithm");
    reveal_strlit("sha256");
    reveal_strlit("chunk_size");
    reveal_strlit("expected_chunk_count");
    reveal_strlit("resume_cursor");
    reveal_strlit("denied");
    reveal_with_fuel(text::ten_to, 21);
    let entries = views(page_entries(page));
    assert forall|i: int| 0 <= i < entries.len() implies bounded_entry(#[trigger] entries[i]) by {
        assert(entries[i] == page_entries(page)[i]@);
    }
    entries_take_little_room(entries);
    match page {
        ResumeDiscoveryPage::First { chunk_size, expected_chunk_count, .. } => {
            text::decimal_text_is_short(chunk_size as nat, 10);
            match expected_chunk_count {
                Some(count) => {
                    text::decimal_text_is_short(count as nat, 20);
                },
                None => {},
            }
        },
        _ => {},
    }
}

/// A request to resume is asked about as sent: resuming, of the request's own transfer
/// and of no chunk, with its own token, proof and signature.
pub proof fn resume_is_asked_about_as_sent(
    query: ResumeDiscoveryQuery,
    r: WorkerAuthorizationQueryInput,
)
    requires
        call_ensures(resume_query_input, (&query,), r),
    ensures
        r.operation is ResumeDiscovery,
        r.token@ == query.token@,
        r.transfer_id == query.transfer_id,
        r.chunk_index is None,
        r.proof_id@ == query.proof_id@,
        r.issued_at_millis == query.issued_at,
        r.signature@ == query.signature@,
{
}

/// What is not authorized, and what could not be, is denied alike.
pub proof fn resume_without_authorization_is_denied(
    query: ResumeDiscoveryQuery,
    authorized: Result<ResumeAuthorizationOutcome, ApplicationError>,
    page_size: usize,
    r: ResumeQueryStep,
)
    requires
        call_ensures(handle_resume_discovery_query, (&query, authorized, page_size), r),
        authorized is Err || authorized->Ok_0 is Denied,
    ensures
        r matches ResumeQueryStep::Reply(ResumeDiscoveryPage::Denied { in_reply_to }) && in_reply_to
            == query.message_id,
{
}

/// Everything that is held is answered at once exactly where it fits a page: each chunk
/// in its place with its digest, the facts of the manifest, and no cursor.
pub proof fn single_page_holds_everything(
    query: ResumeDiscoveryQuery,
    facts: authorization::ResumeSnapshotFacts,
    page_size: usize,
    r: ResumeQueryStep,
)
    requires
        call_ensures(
            handle_resume_discovery_query,
            (&query, Ok(ResumeAuthorizationOutcome::Approved(facts)), page_size),
            r,
        ),
        page_size >= 1,
    ensures
        r is Reply <==> facts.held@.len() <= page_size,
        r matches ResumeQueryStep::Reply(page) ==> (page matches ResumeDiscoveryPage::First {
            in_reply_to,
            transfer_id,
            sealed,
            digest_algorithm,
            chunk_size,
            expected_chunk_count,
            held_chunks,
            resume_cursor,
        } && {
            &&& in_reply_to == query.message_id
            &&& transfer_id == query.transfer_id
            &&& sealed == facts.sealed
            &&& digest_algorithm == facts.digest_algorithm
            &&& chunk_size == facts.chunk_size
            &&& expected_chunk_count == facts.expected_chunk_count
            &&& resume_cursor is None
            &&& held_chunks@.len() == facts.held@.len()
            &&& forall|i: int|
                0 <= i < held_chunks@.len() ==> (#[trigger] held_chunks@[i]).chunk_index
                    == facts.held@[i].chunk_index && held_chunks@[i].digest@
                    == facts.held@[i].digest_wire@
        }),
{
    if let ResumeQueryStep::Reply(ResumeDiscoveryPage::First { held_chunks, .. }) = r {
        assert(views(held_chunks@).len() == listed(facts.held@).len());
        assert forall|i: int| 0 <= i < held_chunks@.len() implies (
        #[trigger] held_chunks@[i]).chunk_index == facts.held@[i].chunk_index
            && held_chunks@[i].digest@ == facts.held@[i].digest_wire@ by {
            assert(views(held_chunks@)[i] == held_chunks@[i]@);
        }
    }
}

/// Where more is held than fits a page, the whole of it is kept, and the first page
/// holds as many chunks as fit; the next one goes on right behind the last of them.
pub proof fn first_page_is_full(
    query: ResumeDiscoveryQuery,
    facts: authorization::ResumeSnapshotFacts,
    page_size: usize,
    r: ResumeQueryStep,
)
    requires
        call_ensures(
            handle_resume_discovery_query,
            (&query, Ok(ResumeAuthorizationOutcome::Approved(facts)), page_size),
            r,
        ),
        page_size >= 1,
    ensures
        r matches ResumeQueryStep::Register { snapshot, pending } ==> {
            &&& facts.held@.len() > page_size
            &&& snapshot.transfer_id.0 == query.transfer_id
            &&& snapshot.sealed == facts.sealed
            &&& snapshot.digest_algorithm == facts.digest_algorithm
            &&& snapshot.chunk_size == facts.chunk_size
            &&& snapshot.expected_chunk_count == facts.expected_chunk_count
            &&& snapshot.held@.len() == facts.held@.len()
            &&& forall|i: int|
                0 <= i < snapshot.held@.len() ==> (#[trigger] snapshot.held@[i]).chunk_index
                    == facts.held@[i].chunk_index && snapshot.held@[i].digest@
                    == facts.held@[i].digest_wire@
            &&& pending.in_reply_to == query.message_id
            &&& pending.transfer_id.0 == query.transfer_id
            &&& pending.sealed == facts.sealed
            &&& pending.digest_algorithm == facts.digest_algorithm
            &&& pending.chunk_size == facts.chunk_size
            &&& pending.expected_chunk_count == facts.expected_chunk_count
            &&& pending.proof_id@ == query.proof_id@
            &&& pending.slice@.len() == page_size
            &&& forall|i: int|
                0 <= i < page_size ==> (#[trigger] pending.slice@[i]).chunk_index
                    == facts.held@[i].chunk_index && pending.slice@[i].digest@
                    == facts.held@[i].digest_wire@
            &&& pending.next_chunk_index == facts.held@[page_size - 1].chunk_index + 1
        },
{
    if let ResumeQueryStep::Register { snapshot, pending } = r {
        assert(views(snapshot.held@).len() == listed(facts.held@).len());
        assert(views(pending.slice@).len() == page_size);
        assert forall|i: int| 0 <= i < snapshot.held@.len() implies (
        #[trigger] snapshot.held@[i]).chunk_index == facts.held@[i].chunk_index
            && snapshot.held@[i].digest@ == facts.held@[i].digest_wire@ by {
            assert(views(snapshot.held@)[i] == snapshot.held@[i]@);
        }
        assert forall|i: int| 0 <= i < page_size implies (
        #[trigger] pending.slice@[i]).chunk_index == facts.held@[i].chunk_index
            && pending.slice@[i].digest@ == facts.held@[i].digest_wire@ by {
            assert(views(pending.slice@)[i] == pending.slice@[i]@);
        }
    }
}

/// The first cursor is bound to the page's own transfer and proof, to the snapshot that
/// was kept, and to where the next page goes on; the page it comes with is the one that
/// waited. Without a snapshot or a cursor the request is denied, and a kept snapshot is
/// let go.
pub proof fn first_cursor_leads_on(
    page: PendingFirstPage,
    registered: Option<u64>,
    step: ResumeRegisterStep,
    snapshot_id: u64,
    minted: Option<String>,
    reply: ResumeReply,
)
    requires
        call_ensures(PendingFirstPage::snapshot_registered, (page, registered), step),
        call_ensures(PendingFirstPage::cursor_minted, (page, snapshot_id, minted), reply),
    ensures
        registered is Some <==> step is Mint,
        step matches ResumeRegisterStep::Mint { binding, pending } ==> {
            &&& pending == page
            &&& binding.transfer_id == page.transfer_id
            &&& binding.proof_id@ == page.proof_id@
            &&& Some(binding.state.snapshot_id) == registered
            &&& binding.state.next_chunk_index == page.next_chunk_index
        },
        step matches ResumeRegisterStep::Reply(answer) ==> (answer
            matches ResumeDiscoveryPage::Denied { in_reply_to } && in_reply_to == page.in_reply_to),
        minted is None ==> (reply.page matches ResumeDiscoveryPage::Denied { in_reply_to }
            && in_reply_to == page.in_reply_to) && reply.drop_snapshot == Some(snapshot_id),
        minted is Some ==> reply.drop_snapshot is None && (reply.page
            matches ResumeDiscoveryPage::First {
            in_reply_to,
            transfer_id,
            sealed,
            digest_algorithm,
            chunk_size,
            expected_chunk_count,
            held_chunks,
            resume_cursor,
        } && in_reply_to == page.in_reply_to && transfer_id == page.transfer_id.0 && sealed
            == page.sealed && digest_algorithm == page.digest_algorithm && chunk_size
            == page.chunk_size && expected_chunk_count == page.expected_chunk_count && held_chunks
            == page.slice && resume_cursor == minted),
{
}

/// A later page holds the chunks of the snapshot from the cursor's index on, in their
/// order, as many as fit; a cursor follows exactly where more is left, and goes on right
/// behind the last of them.
pub proof fn later_page_goes_on_at_its_cursor(
    in_reply_to: u128,
    binding: ResumeCursorBinding,
    snapshot: ResumeSnapshot,
    page_size: usize,
    r: ResumeContinueStep,
)
    requires
        call_ensures(
            handle_resume_discovery_continue,
            (in_reply_to, Some(&binding), Some(&snapshot), page_size),
            r,
        ),
        page_size >= 1,
    ensures
        r matches ResumeContinueStep::Advance(pending) && {
            &&& pending.in_reply_to == in_reply_to
            &&& pending.transfer_id == binding.transfer_id
            &&& pending.snapshot_id == binding.state.snapshot_id
            &&& exists|start: int| #[trigger]
                entries_before(snapshot.held@, binding.state.next_chunk_index, start) && {
                    &&& 0 <= start <= snapshot.held@.len()
                    &&& forall|i: int|
                        0 <= i < start ==> (#[trigger] snapshot.held@[i]).chunk_index
                            < binding.state.next_chunk_index
                    &&& forall|i: int|
                        start <= i < snapshot.held@.len() ==> (
                        #[trigger] snapshot.held@[i]).chunk_index >= binding.state.next_chunk_index
                    &&& start + page_size < snapshot.held@.len() ==> pending.slice@.len()
                        == page_size
                    &&& start + page_size >= snapshot.held@.len() ==> pending.slice@.len()
                        == snapshot.held@.len() - start
                    &&& forall|i: int|
                        0 <= i < pending.slice@.len() ==> (#[trigger] pending.slice@[i]).chunk_index
                            == snapshot.held@[start + i].chunk_index && pending.slice@[i].digest@
                            == snapshot.held@[start + i].digest@
                    &&& pending.successor is Some <==> start + page_size < snapshot.held@.len()
                    &&& pending.successor matches Some(next) ==> next.snapshot_id
                        == binding.state.snapshot_id && next.next_chunk_index == (
                    snapshot.held@[start + page_size - 1].chunk_index + 1) as u64
                }
        },
{
    if let ResumeContinueStep::Advance(pending) = r {
        let start = choose|start: int| #[trigger]
            entries_before(snapshot.held@, binding.state.next_chunk_index, start) && is_page_from(
                pending,
                snapshot,
                binding.state.snapshot_id,
                start,
                page_size as int,
            );
        let end = page_end(snapshot.held@.len() as int, start, page_size as int);
        assert(views(pending.slice@).len() == end - start);
        assert forall|i: int| 0 <= i < pending.slice@.len() implies (
        #[trigger] pending.slice@[i]).chunk_index == snapshot.held@[start + i].chunk_index
            && pending.slice@[i].digest@ == snapshot.held@[start + i].digest@ by {
            assert(views(pending.slice@)[i] == pending.slice@[i]@);
            assert(views(snapshot.held@)[start + i] == snapshot.held@[start + i]@);
        }
        assert(entries_before(snapshot.held@, binding.state.next_chunk_index, start));
    }
}

/// The second page starts with the very chunk behind the last of the first page.
pub proof fn second_page_follows_the_first(
    query: ResumeDiscoveryQuery,
    facts: authorization::ResumeSnapshotFacts,
    page_size: usize,
    snapshot: ResumeSnapshot,
    first: PendingFirstPage,
    snapshot_id: u64,
    binding: ResumeCursorBinding,
    in_reply_to: u128,
    second: PendingContinuation,
)
    requires
        page_size >= 1,
        authorization::listed_ascending(facts.held@),
        call_ensures(
            handle_resume_discovery_query,
            (&query, Ok(ResumeAuthorizationOutcome::Approved(facts)), page_size),
            ResumeQueryStep::Register { snapshot, pending: first },
        ),
        call_ensures(
            PendingFirstPage::snapshot_registered,
            (first, Some(snapshot_id)),
            ResumeRegisterStep::Mint { binding, pending: first },
        ),
        call_ensures(
            handle_resume_discovery_continue,
            (in_reply_to, Some(&binding), Some(&snapshot), page_size),
            ResumeContinueStep::Advance(second),
        ),
    ensures
        second.snapshot_id == snapshot_id,
        second.slice@.len() >= 1,
        forall|i: int|
            0 <= i < second.slice@.len() ==> (#[trigger] second.slice@[i]).chunk_index
                == facts.held@[page_size + i].chunk_index && second.slice@[i].digest@
                == facts.held@[page_size + i].digest_wire@,
{
    first_page_is_full(
        query,
        facts,
        page_size,
        ResumeQueryStep::Register { snapshot, pending: first },
    );
    later_page_goes_on_at_its_cursor(
        in_reply_to,
        binding,
        snapshot,
        page_size,
        ResumeContinueStep::Advance(second),
    );
    let start = choose|start: int| #[trigger]
        entries_before(snapshot.held@, binding.state.next_chunk_index, start) && {
            &&& 0 <= start <= snapshot.held@.len()
            &&& start + page_size < snapshot.held@.len() ==> second.slice@.len() == page_size
            &&& start + page_size >= snapshot.held@.len() ==> second.slice@.len()
                == snapshot.held@.len() - start
            &&& forall|i: int|
                0 <= i < second.slice@.len() ==> (#[trigger] second.slice@[i]).chunk_index
                    == snapshot.held@[start + i].chunk_index && second.slice@[i].digest@
                    == snapshot.held@[start + i].digest@
        };
    assert(snapshot.held@[page_size - 1].chunk_index == facts.held@[page_size - 1].chunk_index);
    page_goes_on_where_the_last_one_ended(snapshot.held@, page_size as int, start);
}

/// A cursor that is not known, or whose snapshot is gone, leads nowhere.
pub proof fn unknown_cursor_is_denied(
    in_reply_to: u128,
    binding: Option<&ResumeCursorBinding>,
    snapshot: Option<&ResumeSnapshot>,
    page_size: usize,
    r: ResumeContinueStep,
)
    requires
        call_ensures(
            handle_resume_discovery_continue,
            (in_reply_to, binding, snapshot, page_size),
            r,
        ),
        binding is None || snapshot is None,
    ensures
        r matches ResumeContinueStep::Reply(ResumeDiscoveryPage::Denied { in_reply_to: answered })
            && answered == in_reply_to,
{
}

/// A page that waited is answered with the next cursor where more is to come, and
/// without one where it is the last; in every other case it is denied. The snapshot is
/// kept exactly while more is to come.
pub proof fn page_is_answered_with_its_cursor(
    page: PendingContinuation,
    advanced: CursorAdvance,
    r: ResumeReply,
)
    requires
        call_ensures(PendingContinuation::advanced, (page, advanced), r),
    ensures
        r.page is Continuation <==> (page.successor is Some && advanced is Next) || (page.successor
            is None && advanced is Finished),
        r.page matches ResumeDiscoveryPage::Continuation {
            in_reply_to,
            held_chunks,
            resume_cursor,
        } ==> {
            &&& in_reply_to == page.in_reply_to
            &&& held_chunks == page.slice
            &&& resume_cursor is Some <==> page.successor is Some
            &&& resume_cursor matches Some(cursor) ==> advanced == CursorAdvance::Next(cursor)
            &&& r.drop_snapshot is None <==> page.successor is Some
        },
        r.page !is Continuation ==> (r.page matches ResumeDiscoveryPage::Denied { in_reply_to }
            && in_reply_to == page.in_reply_to) && r.drop_snapshot is Some,
        r.drop_snapshot matches Some(id) ==> id == page.snapshot_id,
{
}

/// The entries before an index are exactly those below it.
pub proof fn partition_splits_by_index(held: Vec<HeldChunkEntry>, next: u64, r: usize)
    requires
        call_ensures(partition_point, (&held, next), r),
    ensures
        r <= held@.len(),
        forall|i: int|
            0 <= i < held@.len() ==> ((#[trigger] held@[i]).chunk_index < next <==> i < r),
{
}

} // verus!
