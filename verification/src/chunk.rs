//! How a chunk upload is dealt with: who is let in, where the file goes,
//! and how the upload ends.

use crate::client::ErrorKind;
use crate::events::{ServerEvent, ServerEventView};
use crate::naming::target_leaf;
use crate::registry::{
    all_done, lemma_done_bytes_bounded, lemma_done_bytes_update, ApprovedTransferView, FilePhase,
    RejectedTransferView, ReservationView, ServerStateView,
};
use crate::text::decimal;
use crate::types::TransferFileView;
use crate::validate::{distinct_file_ids, has_file};
use vstd::prelude::*;

verus! {

/// Query parameters of a chunk upload.
#[derive(Debug)]
pub struct ChunkParams {
    transfer_id: String,
    file_id: String,
    token: String,
}

/// Model of [`ChunkParams`].
pub struct ChunkParamsView {
    pub transfer_id: Seq<char>,
    pub file_id: Seq<char>,
    pub token: Seq<char>,
}

impl View for ChunkParams {
    type V = ChunkParamsView;

    closed spec fn view(&self) -> ChunkParamsView {
        ChunkParamsView {
            transfer_id: self.transfer_id@,
            file_id: self.file_id@,
            token: self.token@,
        }
    }
}

impl ChunkParams {
    /// The parameters of the upload of the file `file_id` of the transfer
    /// `transfer_id`, authorised by `token`.
    pub fn new(transfer_id: String, file_id: String, token: String) -> (r: Self)
        ensures
            r@ == (ChunkParamsView {
                transfer_id: transfer_id@,
                file_id: file_id@,
                token: token@,
            }),
    {
        ChunkParams { transfer_id, file_id, token }
    }

    /// The transfer that the upload belongs to.
    pub fn transfer_id(&self) -> (r: &str)
        ensures
            r@ == self@.transfer_id,
    {
        self.transfer_id.as_str()
    }

    /// The file that is uploaded.
    pub fn file_id(&self) -> (r: &str)
        ensures
            r@ == self@.file_id,
    {
        self.file_id.as_str()
    }

    /// The token shown by the sender.
    pub fn token(&self) -> (r: &str)
        ensures
            r@ == self@.token,
    {
        self.token.as_str()
    }
}

/// Why a chunk upload is refused before any byte is taken.
#[derive(Debug, Clone, Copy, PartialEq, Eq, Structural)]
pub enum ChunkError {
    /// No approved transfer has this identifier and token.
    Unauthorized,
    /// The transfer has no file with this identifier.
    FileNotFound,
    /// The file's name cannot stand for a file in the download directory.
    UnsafeName,
    /// The file has arrived already, or an upload of it is under way.
    NotWaiting,
}

impl ChunkError {
    /// The HTTP status with which the upload is refused.
    pub open spec fn spec_status(self) -> u16 {
        match self {
            ChunkError::Unauthorized => 401,
            ChunkError::FileNotFound => 404,
            ChunkError::UnsafeName => 400,
            ChunkError::NotWaiting => 400,
        }
    }

    /// The text of the `error` field of the answer.
    pub open spec fn spec_message(self) -> Seq<char> {
        match self {
            ChunkError::Unauthorized => "Invalid or expired token"@,
            ChunkError::FileNotFound => "File not found in transfer"@,
            ChunkError::UnsafeName => "Invalid file name"@,
            ChunkError::NotWaiting => "File already received or in progress"@,
        }
    }

    /// The kind of error that the refusal stands for.
    pub open spec fn spec_kind(self) -> ErrorKind {
        match self {
            ChunkError::Unauthorized => ErrorKind::Authorization,
            ChunkError::FileNotFound => ErrorKind::NotFound,
            ChunkError::UnsafeName => ErrorKind::Validation,
            ChunkError::NotWaiting => ErrorKind::Validation,
        }
    }

    /// The kind of error that the refusal stands for.
    pub fn kind(&self) -> (r: ErrorKind)
        ensures
            r == self.spec_kind(),
            r.spec_status_code() == Some(self.spec_status()),
    {
        match self {
            ChunkError::Unauthorized => ErrorKind::Authorization,
            ChunkError::FileNotFound => ErrorKind::NotFound,
            ChunkError::UnsafeName => ErrorKind::Validation,
            ChunkError::NotWaiting => ErrorKind::Validation,
        }
    }

    /// The HTTP status with which the upload is refused.
    pub fn status(&self) -> (r: u16)
        ensures
            r == self.spec_status(),
    {
        match self {
            ChunkError::Unauthorized => 401,
            ChunkError::FileNotFound => 404,
            ChunkError::UnsafeName => 400,
            ChunkError::NotWaiting => 400,
        }
    }

    /// The text of the `error` field of the answer.
    pub fn message(&self) -> (r: &'static str)
        ensures
            r@ == self.spec_message(),
    {
        match self {
            ChunkError::Unauthorized => "Invalid or expired token",
            ChunkError::FileNotFound => "File not found in transfer",
            ChunkError::UnsafeName => "Invalid file name",
            ChunkError::NotWaiting => "File already received or in progress",
        }
    }
}

/// Model of a [`ChunkTicket`].
pub struct ChunkTicketView {
    pub transfer_id: Seq<char>,
    pub file_id: Seq<char>,
    pub file_index: int,
    pub file_name: Seq<char>,
    pub target_name: Seq<char>,
    pub path: Seq<char>,
    pub size: u64,
    pub total_size: u64,
    pub base_bytes: u64,
}

/// The permission to take one file: where its bytes go and how many are
/// expected.
#[derive(Debug)]
pub struct ChunkTicket {
    pub transfer_id: String,
    pub file_id: String,
    /// The place of the file among the files of its transfer.
    pub file_index: usize,
    /// The name that the sender declared.
    pub file_name: String,
    /// The name of the file inside the download directory.
    pub target_name: String,
    /// The path to write to.
    pub path: String,
    /// The number of bytes that the sender declared.
    pub size: u64,
    /// The size of the whole transfer.
    pub total_size: u64,
    /// The bytes of the transfer that had arrived before this file.
    pub base_bytes: u64,
}

impl View for ChunkTicket {
    type V = ChunkTicketView;

    open spec fn view(&self) -> ChunkTicketView {
        ChunkTicketView {
            transfer_id: self.transfer_id@,
            file_id: self.file_id@,
            file_index: self.file_index as int,
            file_name: self.file_name@,
            target_name: self.target_name@,
            path: self.path@,
            size: self.size,
            total_size: self.total_size,
            base_bytes: self.base_bytes,
        }
    }
}

impl ChunkTicketView {
    /// Whether the byte counts of a ticket are consistent: the file fits
    /// into what is left of the transfer.
    pub open spec fn wf(self) -> bool {
        self.base_bytes + self.size <= self.total_size
    }

    /// The reservation that goes with a ticket.
    pub open spec fn reservation(self) -> ReservationView {
        ReservationView {
            transfer_id: self.transfer_id,
            file_id: self.file_id,
            name: self.target_name,
            path: self.path,
        }
    }
}

/// The place of the file with the identifier `id` among `files`.
pub open spec fn file_index(files: Seq<TransferFileView>, id: Seq<char>) -> int {
    choose|i: int| 0 <= i < files.len() && #[trigger] files[i].id == id
}

/// Among files whose identifiers differ, the first file with an identifier
/// is the only one.
pub proof fn lemma_file_index(files: Seq<TransferFileView>, id: Seq<char>, i: int)
    requires
        distinct_file_ids(files),
        0 <= i < files.len(),
        files[i].id == id,
    ensures
        has_file(files, id),
        file_index(files, id) == i,
{
    let k = file_index(files, id);
    assert(files[k].id == id);
    if k < i {
        assert(files[k].id != files[i].id);
    }
    if i < k {
        assert(files[i].id != files[k].id);
    }
}

/// An approved transfer with the phase of one file changed.
pub open spec fn with_phase(a: ApprovedTransferView, at: int, phase: FilePhase) -> ApprovedTransferView {
    ApprovedTransferView {
        phases: a.phases.update(at, phase),
        bytes_transferred: if phase == FilePhase::Done {
            (a.bytes_transferred + a.files[at].size) as u64
        } else {
            a.bytes_transferred
        },
        ..a
    }
}

/// A file that has not arrived fits into what is left of its transfer, and
/// changing its phase keeps the record consistent.
pub proof fn lemma_with_phase_wf(a: ApprovedTransferView, at: int, phase: FilePhase)
    requires
        a.wf(),
        0 <= at < a.files.len(),
        a.phases[at] != FilePhase::Done,
    ensures
        a.bytes_transferred + a.files[at].size <= a.total_size,
        with_phase(a, at, phase).wf(),
{
    lemma_done_bytes_update(a.files, a.phases, at, FilePhase::Done);
    lemma_done_bytes_bounded(a.files, a.phases.update(at, FilePhase::Done));
    lemma_done_bytes_update(a.files, a.phases, at, phase);
}

/// The reservations that do not belong to the transfer `id`.
pub open spec fn reservations_of_others(reserved: Seq<ReservationView>, id: Seq<char>) -> Seq<
    ReservationView,
> {
    reserved.filter(|r: ReservationView| r.transfer_id != id)
}

/// The paths written for the transfer `id`, in the order in which they
/// were reserved.
pub open spec fn paths_of(reserved: Seq<ReservationView>, id: Seq<char>) -> Seq<Seq<char>> {
    reserved.filter(|r: ReservationView| r.transfer_id == id).map_values(
        |r: ReservationView| r.path,
    )
}

/// Whether no two reservations share a name, and each names a file
/// directly inside a directory.
pub open spec fn distinct_names(reserved: Seq<ReservationView>) -> bool {
    &&& forall|i: int, j: int|
        0 <= i < j < reserved.len() ==> (#[trigger] reserved[i]).name != (
        #[trigger] reserved[j]).name
    &&& forall|i: int| 0 <= i < reserved.len() ==> (#[trigger] reserved[i]).wf()
}

/// Dropping reservations leaves the names of the others distinct.
pub proof fn lemma_filter_distinct_names(
    reserved: Seq<ReservationView>,
    keep: spec_fn(ReservationView) -> bool,
)
    requires
        distinct_names(reserved),
    ensures
        distinct_names(reserved.filter(keep)),
    decreases reserved.len(),
{
    reveal(Seq::filter);
    if reserved.len() > 0 {
        let rest = reserved.drop_last();
        assert forall|i: int, j: int| 0 <= i < j < rest.len() implies (#[trigger] rest[i]).name != (
        #[trigger] rest[j]).name by {
            assert(rest[i] == reserved[i]);
            assert(rest[j] == reserved[j]);
        }
        assert forall|i: int| 0 <= i < rest.len() implies (#[trigger] rest[i]).wf() by {
            assert(rest[i] == reserved[i]);
        }
        lemma_filter_distinct_names(rest, keep);
        let kept = rest.filter(keep);
        if keep(reserved.last()) {
            let out = kept.push(reserved.last());
            assert forall|i: int, j: int| 0 <= i < j < out.len() implies (
            #[trigger] out[i]).name != (#[trigger] out[j]).name by {
                assert(out[i] == kept[i]);
                if j < kept.len() {
                    assert(out[j] == kept[j]);
                } else {
                    assert(kept.contains(kept[i]));
                    rest.lemma_filter_contains_rev(keep, kept[i]);
                    let k = choose|k: int| 0 <= k < rest.len() && rest[k] == kept[i];
                    assert(reserved[k].name != reserved[reserved.len() - 1].name);
                }
            }
            assert forall|i: int| 0 <= i < out.len() implies (#[trigger] out[i]).wf() by {
                if i < kept.len() {
                    assert(out[i] == kept[i]);
                } else {
                    assert(out[i] == reserved[reserved.len() - 1]);
                }
            }
        }
    }
}

/// The names of the reservations that are left after some were dropped
/// were reserved before, and every reservation that was not dropped is
/// left.
pub proof fn lemma_paths_of_contains(reserved: Seq<ReservationView>, id: Seq<char>, k: int)
    requires
        0 <= k < reserved.len(),
        reserved[k].transfer_id == id,
    ensures
        paths_of(reserved, id).contains(reserved[k].path),
{
    let own = |r: ReservationView| r.transfer_id == id;
    reserved.lemma_filter_contains(own, k);
    let kept = reserved.filter(own);
    let i = choose|i: int| 0 <= i < kept.len() && kept[i] == reserved[k];
    assert(paths_of(reserved, id)[i] == reserved[k].path);
}

/// After the reservations of a transfer were dropped, none of them is
/// left.
pub proof fn lemma_no_reservation_left(reserved: Seq<ReservationView>, id: Seq<char>, k: int)
    requires
        0 <= k < reservations_of_others(reserved, id).len(),
    ensures
        reservations_of_others(reserved, id)[k].transfer_id != id,
{
    reserved.lemma_filter_pred(|r: ReservationView| r.transfer_id != id, k);
}

impl ServerStateView {
    /// Why the upload described by `p` is refused, or `None` where it is
    /// let in. The token is checked first, then the file, then its name,
    /// then its phase.
    pub open spec fn chunk_error(self, p: ChunkParamsView) -> Option<ChunkError> {
        if !self.is_approved(p.transfer_id) {
            Some(ChunkError::Unauthorized)
        } else {
            let a = self.approved[self.approved_index(p.transfer_id)];
            if a.token != p.token {
                Some(ChunkError::Unauthorized)
            } else if !has_file(a.files, p.file_id) {
                Some(ChunkError::FileNotFound)
            } else {
                let f = file_index(a.files, p.file_id);
                if target_leaf(a.files[f].name) is None {
                    Some(ChunkError::UnsafeName)
                } else if a.phases[f] != FilePhase::Waiting {
                    Some(ChunkError::NotWaiting)
                } else {
                    None
                }
            }
        }
    }

    /// The registry after the upload of the file at `f` of the approved
    /// transfer at `at` was let in under a reserved name.
    pub open spec fn receiving(self, at: int, f: int, reservation: ReservationView) -> ServerStateView {
        ServerStateView {
            approved: self.approved.update(
                at,
                with_phase(self.approved[at], f, FilePhase::Receiving),
            ),
            reserved: self.reserved.push(reservation),
            ..self
        }
    }

    /// The registry after the approved transfer at `at` failed with
    /// `error`: it is on the rejected list, and its reservations are gone.
    pub open spec fn failed(self, at: int, error: Seq<char>) -> ServerStateView {
        let id = self.approved[at].transfer_id;
        ServerStateView {
            approved: self.approved.remove(at),
            rejected: self.rejected.push(RejectedTransferView { transfer_id: id, reason: error }),
            reserved: reservations_of_others(self.reserved, id),
            ..self
        }
    }

    /// The registry after the file at `f` of the approved transfer at `at`
    /// arrived in full. Where it was the last one, the transfer leaves the
    /// registry.
    pub open spec fn file_done(self, at: int, f: int) -> ServerStateView {
        let a = with_phase(self.approved[at], f, FilePhase::Done);
        if all_done(a.phases) {
            ServerStateView {
                approved: self.approved.remove(at),
                reserved: reservations_of_others(self.reserved, a.transfer_id),
                ..self
            }
        } else {
            ServerStateView { approved: self.approved.update(at, a), ..self }
        }
    }

    /// The registry after the approved transfer at `at` was flagged for
    /// abort.
    pub open spec fn cancelled(self, at: int) -> ServerStateView {
        ServerStateView {
            approved: self.approved.update(
                at,
                ApprovedTransferView { cancelled: true, ..self.approved[at] },
            ),
            ..self
        }
    }

    /// Replacing an approved record by a consistent one with the same
    /// identifier keeps the invariant.
    pub proof fn lemma_update_approved_wf(self, at: int, a: ApprovedTransferView)
        requires
            self.wf(),
            0 <= at < self.approved.len(),
            a.wf(),
            a.transfer_id == self.approved[at].transfer_id,
        ensures
            (ServerStateView { approved: self.approved.update(at, a), ..self }).wf(),
    {
        let t = ServerStateView { approved: self.approved.update(at, a), ..self };
        assert forall|i: int| 0 <= i < t.approved.len() implies (#[trigger] t.approved[i]).wf() by {
            if i != at {
                assert(t.approved[i] == self.approved[i]);
            }
        }
        assert forall|i: int| 0 <= i < t.approved.len() implies (
        #[trigger] t.approved[i]).transfer_id == self.approved[i].transfer_id by {}
        assert forall|i: int, j: int| 0 <= i < j < t.approved.len() implies (
        #[trigger] t.approved[i]).transfer_id != (#[trigger] t.approved[j]).transfer_id by {
            assert(self.approved[i].transfer_id != self.approved[j].transfer_id);
        }
        assert forall|i: int, j: int|
            0 <= i < t.pending.len() && 0 <= j < t.approved.len() implies (
        #[trigger] t.pending[i]).id != (#[trigger] t.approved[j]).transfer_id by {
            assert(self.pending[i].id != self.approved[j].transfer_id);
        }
        assert forall|i: int, j: int|
            0 <= i < t.approved.len() && 0 <= j < t.rejected.len() implies (
        #[trigger] t.approved[i]).transfer_id != (#[trigger] t.rejected[j]).transfer_id by {
            assert(self.approved[i].transfer_id != self.rejected[j].transfer_id);
        }
    }

    /// Replacing the reservations by others with distinct names keeps the
    /// invariant.
    pub proof fn lemma_update_reserved_wf(self, reserved: Seq<ReservationView>)
        requires
            self.wf(),
            distinct_names(reserved),
        ensures
            (ServerStateView { reserved, ..self }).wf(),
    {
    }

    /// Letting an upload in keeps the invariant.
    pub proof fn lemma_receiving_wf(self, at: int, f: int, reservation: ReservationView)
        requires
            self.wf(),
            0 <= at < self.approved.len(),
            0 <= f < self.approved[at].files.len(),
            self.approved[at].phases[f] == FilePhase::Waiting,
            !self.reserved_names().contains(reservation.name),
            reservation.wf(),
        ensures
            self.receiving(at, f, reservation).wf(),
    {
        let a = with_phase(self.approved[at], f, FilePhase::Receiving);
        lemma_with_phase_wf(self.approved[at], f, FilePhase::Receiving);
        self.lemma_update_approved_wf(at, a);
        let t = ServerStateView { approved: self.approved.update(at, a), ..self };
        let reserved = self.reserved.push(reservation);
        assert forall|i: int, j: int| 0 <= i < j < reserved.len() implies (
        #[trigger] reserved[i]).name != (#[trigger] reserved[j]).name by {
            assert(reserved[i] == self.reserved[i]);
            if j < self.reserved.len() {
                assert(reserved[j] == self.reserved[j]);
            } else {
                assert(self.reserved_names()[i] == self.reserved[i].name);
            }
        }
        assert forall|i: int| 0 <= i < reserved.len() implies (#[trigger] reserved[i]).wf() by {
            if i < self.reserved.len() {
                assert(reserved[i] == self.reserved[i]);
            }
        }
        t.lemma_update_reserved_wf(reserved);
    }

    /// The failure of an approved transfer keeps the invariant.
    pub proof fn lemma_failed_wf(self, at: int, error: Seq<char>)
        requires
            self.wf(),
            0 <= at < self.approved.len(),
        ensures
            self.failed(at, error).wf(),
    {
        let id = self.approved[at].transfer_id;
        self.lemma_without_approved_wf(at);
        let t = ServerStateView { approved: self.approved.remove(at), ..self };
        let r = RejectedTransferView { transfer_id: id, reason: error };
        t.lemma_with_rejected_wf(r);
        let u = ServerStateView { rejected: t.rejected.push(r), ..t };
        lemma_filter_distinct_names(self.reserved, |r: ReservationView| r.transfer_id != id);
        u.lemma_update_reserved_wf(reservations_of_others(self.reserved, id));
    }

    /// The arrival of a file keeps the invariant.
    pub proof fn lemma_file_done_wf(self, at: int, f: int)
        requires
            self.wf(),
            0 <= at < self.approved.len(),
            0 <= f < self.approved[at].files.len(),
            self.approved[at].phases[f] != FilePhase::Done,
        ensures
            self.file_done(at, f).wf(),
    {
        let a = with_phase(self.approved[at], f, FilePhase::Done);
        lemma_with_phase_wf(self.approved[at], f, FilePhase::Done);
        if all_done(a.phases) {
            self.lemma_without_approved_wf(at);
            let t = ServerStateView { approved: self.approved.remove(at), ..self };
            lemma_filter_distinct_names(
                self.reserved,
                |r: ReservationView| r.transfer_id != a.transfer_id,
            );
            t.lemma_update_reserved_wf(reservations_of_others(self.reserved, a.transfer_id));
        } else {
            self.lemma_update_approved_wf(at, a);
        }
    }
}

/// What the last step of a chunk upload finds.
pub enum CompleteCase {
    /// The ticket's transfer is no longer approved, or its file is not
    /// being received.
    Stale,
    /// The transfer was flagged for abort.
    Cancelled,
    /// The number of bytes received is not the number declared.
    SizeMismatch,
    /// The file arrived in full; other files are still to come.
    FileDone,
    /// The file arrived in full, and it was the last one.
    TransferDone,
}

/// Model of a [`ChunkOutcome`].
pub struct ChunkOutcomeView {
    pub status: u16,
    pub file: Seq<char>,
    pub bytes_received: u64,
    pub error: Option<Seq<char>>,
    pub events: Seq<ServerEventView>,
    pub delete: Seq<Seq<char>>,
}

/// How a chunk upload ended: what to answer, what to emit, and which files
/// to delete.
#[derive(Debug)]
pub struct ChunkOutcome {
    /// The HTTP status of the answer.
    pub status: u16,
    /// The declared name of the file.
    pub file: String,
    /// The number of bytes received.
    pub bytes_received: u64,
    /// The text of the `error` field of the answer, where the upload
    /// failed.
    pub error: Option<String>,
    /// The events to emit, in order.
    pub events: Vec<ServerEvent>,
    /// The paths of the files to delete.
    pub delete: Vec<String>,
}

impl View for ChunkOutcome {
    type V = ChunkOutcomeView;

    open spec fn view(&self) -> ChunkOutcomeView {
        ChunkOutcomeView {
            status: self.status,
            file: self.file@,
            bytes_received: self.bytes_received,
            error: self.error.deep_view(),
            events: self.events.deep_view(),
            delete: self.delete.deep_view(),
        }
    }
}

/// The error text for a file of which `received` bytes arrived where
/// `expected` were declared.
pub open spec fn size_mismatch_message(expected: u64, received: u64) -> Seq<char> {
    "size mismatch: expected "@ + decimal(expected as nat) + " bytes, received "@
        + decimal(received as nat)
}

/// The error text for a file of which more bytes arrived than the
/// `expected` ones.
pub open spec fn too_large_message(expected: u64) -> Seq<char> {
    "size mismatch: more than "@ + decimal(expected as nat) + " bytes received"@
}

/// The outcome of an upload whose transfer failed with `error`.
pub open spec fn failure_outcome(
    s: ServerStateView,
    t: ChunkTicketView,
    bytes_received: u64,
    error: Seq<char>,
) -> ChunkOutcomeView {
    ChunkOutcomeView {
        status: 500,
        file: t.file_name,
        bytes_received,
        error: Some(error),
        events: seq![ServerEventView::TransferFailed { transfer_id: t.transfer_id, error }],
        delete: paths_of(s.reserved, t.transfer_id),
    }
}

/// The outcome of an upload whose ticket is no longer good: only the file
/// it wrote is deleted.
pub open spec fn stale_outcome(t: ChunkTicketView, bytes_received: u64) -> ChunkOutcomeView {
    ChunkOutcomeView {
        status: 500,
        file: t.file_name,
        bytes_received,
        error: Some("transfer is no longer active"@),
        events: Seq::empty(),
        delete: seq![t.path],
    }
}

impl ServerStateView {
    /// Whether the place that a ticket writes to is reserved for it.
    pub open spec fn holds_reservation(self, t: ChunkTicketView) -> bool {
        exists|k: int|
            0 <= k < self.reserved.len() && #[trigger] self.reserved[k] == t.reservation()
    }

    /// Whether a ticket still stands for an upload under way: its transfer
    /// is approved, its file is being received, and the place it writes to
    /// is reserved for it.
    pub open spec fn ticket_live(self, t: ChunkTicketView) -> bool {
        &&& self.is_approved(t.transfer_id)
        &&& {
            let a = self.approved[self.approved_index(t.transfer_id)];
            &&& 0 <= t.file_index < a.files.len()
            &&& a.files[t.file_index].id == t.file_id
            &&& a.phases[t.file_index] == FilePhase::Receiving
        }
        &&& self.holds_reservation(t)
    }

    /// What the last step of the upload under `t` finds after
    /// `bytes_received` bytes.
    pub open spec fn complete_case(self, t: ChunkTicketView, bytes_received: u64) -> CompleteCase {
        if !self.ticket_live(t) {
            CompleteCase::Stale
        } else {
            let a = self.approved[self.approved_index(t.transfer_id)];
            if a.cancelled {
                CompleteCase::Cancelled
            } else if bytes_received != a.files[t.file_index].size {
                CompleteCase::SizeMismatch
            } else if all_done(with_phase(a, t.file_index, FilePhase::Done).phases) {
                CompleteCase::TransferDone
            } else {
                CompleteCase::FileDone
            }
        }
    }

    /// The registry after the last step of the upload under `t`.
    pub open spec fn after_complete(self, t: ChunkTicketView, bytes_received: u64) -> ServerStateView {
        let at = self.approved_index(t.transfer_id);
        match self.complete_case(t, bytes_received) {
            CompleteCase::Stale => self,
            CompleteCase::Cancelled => self.failed(at, "cancelled"@),
            CompleteCase::SizeMismatch => self.failed(
                at,
                size_mismatch_message(self.approved[at].files[t.file_index].size, bytes_received),
            ),
            CompleteCase::FileDone => self.file_done(at, t.file_index),
            CompleteCase::TransferDone => self.file_done(at, t.file_index),
        }
    }

    /// What the last step of the upload under `t` answers, emits and has
    /// deleted.
    pub open spec fn complete_outcome(self, t: ChunkTicketView, bytes_received: u64) -> ChunkOutcomeView {
        let at = self.approved_index(t.transfer_id);
        match self.complete_case(t, bytes_received) {
            CompleteCase::Stale => stale_outcome(t, bytes_received),
            CompleteCase::Cancelled => failure_outcome(self, t, bytes_received, "cancelled"@),
            CompleteCase::SizeMismatch => failure_outcome(
                self,
                t,
                bytes_received,
                size_mismatch_message(self.approved[at].files[t.file_index].size, bytes_received),
            ),
            CompleteCase::FileDone => ChunkOutcomeView {
                status: 200,
                file: t.file_name,
                bytes_received,
                error: None,
                events: Seq::empty(),
                delete: Seq::empty(),
            },
            CompleteCase::TransferDone => ChunkOutcomeView {
                status: 200,
                file: t.file_name,
                bytes_received,
                error: None,
                events: seq![ServerEventView::TransferComplete { transfer_id: t.transfer_id }],
                delete: Seq::empty(),
            },
        }
    }

    /// The registry after the upload under `t` broke off with `error`.
    pub open spec fn after_failure(self, t: ChunkTicketView, error: Seq<char>) -> ServerStateView {
        if self.ticket_live(t) {
            self.failed(self.approved_index(t.transfer_id), error)
        } else {
            self
        }
    }

    /// What is answered, emitted and deleted after the upload under `t`
    /// broke off with `error`.
    pub open spec fn failure_result(
        self,
        t: ChunkTicketView,
        bytes_received: u64,
        error: Seq<char>,
    ) -> ChunkOutcomeView {
        if self.ticket_live(t) {
            failure_outcome(self, t, bytes_received, error)
        } else {
            stale_outcome(t, bytes_received)
        }
    }
}

} // verus!
