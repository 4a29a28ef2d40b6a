//! The registry of the receiving side as a mathematical object: the lists of
//! pending, approved and rejected transfers and of reserved file names, the
//! invariant that ties them together, and the changes that the server's
//! operations make to them.

use crate::naming::{path_in, safe_leaf};
use crate::types::{
    clone_files, clone_opt_string, AppSettingsView, PendingTransferView, TransferFile,
    TransferFileView, TransferRequestView,
};
use crate::validate::{distinct_file_ids, sum_sizes};
use vstd::prelude::*;

verus! {

/// How far the upload of one file of an approved transfer has come.
#[derive(Debug, Clone, Copy, PartialEq, Eq, Structural)]
pub enum FilePhase {
    /// Nothing of the file has arrived.
    Waiting,
    /// An upload of the file is under way.
    Receiving,
    /// The file has arrived in full.
    Done,
}

/// The bytes of the files that have arrived in full.
pub open spec fn done_bytes(files: Seq<TransferFileView>, phases: Seq<FilePhase>) -> nat
    decreases files.len(),
{
    if files.len() == 0 || phases.len() != files.len() {
        0
    } else {
        done_bytes(files.drop_last(), phases.drop_last()) + if phases.last() == FilePhase::Done {
            files.last().size as nat
        } else {
            0
        }
    }
}

/// Whether every file has arrived in full.
pub open spec fn all_done(phases: Seq<FilePhase>) -> bool {
    forall|i: int| 0 <= i < phases.len() ==> phases[i] == FilePhase::Done
}

/// The bytes that have arrived never exceed the sum of all sizes.
pub proof fn lemma_done_bytes_bounded(files: Seq<TransferFileView>, phases: Seq<FilePhase>)
    ensures
        done_bytes(files, phases) <= sum_sizes(files),
    decreases files.len(),
{
    if files.len() > 0 && phases.len() == files.len() {
        lemma_done_bytes_bounded(files.drop_last(), phases.drop_last());
    }
}

/// Once every file has arrived, the bytes that have arrived are the sum of
/// all sizes.
pub proof fn lemma_done_bytes_complete(files: Seq<TransferFileView>, phases: Seq<FilePhase>)
    requires
        phases.len() == files.len(),
        all_done(phases),
    ensures
        done_bytes(files, phases) == sum_sizes(files),
    decreases files.len(),
{
    if files.len() > 0 {
        assert forall|i: int| 0 <= i < phases.drop_last().len() implies phases.drop_last()[i]
            == FilePhase::Done by {
            assert(phases.drop_last()[i] == phases[i]);
        }
        lemma_done_bytes_complete(files.drop_last(), phases.drop_last());
    }
}

/// While nothing has arrived, no bytes have.
pub proof fn lemma_done_bytes_none(files: Seq<TransferFileView>, phases: Seq<FilePhase>)
    requires
        forall|i: int| 0 <= i < phases.len() ==> phases[i] != FilePhase::Done,
    ensures
        done_bytes(files, phases) == 0,
    decreases files.len(),
{
    if files.len() > 0 && phases.len() == files.len() {
        assert forall|i: int| 0 <= i < phases.drop_last().len() implies phases.drop_last()[i]
            != FilePhase::Done by {
            assert(phases.drop_last()[i] == phases[i]);
        }
        lemma_done_bytes_none(files.drop_last(), phases.drop_last());
    }
}

/// Changing the phase of the file at `at` changes the bytes that have
/// arrived by that file's size, where the change is to or from `Done`.
pub proof fn lemma_done_bytes_update(
    files: Seq<TransferFileView>,
    phases: Seq<FilePhase>,
    at: int,
    phase: FilePhase,
)
    requires
        phases.len() == files.len(),
        0 <= at < files.len(),
    ensures
        done_bytes(files, phases.update(at, phase)) + (if phases[at] == FilePhase::Done {
            files[at].size as nat
        } else {
            0
        }) == done_bytes(files, phases) + (if phase == FilePhase::Done {
            files[at].size as nat
        } else {
            0
        }),
    decreases files.len(),
{
    let updated = phases.update(at, phase);
    if at == files.len() - 1 {
        assert(updated.drop_last() =~= phases.drop_last());
    } else {
        lemma_done_bytes_update(files.drop_last(), phases.drop_last(), at, phase);
        assert(updated.drop_last() =~= phases.drop_last().update(at, phase));
    }
}

/// Model of an [`ApprovedTransfer`].
pub struct ApprovedTransferView {
    pub transfer_id: Seq<char>,
    pub token: Seq<char>,
    pub source_ip: Seq<char>,
    pub sender_name: Option<Seq<char>>,
    pub files: Seq<TransferFileView>,
    pub phases: Seq<FilePhase>,
    pub total_size: u64,
    pub bytes_transferred: u64,
    pub started_at: i64,
    pub cancelled: bool,
}

impl ApprovedTransferView {
    /// Whether the record is consistent: one phase for each file, file
    /// identifiers that differ, a total that is the sum of the sizes, and a
    /// byte count that is the sum over the files that have arrived.
    pub open spec fn wf(self) -> bool {
        &&& self.phases.len() == self.files.len()
        &&& distinct_file_ids(self.files)
        &&& sum_sizes(self.files) == self.total_size
        &&& self.bytes_transferred == done_bytes(self.files, self.phases)
    }
}

/// A transfer that was approved and is not yet complete: its token and how
/// far its files have come.
#[derive(Debug)]
pub struct ApprovedTransfer {
    pub transfer_id: String,
    /// The secret that every chunk upload of this transfer has to show.
    pub token: String,
    pub source_ip: String,
    pub sender_name: Option<String>,
    pub files: Vec<TransferFile>,
    /// One phase for each file, in the order of `files`.
    pub phases: Vec<FilePhase>,
    pub total_size: u64,
    /// The bytes of the files that have arrived in full.
    pub bytes_transferred: u64,
    /// When the transfer was approved, in milliseconds since the Unix epoch.
    pub started_at: i64,
    /// Whether the user asked for the transfer to be aborted.
    pub cancelled: bool,
}

impl View for ApprovedTransfer {
    type V = ApprovedTransferView;

    open spec fn view(&self) -> ApprovedTransferView {
        ApprovedTransferView {
            transfer_id: self.transfer_id@,
            token: self.token@,
            source_ip: self.source_ip@,
            sender_name: self.sender_name.deep_view(),
            files: self.files.deep_view(),
            phases: self.phases@,
            total_size: self.total_size,
            bytes_transferred: self.bytes_transferred,
            started_at: self.started_at,
            cancelled: self.cancelled,
        }
    }
}

impl DeepView for ApprovedTransfer {
    type V = ApprovedTransferView;

    open spec fn deep_view(&self) -> ApprovedTransferView {
        self@
    }
}

fn clone_phases(v: &Vec<FilePhase>) -> (r: Vec<FilePhase>)
    ensures
        r@ == v@,
{
    let mut out: Vec<FilePhase> = Vec::new();
    let mut i: usize = 0;
    while i < v.len()
        invariant
            i <= v.len(),
            out.len() == i,
            forall|j: int| 0 <= j < i ==> out[j] == v[j],
        decreases v.len() - i,
    {
        out.push(v[i]);
        i = i + 1;
    }
    assert(out@ =~= v@);
    out
}

impl Clone for ApprovedTransfer {
    fn clone(&self) -> (r: Self)
        ensures
            r@ == self@,
    {
        ApprovedTransfer {
            transfer_id: self.transfer_id.clone(),
            token: self.token.clone(),
            source_ip: self.source_ip.clone(),
            sender_name: clone_opt_string(&self.sender_name),
            files: clone_files(&self.files),
            phases: clone_phases(&self.phases),
            total_size: self.total_size,
            bytes_transferred: self.bytes_transferred,
            started_at: self.started_at,
            cancelled: self.cancelled,
        }
    }
}

/// Model of a [`RejectedTransfer`].
pub struct RejectedTransferView {
    pub transfer_id: Seq<char>,
    pub reason: Seq<char>,
}

/// A transfer that ended without success, kept with the reason.
#[derive(Debug)]
pub struct RejectedTransfer {
    pub transfer_id: String,
    pub reason: String,
}

impl View for RejectedTransfer {
    type V = RejectedTransferView;

    open spec fn view(&self) -> RejectedTransferView {
        RejectedTransferView { transfer_id: self.transfer_id@, reason: self.reason@ }
    }
}

impl DeepView for RejectedTransfer {
    type V = RejectedTransferView;

    open spec fn deep_view(&self) -> RejectedTransferView {
        self@
    }
}

impl Clone for RejectedTransfer {
    fn clone(&self) -> (r: Self)
        ensures
            r@ == self@,
    {
        RejectedTransfer { transfer_id: self.transfer_id.clone(), reason: self.reason.clone() }
    }
}

/// Model of a [`Reservation`].
pub struct ReservationView {
    pub transfer_id: Seq<char>,
    pub file_id: Seq<char>,
    pub name: Seq<char>,
    pub path: Seq<char>,
}

impl ReservationView {
    /// Whether the reservation names a file directly inside a directory:
    /// its name is safe, and its path ends in a separator and that name.
    pub open spec fn wf(self) -> bool {
        &&& safe_leaf(self.name)
        &&& exists|dir: Seq<char>| self.path == path_in(dir, self.name)
    }
}

/// A file name in the download directory that a chunk upload has taken.
#[derive(Debug)]
pub struct Reservation {
    /// The transfer that the file belongs to.
    pub transfer_id: String,
    /// The file within the transfer.
    pub file_id: String,
    /// The name of the file inside the download directory.
    pub name: String,
    /// The path of the file.
    pub path: String,
}

impl View for Reservation {
    type V = ReservationView;

    open spec fn view(&self) -> ReservationView {
        ReservationView {
            transfer_id: self.transfer_id@,
            file_id: self.file_id@,
            name: self.name@,
            path: self.path@,
        }
    }
}

impl DeepView for Reservation {
    type V = ReservationView;

    open spec fn deep_view(&self) -> ReservationView {
        self@
    }
}

/// The state in which an approved transfer starts: nothing has arrived.
pub open spec fn approved_from(p: PendingTransferView, token: Seq<char>, now: i64) -> ApprovedTransferView {
    ApprovedTransferView {
        transfer_id: p.id,
        token,
        source_ip: p.source_ip,
        sender_name: p.sender_name,
        files: p.files,
        phases: Seq::new(p.files.len(), |i: int| FilePhase::Waiting),
        total_size: p.total_size,
        bytes_transferred: 0,
        started_at: now,
        cancelled: false,
    }
}

/// The pending record made of a request that arrived from `source_ip` at
/// the time `now`.
pub open spec fn pending_from(req: TransferRequestView, source_ip: Seq<char>, now: i64) -> PendingTransferView {
    PendingTransferView {
        id: req.transfer_id,
        source_ip,
        sender_name: req.sender_name,
        files: req.files,
        total_size: req.total_size,
        received_at: now,
    }
}

/// Whether a pending record is consistent, as the request it came from was.
pub open spec fn pending_wf(p: PendingTransferView) -> bool {
    &&& distinct_file_ids(p.files)
    &&& sum_sizes(p.files) == p.total_size
}

/// Model of a [`ServerState`].
pub struct ServerStateView {
    pub settings: AppSettingsView,
    pub pending: Seq<PendingTransferView>,
    pub approved: Seq<ApprovedTransferView>,
    pub rejected: Seq<RejectedTransferView>,
    pub reserved: Seq<ReservationView>,
    pub running: bool,
}

impl ServerStateView {
    /// Whether a transfer waits for approval.
    pub open spec fn is_pending(self, id: Seq<char>) -> bool {
        exists|i: int| 0 <= i < self.pending.len() && #[trigger] self.pending[i].id == id
    }

    /// Whether a transfer is approved and not yet complete.
    pub open spec fn is_approved(self, id: Seq<char>) -> bool {
        exists|i: int| 0 <= i < self.approved.len() && #[trigger] self.approved[i].transfer_id == id
    }

    /// Whether a transfer ended without success.
    pub open spec fn is_rejected(self, id: Seq<char>) -> bool {
        exists|i: int| 0 <= i < self.rejected.len() && #[trigger] self.rejected[i].transfer_id == id
    }

    /// The place of a pending transfer.
    pub open spec fn pending_index(self, id: Seq<char>) -> int {
        choose|i: int| 0 <= i < self.pending.len() && #[trigger] self.pending[i].id == id
    }

    /// The place of an approved transfer.
    pub open spec fn approved_index(self, id: Seq<char>) -> int {
        choose|i: int| 0 <= i < self.approved.len() && #[trigger] self.approved[i].transfer_id == id
    }

    /// The place of a rejected transfer.
    pub open spec fn rejected_index(self, id: Seq<char>) -> int {
        choose|i: int| 0 <= i < self.rejected.len() && #[trigger] self.rejected[i].transfer_id == id
    }

    /// The token stored for a transfer, where it is approved.
    pub open spec fn token_of(self, id: Seq<char>) -> Option<Seq<char>> {
        if self.is_approved(id) {
            Some(self.approved[self.approved_index(id)].token)
        } else {
            None
        }
    }

    /// The names in the download directory that uploads have taken.
    pub open spec fn reserved_names(self) -> Seq<Seq<char>> {
        self.reserved.map_values(|r: ReservationView| r.name)
    }

    /// The invariant of the registry. Within each of the three lists, no two
    /// records share a transfer identifier, and no identifier occurs in two
    /// of them. Every record is consistent, no two reservations share a
    /// name, and every reservation names a file directly inside a
    /// directory.
    pub open spec fn wf(self) -> bool {
        &&& forall|i: int| 0 <= i < self.pending.len() ==> pending_wf(#[trigger] self.pending[i])
        &&& forall|i: int| 0 <= i < self.approved.len() ==> (#[trigger] self.approved[i]).wf()
        &&& forall|i: int, j: int|
            0 <= i < j < self.pending.len() ==> (#[trigger] self.pending[i]).id
                != (#[trigger] self.pending[j]).id
        &&& forall|i: int, j: int|
            0 <= i < j < self.approved.len() ==> (#[trigger] self.approved[i]).transfer_id
                != (#[trigger] self.approved[j]).transfer_id
        &&& forall|i: int, j: int|
            0 <= i < j < self.rejected.len() ==> (#[trigger] self.rejected[i]).transfer_id
                != (#[trigger] self.rejected[j]).transfer_id
        &&& forall|i: int, j: int|
            0 <= i < self.pending.len() && 0 <= j < self.approved.len() ==> (
            #[trigger] self.pending[i]).id != (#[trigger] self.approved[j]).transfer_id
        &&& forall|i: int, j: int|
            0 <= i < self.pending.len() && 0 <= j < self.rejected.len() ==> (
            #[trigger] self.pending[i]).id != (#[trigger] self.rejected[j]).transfer_id
        &&& forall|i: int, j: int|
            0 <= i < self.approved.len() && 0 <= j < self.rejected.len() ==> (
            #[trigger] self.approved[i]).transfer_id != (#[trigger] self.rejected[j]).transfer_id
        &&& forall|i: int, j: int|
            0 <= i < j < self.reserved.len() ==> (#[trigger] self.reserved[i]).name
                != (#[trigger] self.reserved[j]).name
        &&& forall|i: int| 0 <= i < self.reserved.len() ==> (#[trigger] self.reserved[i]).wf()
    }

    /// The registry after the pending transfer `id` was approved with
    /// `token` at the time `now`.
    pub open spec fn accepted(self, id: Seq<char>, token: Seq<char>, now: i64) -> ServerStateView {
        let i = self.pending_index(id);
        ServerStateView {
            pending: self.pending.remove(i),
            approved: self.approved.push(approved_from(self.pending[i], token, now)),
            ..self
        }
    }

    /// The registry after the pending transfer `id` was turned down for
    /// `reason`.
    pub open spec fn turned_down(self, id: Seq<char>, reason: Seq<char>) -> ServerStateView {
        let i = self.pending_index(id);
        ServerStateView {
            pending: self.pending.remove(i),
            rejected: self.rejected.push(RejectedTransferView { transfer_id: id, reason }),
            ..self
        }
    }

    /// The registry after a new transfer was put on the pending list.
    pub open spec fn with_pending(self, p: PendingTransferView) -> ServerStateView {
        ServerStateView { pending: self.pending.push(p), ..self }
    }

    /// The registry after a new transfer was approved without asking.
    pub open spec fn with_approved(self, a: ApprovedTransferView) -> ServerStateView {
        ServerStateView { approved: self.approved.push(a), ..self }
    }
}

impl ServerStateView {
    /// Whether a transfer identifier is in none of the three lists.
    pub open spec fn is_unknown(self, id: Seq<char>) -> bool {
        !self.is_pending(id) && !self.is_approved(id) && !self.is_rejected(id)
    }

    /// Putting a consistent record of an unknown transfer on the pending
    /// list keeps the invariant.
    pub proof fn lemma_with_pending_wf(self, p: PendingTransferView)
        requires
            self.wf(),
            pending_wf(p),
            self.is_unknown(p.id),
        ensures
            self.with_pending(p).wf(),
    {
        let t = self.with_pending(p);
        assert forall|i: int| 0 <= i < t.pending.len() implies pending_wf(
            #[trigger] t.pending[i],
        ) by {
            if i < self.pending.len() {
                assert(t.pending[i] == self.pending[i]);
            }
        }
        assert forall|i: int, j: int| 0 <= i < j < t.pending.len() implies (
        #[trigger] t.pending[i]).id != (#[trigger] t.pending[j]).id by {
            assert(t.pending[i] == self.pending[i]);
            if j < self.pending.len() {
                assert(t.pending[j] == self.pending[j]);
            }
        }
        assert forall|i: int, j: int|
            0 <= i < t.pending.len() && 0 <= j < t.approved.len() implies (
        #[trigger] t.pending[i]).id != (#[trigger] t.approved[j]).transfer_id by {
            if i < self.pending.len() {
                assert(t.pending[i] == self.pending[i]);
            }
        }
        assert forall|i: int, j: int|
            0 <= i < t.pending.len() && 0 <= j < t.rejected.len() implies (
        #[trigger] t.pending[i]).id != (#[trigger] t.rejected[j]).transfer_id by {
            if i < self.pending.len() {
                assert(t.pending[i] == self.pending[i]);
            }
        }
    }

    /// Putting a consistent record of an unknown transfer on the approved
    /// list keeps the invariant.
    pub proof fn lemma_with_approved_wf(self, a: ApprovedTransferView)
        requires
            self.wf(),
            a.wf(),
            self.is_unknown(a.transfer_id),
        ensures
            self.with_approved(a).wf(),
    {
        let t = self.with_approved(a);
        assert forall|i: int| 0 <= i < t.approved.len() implies (#[trigger] t.approved[i]).wf() by {
            if i < self.approved.len() {
                assert(t.approved[i] == self.approved[i]);
            }
        }
        assert forall|i: int, j: int| 0 <= i < j < t.approved.len() implies (
        #[trigger] t.approved[i]).transfer_id != (#[trigger] t.approved[j]).transfer_id by {
            assert(t.approved[i] == self.approved[i]);
            if j < self.approved.len() {
                assert(t.approved[j] == self.approved[j]);
            }
        }
        assert forall|i: int, j: int|
            0 <= i < t.pending.len() && 0 <= j < t.approved.len() implies (
        #[trigger] t.pending[i]).id != (#[trigger] t.approved[j]).transfer_id by {
            if j < self.approved.len() {
                assert(t.approved[j] == self.approved[j]);
            }
        }
        assert forall|i: int, j: int|
            0 <= i < t.approved.len() && 0 <= j < t.rejected.len() implies (
        #[trigger] t.approved[i]).transfer_id != (#[trigger] t.rejected[j]).transfer_id by {
            if i < self.approved.len() {
                assert(t.approved[i] == self.approved[i]);
            }
        }
    }

    /// Putting a record of an unknown transfer on the rejected list keeps
    /// the invariant.
    pub proof fn lemma_with_rejected_wf(self, r: RejectedTransferView)
        requires
            self.wf(),
            self.is_unknown(r.transfer_id),
        ensures
            (ServerStateView { rejected: self.rejected.push(r), ..self }).wf(),
    {
        let t = ServerStateView { rejected: self.rejected.push(r), ..self };
        assert forall|i: int, j: int| 0 <= i < j < t.rejected.len() implies (
        #[trigger] t.rejected[i]).transfer_id != (#[trigger] t.rejected[j]).transfer_id by {
            assert(t.rejected[i] == self.rejected[i]);
            if j < self.rejected.len() {
                assert(t.rejected[j] == self.rejected[j]);
            }
        }
        assert forall|i: int, j: int|
            0 <= i < t.pending.len() && 0 <= j < t.rejected.len() implies (
        #[trigger] t.pending[i]).id != (#[trigger] t.rejected[j]).transfer_id by {
            if j < self.rejected.len() {
                assert(t.rejected[j] == self.rejected[j]);
            }
        }
        assert forall|i: int, j: int|
            0 <= i < t.approved.len() && 0 <= j < t.rejected.len() implies (
        #[trigger] t.approved[i]).transfer_id != (#[trigger] t.rejected[j]).transfer_id by {
            if j < self.rejected.len() {
                assert(t.rejected[j] == self.rejected[j]);
            }
        }
    }

    /// Taking the record at `at` off the pending list keeps the invariant
    /// and leaves its transfer in none of the lists.
    pub proof fn lemma_without_pending_wf(self, at: int)
        requires
            self.wf(),
            0 <= at < self.pending.len(),
        ensures
            (ServerStateView { pending: self.pending.remove(at), ..self }).wf(),
            (ServerStateView { pending: self.pending.remove(at), ..self }).is_unknown(
                self.pending[at].id,
            ),
    {
        let t = ServerStateView { pending: self.pending.remove(at), ..self };
        let id = self.pending[at].id;
        assert forall|i: int| 0 <= i < t.pending.len() implies #[trigger] t.pending[i] == self.pending[if i
            < at {
            i
        } else {
            i + 1
        }] by {}
        assert forall|i: int| 0 <= i < t.pending.len() implies pending_wf(
            #[trigger] t.pending[i],
        ) by {
            assert(pending_wf(self.pending[if i < at { i } else { i + 1 }]));
        }
        assert forall|i: int, j: int| 0 <= i < j < t.pending.len() implies (
        #[trigger] t.pending[i]).id != (#[trigger] t.pending[j]).id by {
            let a = if i < at { i } else { i + 1 };
            let b = if j < at { j } else { j + 1 };
            assert(self.pending[a].id != self.pending[b].id);
        }
        assert forall|i: int, j: int|
            0 <= i < t.pending.len() && 0 <= j < t.approved.len() implies (
        #[trigger] t.pending[i]).id != (#[trigger] t.approved[j]).transfer_id by {
            let a = if i < at { i } else { i + 1 };
            assert(self.pending[a].id != self.approved[j].transfer_id);
        }
        assert forall|i: int, j: int|
            0 <= i < t.pending.len() && 0 <= j < t.rejected.len() implies (
        #[trigger] t.pending[i]).id != (#[trigger] t.rejected[j]).transfer_id by {
            let a = if i < at { i } else { i + 1 };
            assert(self.pending[a].id != self.rejected[j].transfer_id);
        }
        assert(!t.is_pending(id)) by {
            if t.is_pending(id) {
                let i = t.pending_index(id);
                let a = if i < at { i } else { i + 1 };
                assert(self.pending[a].id == id);
                if a < at {
                    assert(self.pending[a].id != self.pending[at].id);
                } else {
                    assert(self.pending[at].id != self.pending[a].id);
                }
            }
        }
        assert(!t.is_approved(id)) by {
            if t.is_approved(id) {
                let j = t.approved_index(id);
                assert(self.pending[at].id != self.approved[j].transfer_id);
            }
        }
        assert(!t.is_rejected(id)) by {
            if t.is_rejected(id) {
                let j = t.rejected_index(id);
                assert(self.pending[at].id != self.rejected[j].transfer_id);
            }
        }
    }

    /// Taking the record at `at` off the approved list keeps the invariant
    /// and leaves its transfer in none of the lists.
    pub proof fn lemma_without_approved_wf(self, at: int)
        requires
            self.wf(),
            0 <= at < self.approved.len(),
        ensures
            (ServerStateView { approved: self.approved.remove(at), ..self }).wf(),
            (ServerStateView { approved: self.approved.remove(at), ..self }).is_unknown(
                self.approved[at].transfer_id,
            ),
    {
        let t = ServerStateView { approved: self.approved.remove(at), ..self };
        let id = self.approved[at].transfer_id;
        assert forall|i: int| 0 <= i < t.approved.len() implies #[trigger] t.approved[i]
            == self.approved[if i < at {
            i
        } else {
            i + 1
        }] by {}
        assert forall|i: int| 0 <= i < t.approved.len() implies (#[trigger] t.approved[i]).wf() by {
            assert(self.approved[if i < at { i } else { i + 1 }].wf());
        }
        assert forall|i: int, j: int| 0 <= i < j < t.approved.len() implies (
        #[trigger] t.approved[i]).transfer_id != (#[trigger] t.approved[j]).transfer_id by {
            let a = if i < at { i } else { i + 1 };
            let b = if j < at { j } else { j + 1 };
            assert(self.approved[a].transfer_id != self.approved[b].transfer_id);
        }
        assert forall|i: int, j: int|
            0 <= i < t.pending.len() && 0 <= j < t.approved.len() implies (
        #[trigger] t.pending[i]).id != (#[trigger] t.approved[j]).transfer_id by {
            let b = if j < at { j } else { j + 1 };
            assert(self.pending[i].id != self.approved[b].transfer_id);
        }
        assert forall|i: int, j: int|
            0 <= i < t.approved.len() && 0 <= j < t.rejected.len() implies (
        #[trigger] t.approved[i]).transfer_id != (#[trigger] t.rejected[j]).transfer_id by {
            let a = if i < at { i } else { i + 1 };
            assert(self.approved[a].transfer_id != self.rejected[j].transfer_id);
        }
        assert(!t.is_approved(id)) by {
            if t.is_approved(id) {
                let i = t.approved_index(id);
                let a = if i < at { i } else { i + 1 };
                assert(self.approved[a].transfer_id == id);
                if a < at {
                    assert(self.approved[a].transfer_id != self.approved[at].transfer_id);
                } else {
                    assert(self.approved[at].transfer_id != self.approved[a].transfer_id);
                }
            }
        }
        assert(!t.is_pending(id)) by {
            if t.is_pending(id) {
                let i = t.pending_index(id);
                assert(self.pending[i].id != self.approved[at].transfer_id);
            }
        }
        assert(!t.is_rejected(id)) by {
            if t.is_rejected(id) {
                let j = t.rejected_index(id);
                assert(self.approved[at].transfer_id != self.rejected[j].transfer_id);
            }
        }
    }

    /// Approving a pending transfer keeps the invariant.
    pub proof fn lemma_accepted_wf(self, id: Seq<char>, token: Seq<char>, now: i64)
        requires
            self.wf(),
            self.is_pending(id),
        ensures
            self.accepted(id, token, now).wf(),
    {
        let i = self.pending_index(id);
        let a = approved_from(self.pending[i], token, now);
        assert(pending_wf(self.pending[i]));
        lemma_done_bytes_none(a.files, a.phases);
        self.lemma_without_pending_wf(i);
        let t = ServerStateView { pending: self.pending.remove(i), ..self };
        t.lemma_with_approved_wf(a);
        assert(t.with_approved(a) == self.accepted(id, token, now));
    }

    /// Turning a pending transfer down keeps the invariant.
    pub proof fn lemma_turned_down_wf(self, id: Seq<char>, reason: Seq<char>)
        requires
            self.wf(),
            self.is_pending(id),
        ensures
            self.turned_down(id, reason).wf(),
    {
        let i = self.pending_index(id);
        self.lemma_without_pending_wf(i);
        let t = ServerStateView { pending: self.pending.remove(i), ..self };
        let r = RejectedTransferView { transfer_id: id, reason };
        t.lemma_with_rejected_wf(r);
        assert((ServerStateView { rejected: t.rejected.push(r), ..t }) == self.turned_down(
            id,
            reason,
        ));
    }
}

/// A transfer identifier is in at most one of the three lists.
pub proof fn lemma_one_list_per_transfer(s: ServerStateView, id: Seq<char>)
    requires
        s.wf(),
    ensures
        !(s.is_pending(id) && s.is_approved(id)),
        !(s.is_pending(id) && s.is_rejected(id)),
        !(s.is_approved(id) && s.is_rejected(id)),
{
    if s.is_pending(id) && s.is_approved(id) {
        let i = s.pending_index(id);
        let j = s.approved_index(id);
        assert(s.pending[i].id != s.approved[j].transfer_id);
    }
    if s.is_pending(id) && s.is_rejected(id) {
        let i = s.pending_index(id);
        let j = s.rejected_index(id);
        assert(s.pending[i].id != s.rejected[j].transfer_id);
    }
    if s.is_approved(id) && s.is_rejected(id) {
        let i = s.approved_index(id);
        let j = s.rejected_index(id);
        assert(s.approved[i].transfer_id != s.rejected[j].transfer_id);
    }
}

impl Clone for Reservation {
    fn clone(&self) -> (r: Self)
        ensures
            r@ == self@,
    {
        Reservation {
            transfer_id: self.transfer_id.clone(),
            file_id: self.file_id.clone(),
            name: self.name.clone(),
            path: self.path.clone(),
        }
    }
}

impl ServerStateView {
    /// The registry after every pending transfer was approved at the time
    /// `now`, the one at place `k` with the token `tokens[k]`.
    pub open spec fn all_accepted(self, tokens: Seq<Seq<char>>, now: i64) -> ServerStateView {
        ServerStateView {
            pending: Seq::empty(),
            approved: self.approved + Seq::new(
                self.pending.len(),
                |k: int| approved_from(self.pending[k], tokens[k], now),
            ),
            ..self
        }
    }

    /// The registry after every pending transfer was turned down.
    pub open spec fn all_turned_down(self) -> ServerStateView {
        ServerStateView {
            pending: Seq::empty(),
            rejected: self.rejected + Seq::new(
                self.pending.len(),
                |k: int|
                    RejectedTransferView {
                        transfer_id: self.pending[k].id,
                        reason: "rejected"@,
                    },
            ),
            ..self
        }
    }

    /// Approving every pending transfer keeps the invariant.
    pub proof fn lemma_all_accepted_wf(self, tokens: Seq<Seq<char>>, now: i64)
        requires
            self.wf(),
        ensures
            self.all_accepted(tokens, now).wf(),
    {
        let t = self.all_accepted(tokens, now);
        let n = self.approved.len() as int;
        assert forall|i: int| 0 <= i < t.approved.len() implies (#[trigger] t.approved[i]).wf() by {
            if i < n {
                assert(t.approved[i] == self.approved[i]);
            } else {
                let p = self.pending[i - n];
                assert(pending_wf(p));
                lemma_done_bytes_none(t.approved[i].files, t.approved[i].phases);
            }
        }
        assert forall|i: int, j: int| 0 <= i < j < t.approved.len() implies (
        #[trigger] t.approved[i]).transfer_id != (#[trigger] t.approved[j]).transfer_id by {
            if j < n {
                assert(self.approved[i].transfer_id != self.approved[j].transfer_id);
            } else if i < n {
                assert(self.pending[j - n].id != self.approved[i].transfer_id);
            } else {
                assert(self.pending[i - n].id != self.pending[j - n].id);
            }
        }
        assert forall|i: int, j: int|
            0 <= i < t.approved.len() && 0 <= j < t.rejected.len() implies (
        #[trigger] t.approved[i]).transfer_id != (#[trigger] t.rejected[j]).transfer_id by {
            if i < n {
                assert(self.approved[i].transfer_id != self.rejected[j].transfer_id);
            } else {
                assert(self.pending[i - n].id != self.rejected[j].transfer_id);
            }
        }
    }

    /// Turning every pending transfer down keeps the invariant.
    pub proof fn lemma_all_turned_down_wf(self)
        requires
            self.wf(),
        ensures
            self.all_turned_down().wf(),
    {
        let t = self.all_turned_down();
        let n = self.rejected.len() as int;
        assert forall|i: int, j: int| 0 <= i < j < t.rejected.len() implies (
        #[trigger] t.rejected[i]).transfer_id != (#[trigger] t.rejected[j]).transfer_id by {
            if j < n {
                assert(self.rejected[i].transfer_id != self.rejected[j].transfer_id);
            } else if i < n {
                assert(self.pending[j - n].id != self.rejected[i].transfer_id);
            } else {
                assert(self.pending[i - n].id != self.pending[j - n].id);
            }
        }
        assert forall|i: int, j: int|
            0 <= i < t.approved.len() && 0 <= j < t.rejected.len() implies (
        #[trigger] t.approved[i]).transfer_id != (#[trigger] t.rejected[j]).transfer_id by {
            if j < n {
                assert(self.approved[i].transfer_id != self.rejected[j].transfer_id);
            } else {
                assert(self.pending[j - n].id != self.approved[i].transfer_id);
            }
        }
    }
}

/// The tokens of a list of pairs of a transfer identifier and its token.
pub open spec fn tokens_of(pairs: Seq<(Seq<char>, Seq<char>)>) -> Seq<Seq<char>> {
    pairs.map_values(|p: (Seq<char>, Seq<char>)| p.1)
}

} // verus!
