//! What holds of the engine as a whole, proved from the definitions that the
//! contracts of its operations are stated in.

use crate::chunk::{
    file_index, lemma_no_reservation_left, lemma_paths_of_contains, lemma_with_phase_wf, paths_of,
    size_mismatch_message, with_phase, ChunkError, ChunkParamsView, ChunkTicketView, CompleteCase,
};
use crate::client::{FileStep, PostOutcomeView, UploadOutcomeView};
use crate::events::ServerEventView;
use crate::naming::{
    is_free_name_for, lemma_target_inside, path_in, safe_leaf, smallest_free_number, target_leaf,
};
use crate::registry::{
    lemma_done_bytes_bounded, lemma_done_bytes_complete, lemma_one_list_per_transfer,
    ApprovedTransferView, FilePhase, ReservationView, ServerStateView,
};
use crate::send::{
    backoff_ms, quiet_stop, SendAction, SendPhase, SendSessionView, APPROVAL_CAP_MS,
};
use crate::text::{basename, lemma_basename_of_leaf, numbered_name};
use crate::types::{AppErrorView, TransferRequestView};
use vstd::prelude::*;

verus! {

/// Where a transfer stands in the registry of the receiving side.
pub enum Stage {
    /// In none of the lists: never seen, or complete.
    Unknown,
    /// Waiting for approval.
    Pending,
    /// Approved and not yet complete.
    Approved,
    /// Ended without success.
    Rejected,
}

/// Where the transfer `id` stands.
pub open spec fn stage(s: ServerStateView, id: Seq<char>) -> Stage {
    if s.is_pending(id) {
        Stage::Pending
    } else if s.is_approved(id) {
        Stage::Approved
    } else if s.is_rejected(id) {
        Stage::Rejected
    } else {
        Stage::Unknown
    }
}

/// Whether an event about a transfer comes in its place: a request opens
/// the transfer, progress is reported only while it is approved, and
/// completion or failure closes it.
pub open spec fn in_order(before: Stage, event: ServerEventView, after: Stage) -> bool {
    match event {
        ServerEventView::TransferRequest { .. } => before is Unknown && after is Pending,
        ServerEventView::Progress { .. } => before is Approved && after is Approved,
        ServerEventView::TransferComplete { .. } => before is Approved && after is Unknown,
        ServerEventView::TransferFailed { .. } => (before is Pending || before is Approved)
            && after is Rejected,
        _ => true,
    }
}

/// Whether an event ends a transfer.
pub open spec fn is_terminal(event: ServerEventView) -> bool {
    event is TransferComplete || event is TransferFailed
}

/// The number of events that end a transfer.
pub open spec fn terminal_events(events: Seq<ServerEventView>) -> nat
    decreases events.len(),
{
    if events.len() == 0 {
        0
    } else {
        terminal_events(events.drop_last()) + if is_terminal(events.last()) {
            1nat
        } else {
            0nat
        }
    }
}

proof fn lemma_terminal_events_short(events: Seq<ServerEventView>)
    ensures
        events.len() == 0 ==> terminal_events(events) == 0,
        events.len() == 1 ==> terminal_events(events) == if is_terminal(events[0]) {
            1nat
        } else {
            0nat
        },
        events.len() == 2 ==> terminal_events(events) == (if is_terminal(events[0]) {
            1nat
        } else {
            0nat
        }) + (if is_terminal(events[1]) {
            1nat
        } else {
            0nat
        }),
{
    reveal_with_fuel(terminal_events, 3);
    if events.len() == 1 {
        assert(events.drop_last().len() == 0);
        assert(events.last() == events[0]);
    }
    if events.len() == 2 {
        let head = events.drop_last();
        assert(head.len() == 1);
        assert(head.drop_last().len() == 0);
        assert(head.last() == events[0]);
        assert(events.last() == events[1]);
    }
}

/// A transfer is in at most one of the pending, approved and rejected
/// lists, in every state that the operations of the server can reach.
pub proof fn lemma_transfer_in_one_list(s: ServerStateView, id: Seq<char>)
    requires
        s.wf(),
    ensures
        !(s.is_pending(id) && s.is_approved(id)),
        !(s.is_pending(id) && s.is_rejected(id)),
        !(s.is_approved(id) && s.is_rejected(id)),
{
    lemma_one_list_per_transfer(s, id);
}

/// The bytes counted for an approved transfer never exceed its total
/// size.
pub proof fn lemma_bytes_within_total(a: ApprovedTransferView)
    requires
        a.wf(),
    ensures
        a.bytes_transferred <= a.total_size,
{
    lemma_done_bytes_bounded(a.files, a.phases);
}

/// Where the last step of an upload completes its transfer, the file has
/// arrived with exactly the number of bytes declared, and the bytes of
/// all files together are the total size of the transfer.
pub proof fn lemma_complete_has_all_bytes(s: ServerStateView, t: ChunkTicketView, received: u64)
    requires
        s.wf(),
        s.complete_case(t, received) is TransferDone,
    ensures
        ({
            let a = s.approved[s.approved_index(t.transfer_id)];
            &&& received == a.files[t.file_index].size
            &&& a.bytes_transferred + received == a.total_size
            &&& with_phase(a, t.file_index, FilePhase::Done).bytes_transferred == a.total_size
        }),
{
    let a = s.approved[s.approved_index(t.transfer_id)];
    let done = with_phase(a, t.file_index, FilePhase::Done);
    lemma_with_phase_wf(a, t.file_index, FilePhase::Done);
    lemma_done_bytes_complete(done.files, done.phases);
}

/// Where an upload under way breaks off, every file written for its
/// transfer is to be deleted, the file of this upload among them; the
/// transfer is on the rejected list, and nothing stays reserved for it.
pub proof fn lemma_failure_deletes_every_file(
    s: ServerStateView,
    t: ChunkTicketView,
    received: u64,
    error: Seq<char>,
)
    requires
        s.wf(),
        s.ticket_live(t),
    ensures
        s.failure_result(t, received, error).status == 500,
        s.failure_result(t, received, error).delete.contains(t.path),
        forall|k: int|
            0 <= k < s.reserved.len() && (#[trigger] s.reserved[k]).transfer_id == t.transfer_id
                ==> s.failure_result(t, received, error).delete.contains(s.reserved[k].path),
        forall|k: int|
            0 <= k < s.after_failure(t, error).reserved.len() ==> (
            #[trigger] s.after_failure(t, error).reserved[k]).transfer_id != t.transfer_id,
        s.after_failure(t, error).is_rejected(t.transfer_id),
        !s.after_failure(t, error).is_approved(t.transfer_id),
{
    let id = t.transfer_id;
    let at = s.approved_index(id);
    let after = s.after_failure(t, error);
    let k0 = choose|k: int| 0 <= k < s.reserved.len() && #[trigger] s.reserved[k] == t.reservation();
    lemma_paths_of_contains(s.reserved, id, k0);
    assert forall|k: int|
        0 <= k < s.reserved.len() && (#[trigger] s.reserved[k]).transfer_id
            == id implies paths_of(s.reserved, id).contains(s.reserved[k].path) by {
        lemma_paths_of_contains(s.reserved, id, k);
    }
    assert forall|k: int| 0 <= k < after.reserved.len() implies (
    #[trigger] after.reserved[k]).transfer_id != id by {
        lemma_no_reservation_left(s.reserved, id, k);
    }
    assert(after.rejected[s.rejected.len() as int].transfer_id == id);
    s.lemma_failed_wf(at, error);
    lemma_transfer_in_one_list(after, id);
}

/// An upload that ends after its transfer was flagged for abort is
/// answered as failed, the file it wrote is to be deleted, and one failure
/// event with the error `cancelled` is emitted.
pub proof fn lemma_cancel_leaves_no_partial_file(s: ServerStateView, t: ChunkTicketView, received: u64)
    requires
        s.wf(),
        s.ticket_live(t),
        s.approved[s.approved_index(t.transfer_id)].cancelled,
    ensures
        s.complete_outcome(t, received).status == 500,
        s.complete_outcome(t, received).delete.contains(t.path),
        s.complete_outcome(t, received).events == seq![
            ServerEventView::TransferFailed { transfer_id: t.transfer_id, error: "cancelled"@ },
        ],
        !s.after_complete(t, received).is_approved(t.transfer_id),
{
    lemma_failure_deletes_every_file(s, t, received, "cancelled"@);
}

/// An upload is let in only with the token stored for its transfer, and
/// while one upload of a file is under way, a second one for the same file
/// is refused.
pub proof fn lemma_one_upload_per_token(s: ServerStateView, p: ChunkParamsView, r: ReservationView)
    requires
        s.wf(),
        s.chunk_error(p) is None,
    ensures
        s.token_of(p.transfer_id) == Some(p.token),
        ({
            let at = s.approved_index(p.transfer_id);
            let f = file_index(s.approved[at].files, p.file_id);
            s.receiving(at, f, r).chunk_error(p) == Some(ChunkError::NotWaiting)
        }),
{
    let at = s.approved_index(p.transfer_id);
    let a = s.approved[at];
    let f = file_index(a.files, p.file_id);
    let after = s.receiving(at, f, r);
    assert(after.approved[at].transfer_id == p.transfer_id);
    let k = after.approved_index(p.transfer_id);
    assert(after.approved[k].transfer_id == p.transfer_id);
    assert(s.approved[k].transfer_id == p.transfer_id) by {
        if k != at {
            assert(after.approved[k] == s.approved[k]);
        }
    }
    if k < at {
        assert(s.approved[k].transfer_id != s.approved[at].transfer_id);
    }
    if at < k {
        assert(s.approved[at].transfer_id != s.approved[k].transfer_id);
    }
}

/// An upload that shows another token than the stored one, or the
/// identifier of a transfer that is not approved, is refused as
/// unauthorized.
pub proof fn lemma_wrong_token_refused(s: ServerStateView, p: ChunkParamsView)
    requires
        s.token_of(p.transfer_id) != Some(p.token),
    ensures
        s.chunk_error(p) == Some(ChunkError::Unauthorized),
{
}

/// Every file that an upload writes lies directly inside the directory it
/// was reserved in: its path starts with the directory and ends, after a
/// separator, in a name that is neither empty nor `.` nor `..` and has no
/// separator in it.
pub proof fn lemma_reserved_paths_inside(s: ServerStateView, k: int)
    requires
        s.wf(),
        0 <= k < s.reserved.len(),
    ensures
        safe_leaf(s.reserved[k].name),
        basename(s.reserved[k].path) == s.reserved[k].name,
        exists|dir: Seq<char>|
            dir.is_prefix_of(s.reserved[k].path) && s.reserved[k].path == #[trigger] path_in(
                dir,
                s.reserved[k].name,
            ),
{
    let r = s.reserved[k];
    assert(r.wf());
    let dir = choose|dir: Seq<char>| r.path == path_in(dir, r.name);
    lemma_target_inside(dir, r.name);
}

/// A file whose declared name is a plain file name is stored under that
/// name, character for character, unless the name is taken; then it is
/// stored under the name with a number in brackets before the extension.
pub proof fn lemma_stored_under_its_name(
    name: Seq<char>,
    taken: Seq<Seq<char>>,
    stored: Seq<char>,
)
    requires
        safe_leaf(name),
        is_free_name_for(target_leaf(name)->0, taken, stored),
    ensures
        target_leaf(name) == Some(name),
        !taken.contains(name) ==> stored == name,
        taken.contains(name) ==> exists|k: nat|
            k >= 1 && stored == #[trigger] numbered_name(name, k),
{
    lemma_basename_of_leaf(name);
    if taken.contains(name) {
        let k = choose|k: nat| smallest_free_number(name, taken, k) && stored == numbered_name(name, k);
        assert(k >= 1 && stored == numbered_name(name, k));
    }
}

/// No two reservations share a name or a path: files of the same name,
/// in one transfer or in several, go to different places.
pub proof fn lemma_targets_distinct(s: ServerStateView, i: int, j: int)
    requires
        s.wf(),
        0 <= i < s.reserved.len(),
        0 <= j < s.reserved.len(),
        i != j,
    ensures
        s.reserved[i].name != s.reserved[j].name,
        s.reserved[i].path != s.reserved[j].path,
{
    if i < j {
        assert(s.reserved[i].name != s.reserved[j].name);
    } else {
        assert(s.reserved[j].name != s.reserved[i].name);
    }
    lemma_reserved_paths_inside(s, i);
    lemma_reserved_paths_inside(s, j);
}

/// Every answer to a transfer request bears a token exactly when it
/// accepts.
pub proof fn lemma_responses_well_formed(
    s: ServerStateView,
    req: TransferRequestView,
    source_ip: Seq<char>,
    token: Seq<char>,
    now: i64,
)
    ensures
        s.request_outcome(req, source_ip, token, now).response.well_formed(),
{
}

/// The event of a transfer request comes in its place: a request is
/// announced only for a transfer that was in none of the lists, and puts
/// it on the pending list.
pub proof fn lemma_request_event_in_order(
    s: ServerStateView,
    req: TransferRequestView,
    source_ip: Seq<char>,
    token: Seq<char>,
    now: i64,
)
    requires
        s.wf(),
    ensures
        s.request_outcome(req, source_ip, token, now).event matches Some(e) ==> e.transfer_id()
            == Some(req.transfer_id) && in_order(
            stage(s, req.transfer_id),
            e,
            stage(s.after_request(req, source_ip, token, now), req.transfer_id),
        ),
{
    if s.request_case(req, source_ip) is Enqueue {
        let after = s.after_request(req, source_ip, token, now);
        assert(after.pending[s.pending.len() as int].id == req.transfer_id);
    }
}

/// The event of a rejection comes in its place: it closes a transfer that
/// was pending.
pub proof fn lemma_rejection_in_order(s: ServerStateView, id: Seq<char>, reason: Seq<char>)
    requires
        s.wf(),
        s.is_pending(id),
    ensures
        in_order(
            stage(s, id),
            ServerEventView::TransferFailed { transfer_id: id, error: reason },
            stage(s.turned_down(id, reason), id),
        ),
{
    let after = s.turned_down(id, reason);
    s.lemma_turned_down_wf(id, reason);
    assert(after.rejected[s.rejected.len() as int].transfer_id == id);
    lemma_transfer_in_one_list(after, id);
}

/// The events of the last step of an upload come in their place, and a
/// transfer ends with exactly one event: one of completion or failure
/// where the step takes the transfer off the approved list, none where it
/// does not.
pub proof fn lemma_chunk_events_in_order(s: ServerStateView, t: ChunkTicketView, received: u64)
    requires
        s.wf(),
    ensures
        forall|k: int|
            0 <= k < s.complete_outcome(t, received).events.len() ==> (
            #[trigger] s.complete_outcome(t, received).events[k]).transfer_id() == Some(
                t.transfer_id,
            ) && in_order(
                stage(s, t.transfer_id),
                s.complete_outcome(t, received).events[k],
                stage(s.after_complete(t, received), t.transfer_id),
            ),
        terminal_events(s.complete_outcome(t, received).events) == if s.is_approved(
            t.transfer_id,
        ) && !s.after_complete(t, received).is_approved(t.transfer_id) {
            1nat
        } else {
            0nat
        },
{
    let id = t.transfer_id;
    let after = s.after_complete(t, received);
    let events = s.complete_outcome(t, received).events;
    lemma_terminal_events_short(events);
    lemma_transfer_in_one_list(s, id);
    match s.complete_case(t, received) {
        CompleteCase::Stale => {},
        CompleteCase::Cancelled => {
            lemma_failure_deletes_every_file(s, t, received, "cancelled"@);
            assert(after == s.after_failure(t, "cancelled"@));
            s.lemma_failed_wf(s.approved_index(id), "cancelled"@);
            lemma_transfer_in_one_list(after, id);
        },
        CompleteCase::SizeMismatch => {
            let at = s.approved_index(id);
            let error = size_mismatch_message(
                s.approved[at].files[t.file_index].size,
                received,
            );
            lemma_failure_deletes_every_file(s, t, received, error);
            assert(after == s.after_failure(t, error));
            s.lemma_failed_wf(at, error);
            lemma_transfer_in_one_list(after, id);
        },
        CompleteCase::FileDone => {
            let at = s.approved_index(id);
            assert(after.approved[at].transfer_id == id);
        },
        CompleteCase::TransferDone => {
            let at = s.approved_index(id);
            s.lemma_without_approved_wf(at);
            let gone = ServerStateView { approved: s.approved.remove(at), ..s };
            assert(gone.is_unknown(id));
            assert(after.pending == gone.pending);
            assert(after.approved == gone.approved);
            assert(after.rejected == gone.rejected);
            assert(!after.is_pending(id)) by {
                if after.is_pending(id) {
                    let k = after.pending_index(id);
                    assert(gone.pending[k].id == id);
                }
            }
            assert(!after.is_approved(id)) by {
                if after.is_approved(id) {
                    let k = after.approved_index(id);
                    assert(gone.approved[k].transfer_id == id);
                }
            }
            assert(!after.is_rejected(id)) by {
                if after.is_rejected(id) {
                    let k = after.rejected_index(id);
                    assert(gone.rejected[k].transfer_id == id);
                }
            }
        },
    }
}

/// A session ends once: the step that ends it emits exactly one event of
/// completion or failure, every other step emits none, and a session that
/// has ended stays as it is and emits nothing.
pub proof fn lemma_response_ends_once(s: SendSessionView, o: PostOutcomeView)
    ensures
        terminal_events(s.after_response(o).1.events) == if !s.is_over() && s.after_response(
            o,
        ).0.is_over() {
            1nat
        } else {
            0nat
        },
        s.is_over() ==> s.after_response(o) == (s, quiet_stop()),
        forall|k: int|
            0 <= k < s.after_response(o).1.events.len() ==> (#[trigger] s.after_response(
                o,
            ).1.events[k]).transfer_id() == Some(s.transfer_id),
{
    lemma_terminal_events_short(s.after_response(o).1.events);
}

/// The same for the outcome of an upload.
pub proof fn lemma_upload_ends_once(s: SendSessionView, o: UploadOutcomeView)
    ensures
        terminal_events(s.after_upload(o).1.events) == if !s.is_over() && s.after_upload(
            o,
        ).0.is_over() {
            1nat
        } else {
            0nat
        },
        s.is_over() ==> s.after_upload(o) == (s, quiet_stop()),
        forall|k: int|
            0 <= k < s.after_upload(o).1.events.len() ==> (#[trigger] s.after_upload(
                o,
            ).1.events[k]).transfer_id() == Some(s.transfer_id),
{
    lemma_terminal_events_short(s.after_upload(o).1.events);
}

/// A send that ends in rejection returns the error of a rejected transfer:
/// after the peer's explicit rejection, and after the peer left the request
/// unapproved until the longest wait was over. It emits one failure event
/// with the error `rejected`, and stops.
pub proof fn lemma_rejected_send(s: SendSessionView, o: PostOutcomeView)
    requires
        s.wf(),
        s.phase == SendPhase::AwaitingApproval,
        !s.cancelled,
        (o matches PostOutcomeView::Refused(status, _) && status == 503) || (
        o matches PostOutcomeView::Answer(resp) && !resp.accepted && s.waited_ms + backoff_ms(
            s.attempt as nat,
        ) > APPROVAL_CAP_MS),
    ensures
        s.after_response(o).0.result() == Some(
            Err::<Seq<char>, AppErrorView>(AppErrorView::TransferRejected),
        ),
        s.after_response(o).1.events == seq![
            ServerEventView::TransferFailed { transfer_id: s.transfer_id, error: "rejected"@ },
        ],
        s.after_response(o).1.action == SendAction::Stop,
{
}

/// While the peer leaves the request unapproved and the longest wait is
/// not over, the send has no result yet, and the request is posted again
/// after the pause that is due.
pub proof fn lemma_unapproved_send_waits(s: SendSessionView, o: PostOutcomeView)
    requires
        s.wf(),
        s.phase == SendPhase::AwaitingApproval,
        !s.cancelled,
        o matches PostOutcomeView::Answer(resp) && !resp.accepted,
        s.waited_ms + backoff_ms(s.attempt as nat) <= APPROVAL_CAP_MS,
    ensures
        s.after_response(o).0.result() is None,
        s.after_response(o).1.action == (SendAction::Post {
            delay_ms: backoff_ms(s.attempt as nat) as u64,
        }),
        terminal_events(s.after_response(o).1.events) == 0,
{
    lemma_terminal_events_short(s.after_response(o).1.events);
}

/// A file that cannot be opened or read ends the send at once, without
/// another try: the send returns a file error, and one failure event is
/// emitted.
pub proof fn lemma_unreadable_file_ends_send(s: SendSessionView, step: FileStep, text: Seq<char>)
    requires
        s.wf(),
        s.phase == SendPhase::Uploading,
        !s.cancelled,
    ensures
        s.after_upload(UploadOutcomeView::Unreadable(step, text)).0.result() == Some(
            Err::<Seq<char>, AppErrorView>(AppErrorView::FileIo(step.prefix() + text)),
        ),
        s.after_upload(UploadOutcomeView::Unreadable(step, text)).1.action == SendAction::Stop,
        s.after_upload(UploadOutcomeView::Unreadable(step, text)).1.events == seq![
            ServerEventView::TransferFailed {
                transfer_id: s.transfer_id,
                error: step.prefix() + text,
            },
        ],
{
}

/// A send has a result exactly when it has ended, and a send that
/// completed returns the identifier of its transfer.
pub proof fn lemma_result_when_over(s: SendSessionView)
    requires
        s.wf(),
    ensures
        s.result() is Some <==> s.is_over(),
        s.phase == SendPhase::Complete ==> s.result() == Some(
            Ok::<Seq<char>, AppErrorView>(s.transfer_id),
        ),
        s.phase == SendPhase::Failed ==> s.result() == Some(
            Err::<Seq<char>, AppErrorView>(s.failure->0),
        ),
{
}

/// A session that completes has sent every byte of every file, in the
/// order of the files.
pub proof fn lemma_complete_session_sent_all(s: SendSessionView)
    requires
        s.wf(),
        s.phase == SendPhase::Complete,
    ensures
        s.index == s.files.len(),
        s.sent_bytes == s.total_size,
{
    assert(s.files.take(s.index) =~= s.files);
}

} // verus!
