//! The receiving side in operation: the shared state, and the operations
//! that decide on incoming requests and chunk uploads and that approve,
//! reject and cancel.
//!
//! Everything here decides and records; nothing here touches the network or
//! the disk. Each operation says what the caller has to send, emit or
//! delete.

use crate::chunk::{
    failure_outcome, file_index, lemma_file_index, lemma_with_phase_wf, paths_of,
    reservations_of_others, size_mismatch_message, stale_outcome, too_large_message, with_phase,
    ChunkError, ChunkOutcome, ChunkOutcomeView, ChunkParams, ChunkTicket,
};
use crate::client::{app_name, HealthInfo, HealthInfoView, PeerInfo, PeerInfoView};
use crate::events::{ServerEvent, ServerEventView};
use crate::naming::{
    is_free_name_for, join_path, lemma_free_name_is_safe, path_in, safe_leaf, safe_target_leaf,
    target_leaf, unique_name,
};
use crate::platform::{is_token_text, new_uuid_text, now_millis};
use crate::registry::{
    all_done, approved_from, lemma_done_bytes_none, pending_from, pending_wf, tokens_of,
    ApprovedTransfer, ApprovedTransferView, FilePhase, RejectedTransfer, RejectedTransferView,
    Reservation, ReservationView, ServerStateView,
};
use crate::request::{transfer_not_found, RequestOutcome, RequestOutcomeView, refusal};
use crate::settings::{with_trusted_host, without_trusted_host};
use crate::text::{constant_time_eq, text_eq, u64_to_text};
use crate::types::{
    clone_strings, AppError, AppSettings, AppSettingsView, PendingTransfer, PendingTransferView,
    TransferRequest, TransferResponse,
};
use crate::validate::find_file;
use vstd::prelude::*;
use vstd::string::*;

verus! {

/// Draws a fresh approval token: two random UUIDs, one behind the other,
/// so that the token holds more than 128 random bits.
pub fn fresh_token() -> (r: String)
    ensures
        is_token_text(r@),
{
    let first = new_uuid_text();
    let second = new_uuid_text();
    let ghost a = first@;
    let token = first.concat(second.as_str());
    proof {
        assert(token@.take(36) =~= a);
        assert(token@.skip(36) =~= second@);
    }
    token
}

/// The shared state of the receiving side.
pub struct ServerState {
    settings: AppSettings,
    pending: Vec<PendingTransfer>,
    approved: Vec<ApprovedTransfer>,
    rejected: Vec<RejectedTransfer>,
    reserved: Vec<Reservation>,
    running: bool,
}

impl View for ServerState {
    type V = ServerStateView;

    closed spec fn view(&self) -> ServerStateView {
        ServerStateView {
            settings: self.settings@,
            pending: self.pending.deep_view(),
            approved: self.approved.deep_view(),
            rejected: self.rejected.deep_view(),
            reserved: self.reserved.deep_view(),
            running: self.running,
        }
    }
}

impl ServerState {
    /// A server that has seen no transfer and does not listen yet.
    pub fn new(settings: AppSettings) -> (r: Self)
        ensures
            r@.wf(),
            r@ == (ServerStateView {
                settings: settings@,
                pending: Seq::empty(),
                approved: Seq::empty(),
                rejected: Seq::empty(),
                reserved: Seq::empty(),
                running: false,
            }),
    {
        let r = ServerState {
            settings,
            pending: Vec::new(),
            approved: Vec::new(),
            rejected: Vec::new(),
            reserved: Vec::new(),
            running: false,
        };
        assert(r.pending.deep_view() =~= Seq::<PendingTransferView>::empty());
        assert(r.approved.deep_view() =~= Seq::<ApprovedTransferView>::empty());
        assert(r.rejected.deep_view() =~= Seq::<RejectedTransferView>::empty());
        assert(r.reserved.deep_view() =~= Seq::<ReservationView>::empty());
        r
    }

    /// The configuration in force.
    pub fn settings(&self) -> (r: AppSettings)
        ensures
            r@ == self@.settings,
    {
        self.settings.clone()
    }

    /// Whether the server listens.
    pub fn is_running(&self) -> (r: bool)
        ensures
            r == self@.running,
    {
        self.running
    }

    fn find_pending(&self, id: &str) -> (r: Option<usize>)
        ensures
            match r {
                Some(i) => i < self@.pending.len() && self@.pending[i as int].id == id@,
                None => !self@.is_pending(id@),
            },
    {
        let mut i: usize = 0;
        while i < self.pending.len()
            invariant
                i <= self.pending.len(),
                forall|j: int| 0 <= j < i ==> self.pending.deep_view()[j].id != id@,
            decreases self.pending.len() - i,
        {
            if text_eq(self.pending[i].id.as_str(), id) {
                return Some(i);
            }
            i = i + 1;
        }
        None
    }

    fn find_approved(&self, id: &str) -> (r: Option<usize>)
        ensures
            match r {
                Some(i) => i < self@.approved.len() && self@.approved[i as int].transfer_id == id@,
                None => !self@.is_approved(id@),
            },
    {
        let mut i: usize = 0;
        while i < self.approved.len()
            invariant
                i <= self.approved.len(),
                forall|j: int| 0 <= j < i ==> self.approved.deep_view()[j].transfer_id != id@,
            decreases self.approved.len() - i,
        {
            if text_eq(self.approved[i].transfer_id.as_str(), id) {
                return Some(i);
            }
            i = i + 1;
        }
        None
    }

    fn find_rejected(&self, id: &str) -> (r: Option<usize>)
        ensures
            match r {
                Some(i) => i < self@.rejected.len() && self@.rejected[i as int].transfer_id == id@,
                None => !self@.is_rejected(id@),
            },
    {
        let mut i: usize = 0;
        while i < self.rejected.len()
            invariant
                i <= self.rejected.len(),
                forall|j: int| 0 <= j < i ==> self.rejected.deep_view()[j].transfer_id != id@,
            decreases self.rejected.len() - i,
        {
            if text_eq(self.rejected[i].transfer_id.as_str(), id) {
                return Some(i);
            }
            i = i + 1;
        }
        None
    }

    /// A copy of the transfers that wait for approval, oldest first.
    pub fn list_pending(&self) -> (r: Vec<PendingTransfer>)
        ensures
            r.deep_view() == self@.pending,
    {
        let mut out: Vec<PendingTransfer> = Vec::new();
        let mut i: usize = 0;
        while i < self.pending.len()
            invariant
                i <= self.pending.len(),
                out.len() == i,
                forall|j: int| 0 <= j < i ==> out[j]@ == self.pending[j]@,
            decreases self.pending.len() - i,
        {
            out.push(self.pending[i].clone());
            i = i + 1;
        }
        assert(out.deep_view() =~= self.pending.deep_view());
        out
    }

    /// A copy of the record of an approved transfer.
    pub fn approved_transfer(&self, id: &str) -> (r: Option<ApprovedTransfer>)
        requires
            self@.wf(),
        ensures
            match r {
                Some(a) => self@.is_approved(id@) && a@ == self@.approved[self@.approved_index(
                    id@,
                )],
                None => !self@.is_approved(id@),
            },
    {
        match self.find_approved(id) {
            Some(i) => {
                proof {
                    self.lemma_approved_index(i as int);
                }
                Some(self.approved[i].clone())
            },
            None => None,
        }
    }

    /// The reason for which a transfer ended without success.
    pub fn rejection_reason(&self, id: &str) -> (r: Option<String>)
        requires
            self@.wf(),
        ensures
            match r {
                Some(reason) => self@.is_rejected(id@) && reason@ == self@.rejected[self@.rejected_index(
                    id@,
                )].reason,
                None => !self@.is_rejected(id@),
            },
    {
        match self.find_rejected(id) {
            Some(i) => {
                proof {
                    self.lemma_rejected_index(i as int);
                }
                Some(self.rejected[i].reason.clone())
            },
            None => None,
        }
    }

    proof fn lemma_pending_index(&self, i: int)
        requires
            self@.wf(),
            0 <= i < self@.pending.len(),
        ensures
            self@.is_pending(self@.pending[i].id),
            self@.pending_index(self@.pending[i].id) == i,
    {
        let id = self@.pending[i].id;
        let k = self@.pending_index(id);
        assert(self@.pending[k].id == id);
        if k < i {
            assert(self@.pending[k].id != self@.pending[i].id);
        }
        if i < k {
            assert(self@.pending[i].id != self@.pending[k].id);
        }
    }

    proof fn lemma_approved_index(&self, i: int)
        requires
            self@.wf(),
            0 <= i < self@.approved.len(),
        ensures
            self@.is_approved(self@.approved[i].transfer_id),
            self@.approved_index(self@.approved[i].transfer_id) == i,
    {
        let id = self@.approved[i].transfer_id;
        let k = self@.approved_index(id);
        assert(self@.approved[k].transfer_id == id);
        if k < i {
            assert(self@.approved[k].transfer_id != self@.approved[i].transfer_id);
        }
        if i < k {
            assert(self@.approved[i].transfer_id != self@.approved[k].transfer_id);
        }
    }

    proof fn lemma_rejected_index(&self, i: int)
        requires
            self@.wf(),
            0 <= i < self@.rejected.len(),
        ensures
            self@.is_rejected(self@.rejected[i].transfer_id),
            self@.rejected_index(self@.rejected[i].transfer_id) == i,
    {
        let id = self@.rejected[i].transfer_id;
        let k = self@.rejected_index(id);
        assert(self@.rejected[k].transfer_id == id);
        if k < i {
            assert(self@.rejected[k].transfer_id != self@.rejected[i].transfer_id);
        }
        if i < k {
            assert(self@.rejected[i].transfer_id != self@.rejected[k].transfer_id);
        }
    }
}

fn refuse(status: u16, message: &str) -> (r: RequestOutcome)
    ensures
        r@ == (RequestOutcomeView { status, response: refusal(message@), event: None }),
{
    RequestOutcome {
        status,
        response: TransferResponse {
            accepted: false,
            message: Some(message.to_owned()),
            token: None,
        },
        event: None,
    }
}

fn waiting_phases(n: usize) -> (r: Vec<FilePhase>)
    ensures
        r@ == Seq::new(n as nat, |i: int| FilePhase::Waiting),
{
    let mut out: Vec<FilePhase> = Vec::new();
    let mut i: usize = 0;
    while i < n
        invariant
            i <= n,
            out.len() == i,
            forall|j: int| 0 <= j < i ==> out[j] == FilePhase::Waiting,
        decreases n - i,
    {
        out.push(FilePhase::Waiting);
        i = i + 1;
    }
    assert(out@ =~= Seq::new(n as nat, |i: int| FilePhase::Waiting));
    out
}

fn approve(p: PendingTransfer, token: String, now: i64) -> (r: ApprovedTransfer)
    requires
        pending_wf(p@),
    ensures
        r@ == approved_from(p@, token@, now),
        r@.wf(),
{
    let phases = waiting_phases(p.files.len());
    proof {
        lemma_done_bytes_none(p.files.deep_view(), phases@);
    }
    ApprovedTransfer {
        transfer_id: p.id,
        token,
        source_ip: p.source_ip,
        sender_name: p.sender_name,
        files: p.files,
        phases,
        total_size: p.total_size,
        bytes_transferred: 0,
        started_at: now,
        cancelled: false,
    }
}

fn no_such_transfer(id: &str) -> (r: AppError)
    ensures
        r@ == transfer_not_found(id@),
{
    AppError::InvalidConfig("Transfer not found: ".to_string().concat(id))
}

impl ServerState {
    /// Deals with a transfer request that arrived from `source_ip` at the
    /// time `now`; `token` is used if the transfer is approved without
    /// asking.
    pub fn handle_transfer_request_with(
        &mut self,
        request: TransferRequest,
        source_ip: &str,
        token: String,
        now: i64,
    ) -> (r: RequestOutcome)
        requires
            old(self)@.wf(),
        ensures
            final(self)@.wf(),
            final(self)@ == old(self)@.after_request(request@, source_ip@, token@, now),
            r@ == old(self)@.request_outcome(request@, source_ip@, token@, now),
    {
        if !request.is_well_formed() {
            return refuse(400, "malformed transfer request");
        }
        if let Some(i) = self.find_approved(request.transfer_id.as_str()) {
            proof {
                self.lemma_approved_index(i as int);
            }
            if !text_eq(self.approved[i].source_ip.as_str(), source_ip) {
                return refuse(200, "awaiting approval");
            }
            return RequestOutcome {
                status: 200,
                response: TransferResponse {
                    accepted: true,
                    message: None,
                    token: Some(self.approved[i].token.clone()),
                },
                event: None,
            };
        }
        if let Some(i) = self.find_rejected(request.transfer_id.as_str()) {
            proof {
                self.lemma_rejected_index(i as int);
            }
            return refuse(503, self.rejected[i].reason.as_str());
        }
        if self.find_pending(request.transfer_id.as_str()).is_some() {
            return refuse(200, "awaiting approval");
        }
        let pending = PendingTransfer {
            id: request.transfer_id,
            source_ip: source_ip.to_owned(),
            sender_name: request.sender_name,
            files: request.files,
            total_size: request.total_size,
            received_at: now,
        };
        assert(pending@ == pending_from(request@, source_ip@, now));
        let ghost before = self@;
        if !self.settings.receive_only && self.settings.is_trusted(source_ip) {
            let approved = approve(pending, token.clone(), now);
            proof {
                before.lemma_with_approved_wf(approved@);
            }
            self.approved.push(approved);
            assert(self.approved.deep_view() =~= before.approved.push(approved@));
            RequestOutcome {
                status: 200,
                response: TransferResponse {
                    accepted: true,
                    message: Some("auto-accepted from trusted host".to_string()),
                    token: Some(token),
                },
                event: None,
            }
        } else {
            let copy = pending.clone();
            proof {
                before.lemma_with_pending_wf(copy@);
            }
            self.pending.push(pending);
            assert(self.pending.deep_view() =~= before.pending.push(copy@));
            RequestOutcome {
                status: 200,
                response: TransferResponse {
                    accepted: false,
                    message: Some("awaiting approval".to_string()),
                    token: None,
                },
                event: Some(ServerEvent::TransferRequest { transfer: copy }),
            }
        }
    }

    /// Deals with a transfer request that arrived from `source_ip` just
    /// now. A transfer approved without asking gets a fresh token.
    pub fn handle_transfer_request(&mut self, request: TransferRequest, source_ip: &str) -> (r:
        RequestOutcome)
        requires
            old(self)@.wf(),
        ensures
            final(self)@.wf(),
            exists|token: Seq<char>, now: i64|
                is_token_text(token) && now >= 0 && final(self)@ == old(self)@.after_request(
                    request@,
                    source_ip@,
                    token,
                    now,
                ) && r@ == old(self)@.request_outcome(request@, source_ip@, token, now),
    {
        let token = fresh_token();
        let now = now_millis();
        self.handle_transfer_request_with(request, source_ip, token, now)
    }

    /// Approves the pending transfer `id` with `token` at the time `now`,
    /// and returns the token.
    pub fn accept_transfer_with(&mut self, id: &str, token: String, now: i64) -> (r: Result<
        String,
        AppError,
    >)
        requires
            old(self)@.wf(),
        ensures
            final(self)@.wf(),
            match r {
                Ok(t) => old(self)@.is_pending(id@) && t@ == token@ && final(self)@ == old(self)@.accepted(id@, token@, now),
                Err(e) => !old(self)@.is_pending(id@) && e@ == transfer_not_found(id@) && final(self)@ == old(self)@,
            },
    {
        match self.find_pending(id) {
            Some(i) => {
                let ghost before = self@;
                proof {
                    self.lemma_pending_index(i as int);
                }
                let pending = self.pending.remove(i);
                assert(self.pending.deep_view() =~= before.pending.remove(i as int));
                let approved = approve(pending, token.clone(), now);
                self.approved.push(approved);
                assert(self.approved.deep_view() =~= before.approved.push(approved@));
                proof {
                    before.lemma_accepted_wf(id@, token@, now);
                }
                Ok(token)
            },
            None => Err(no_such_transfer(id)),
        }
    }

    /// Approves the pending transfer `id` with a fresh token, and returns
    /// the token.
    pub fn accept_transfer(&mut self, id: &str) -> (r: Result<String, AppError>)
        requires
            old(self)@.wf(),
        ensures
            final(self)@.wf(),
            match r {
                Ok(t) => old(self)@.is_pending(id@) && is_token_text(t@) && exists|now: i64|
                    now >= 0 && final(self)@ == old(self)@.accepted(id@, t@, now),
                Err(e) => !old(self)@.is_pending(id@) && e@ == transfer_not_found(id@) && final(self)@ == old(self)@,
            },
    {
        let token = fresh_token();
        let now = now_millis();
        self.accept_transfer_with(id, token, now)
    }

    /// Turns the pending transfer `id` down, and returns the event to emit.
    pub fn reject_transfer(&mut self, id: &str) -> (r: Result<ServerEvent, AppError>)
        requires
            old(self)@.wf(),
        ensures
            final(self)@.wf(),
            match r {
                Ok(event) => old(self)@.is_pending(id@) && final(self)@ == old(self)@.turned_down(
                    id@,
                    "rejected"@,
                ) && event@ == (ServerEventView::TransferFailed {
                    transfer_id: id@,
                    error: "rejected"@,
                }),
                Err(e) => !old(self)@.is_pending(id@) && e@ == transfer_not_found(id@) && final(self)@ == old(self)@,
            },
    {
        match self.find_pending(id) {
            Some(i) => {
                let ghost before = self@;
                proof {
                    self.lemma_pending_index(i as int);
                }
                let pending = self.pending.remove(i);
                assert(self.pending.deep_view() =~= before.pending.remove(i as int));
                let record = RejectedTransfer {
                    transfer_id: pending.id,
                    reason: "rejected".to_string(),
                };
                self.rejected.push(record);
                assert(self.rejected.deep_view() =~= before.rejected.push(record@));
                proof {
                    before.lemma_turned_down_wf(id@, "rejected"@);
                }
                Ok(
                    ServerEvent::TransferFailed {
                        transfer_id: id.to_owned(),
                        error: "rejected".to_string(),
                    },
                )
            },
            None => Err(no_such_transfer(id)),
        }
    }
}

/// Takes the reservations of the transfer `id` out of `reserved` and
/// returns their paths.
fn split_reservations(reserved: &mut Vec<Reservation>, id: &str) -> (paths: Vec<String>)
    ensures
        final(reserved).deep_view() == reservations_of_others(old(reserved).deep_view(), id@),
        paths.deep_view() == paths_of(old(reserved).deep_view(), id@),
{
    let ghost before = reserved.deep_view();
    let ghost others = |r: ReservationView| r.transfer_id != id@;
    let ghost own = |r: ReservationView| r.transfer_id == id@;
    let ghost path = |r: ReservationView| r.path;
    let mut kept: Vec<Reservation> = Vec::new();
    let mut paths: Vec<String> = Vec::new();
    let mut i: usize = 0;
    assert(before.take(0).filter(others) =~= Seq::<ReservationView>::empty()) by {
        reveal(Seq::filter);
    }
    assert(before.take(0).filter(own).map_values(path) =~= Seq::<Seq<char>>::empty()) by {
        reveal(Seq::filter);
    }
    while i < reserved.len()
        invariant
            i <= reserved.len(),
            reserved.deep_view() == before,
            others == |r: ReservationView| r.transfer_id != id@,
            own == |r: ReservationView| r.transfer_id == id@,
            path == |r: ReservationView| r.path,
            kept.deep_view() == before.take(i as int).filter(others),
            paths.deep_view() == before.take(i as int).filter(own).map_values(path),
        decreases reserved.len() - i,
    {
        proof {
            let t = before.take(i as int + 1);
            assert(t.drop_last() =~= before.take(i as int));
            assert(t.last() == reserved[i as int]@);
            reveal(Seq::filter);
        }
        if text_eq(reserved[i].transfer_id.as_str(), id) {
            let ghost so_far = paths.deep_view();
            paths.push(reserved[i].path.clone());
            assert(paths.deep_view() =~= so_far.push(reserved[i as int]@.path));
            assert(before.take(i as int + 1).filter(own).map_values(path) =~= before.take(
                i as int,
            ).filter(own).map_values(path).push(reserved[i as int]@.path));
        } else {
            let ghost so_far = kept.deep_view();
            kept.push(reserved[i].clone());
            assert(kept.deep_view() =~= so_far.push(reserved[i as int]@));
        }
        i = i + 1;
    }
    assert(before.take(i as int) =~= before);
    *reserved = kept;
    paths
}

fn size_mismatch_text(expected: u64, received: u64) -> (r: String)
    ensures
        r@ == size_mismatch_message(expected, received),
{
    "size mismatch: expected ".to_string().concat(
        u64_to_text(expected).as_str(),
    ).concat(" bytes, received ").concat(u64_to_text(received).as_str())
}

fn phases_all_done(phases: &Vec<FilePhase>) -> (r: bool)
    ensures
        r == all_done(phases@),
{
    let mut i: usize = 0;
    while i < phases.len()
        invariant
            i <= phases.len(),
            forall|j: int| 0 <= j < i ==> phases[j] == FilePhase::Done,
        decreases phases.len() - i,
    {
        match phases[i] {
            FilePhase::Done => {},
            _ => {
                return false;
            },
        }
        i = i + 1;
    }
    true
}

impl ServerState {
    /// The names that a new file must not take: those on disk and those
    /// that uploads have reserved.
    fn taken_names(&self, on_disk: &Vec<String>) -> (r: Vec<String>)
        ensures
            r.deep_view() == on_disk.deep_view() + self@.reserved_names(),
    {
        let mut taken = clone_strings(on_disk);
        let mut i: usize = 0;
        while i < self.reserved.len()
            invariant
                i <= self.reserved.len(),
                taken.deep_view() == on_disk.deep_view() + self@.reserved_names().take(i as int),
            decreases self.reserved.len() - i,
        {
            let ghost so_far = taken.deep_view();
            taken.push(self.reserved[i].name.clone());
            assert(taken.deep_view() =~= so_far.push(self.reserved[i as int]@.name));
            assert(self@.reserved_names().take(i as int + 1) =~= self@.reserved_names().take(
                i as int,
            ).push(self.reserved[i as int]@.name));
            assert(taken.deep_view() =~= on_disk.deep_view() + self@.reserved_names().take(
                i as int + 1,
            ));
            i = i + 1;
        }
        assert(self@.reserved_names().take(i as int) =~= self@.reserved_names());
        taken
    }

    /// Decides on a chunk upload before any byte is taken. `on_disk` are
    /// the names of the files in the download directory. Where the upload
    /// is let in, a name is reserved for the file and the ticket says where
    /// to write.
    pub fn begin_chunk(&mut self, params: &ChunkParams, on_disk: &Vec<String>) -> (r: Result<
        ChunkTicket,
        ChunkError,
    >)
        requires
            old(self)@.wf(),
        ensures
            final(self)@.wf(),
            match r {
                Err(e) => old(self)@.chunk_error(params@) == Some(e)
                    && final(self)@ == old(self)@,
                Ok(t) => {
                    let s = old(self)@;
                    let at = s.approved_index(params@.transfer_id);
                    let a = s.approved[at];
                    let f = file_index(a.files, params@.file_id);
                    &&& s.chunk_error(params@) is None
                    &&& t@.wf()
                    &&& t@.transfer_id == params@.transfer_id
                    &&& t@.file_id == params@.file_id
                    &&& t@.file_index == f
                    &&& t@.file_name == a.files[f].name
                    &&& t@.size == a.files[f].size
                    &&& t@.total_size == a.total_size
                    &&& t@.base_bytes == a.bytes_transferred
                    &&& is_free_name_for(
                        target_leaf(a.files[f].name)->0,
                        on_disk.deep_view() + s.reserved_names(),
                        t@.target_name,
                    )
                    &&& safe_leaf(t@.target_name)
                    &&& t@.path == path_in(s.settings.download_dir, t@.target_name)
                    &&& final(self)@ == s.receiving(at, f, t@.reservation())
                    &&& final(self)@.ticket_live(t@)
                },
            },
    {
        let ghost s = self@;
        let at = match self.find_approved(params.transfer_id()) {
            Some(i) => i,
            None => {
                return Err(ChunkError::Unauthorized);
            },
        };
        proof {
            self.lemma_approved_index(at as int);
        }
        if !constant_time_eq(self.approved[at].token.as_str(), params.token()) {
            return Err(ChunkError::Unauthorized);
        }
        let f = match find_file(&self.approved[at].files, params.file_id()) {
            Some(f) => f,
            None => {
                return Err(ChunkError::FileNotFound);
            },
        };
        proof {
            lemma_file_index(s.approved[at as int].files, params@.file_id, f as int);
        }
        let leaf = match safe_target_leaf(self.approved[at].files[f].name.as_str()) {
            Some(leaf) => leaf,
            None => {
                return Err(ChunkError::UnsafeName);
            },
        };
        match self.approved[at].phases[f] {
            FilePhase::Waiting => {},
            _ => {
                return Err(ChunkError::NotWaiting);
            },
        }
        let taken = self.taken_names(on_disk);
        let target = unique_name(leaf.as_str(), &taken);
        let path = join_path(self.settings.download_dir.as_str(), target.as_str());
        let ticket = ChunkTicket {
            transfer_id: self.approved[at].transfer_id.clone(),
            file_id: self.approved[at].files[f].id.clone(),
            file_index: f,
            file_name: self.approved[at].files[f].name.clone(),
            target_name: target.clone(),
            path: path.clone(),
            size: self.approved[at].files[f].size,
            total_size: self.approved[at].total_size,
            base_bytes: self.approved[at].bytes_transferred,
        };
        let reservation = Reservation {
            transfer_id: self.approved[at].transfer_id.clone(),
            file_id: self.approved[at].files[f].id.clone(),
            name: target,
            path,
        };
        proof {
            lemma_free_name_is_safe(leaf@, taken.deep_view(), reservation@.name);
            assert(reservation@.path == path_in(s.settings.download_dir, reservation@.name));
            lemma_with_phase_wf(s.approved[at as int], f as int, FilePhase::Receiving);
            assert(!s.reserved_names().contains(reservation@.name)) by {
                if s.reserved_names().contains(reservation@.name) {
                    let k = choose|k: int|
                        0 <= k < s.reserved_names().len() && s.reserved_names()[k]
                            == reservation@.name;
                    assert(taken.deep_view()[on_disk.deep_view().len() + k] == reservation@.name);
                }
            }
            s.lemma_receiving_wf(at as int, f as int, reservation@);
        }
        self.approved[at].phases[f] = FilePhase::Receiving;
        assert(self.approved.deep_view() =~= s.approved.update(
            at as int,
            with_phase(s.approved[at as int], f as int, FilePhase::Receiving),
        ));
        self.reserved.push(reservation);
        assert(self.reserved.deep_view() =~= s.reserved.push(reservation@));
        proof {
            let after = self@;
            assert(after == s.receiving(at as int, f as int, ticket@.reservation()));
            assert(after.approved[at as int].transfer_id == ticket@.transfer_id);
            self.lemma_approved_index(at as int);
            assert(after.reserved[s.reserved.len() as int] == ticket@.reservation());
        }
        Ok(ticket)
    }

    #[verifier::loop_isolation(false)]
    fn find_live(&self, ticket: &ChunkTicket) -> (r: Option<usize>)
        requires
            self@.wf(),
        ensures
            match r {
                Some(at) => self@.ticket_live(ticket@) && at == self@.approved_index(
                    ticket@.transfer_id,
                ) && at < self@.approved.len(),
                None => !self@.ticket_live(ticket@),
            },
    {
        let at = match self.find_approved(ticket.transfer_id.as_str()) {
            Some(i) => i,
            None => {
                return None;
            },
        };
        proof {
            self.lemma_approved_index(at as int);
        }
        let f = ticket.file_index;
        if f >= self.approved[at].files.len() {
            return None;
        }
        if !text_eq(self.approved[at].files[f].id.as_str(), ticket.file_id.as_str()) {
            return None;
        }
        if f >= self.approved[at].phases.len() {
            return None;
        }
        match self.approved[at].phases[f] {
            FilePhase::Receiving => {},
            _ => {
                return None;
            },
        }
        let mut k: usize = 0;
        while k < self.reserved.len()
            invariant
                k <= self.reserved.len(),
                forall|j: int| 0 <= j < k ==> self.reserved.deep_view()[j] != ticket@.reservation(),
            decreases self.reserved.len() - k,
        {
            let r = &self.reserved[k];
            let same_transfer = text_eq(r.transfer_id.as_str(), ticket.transfer_id.as_str());
            let same_file = text_eq(r.file_id.as_str(), ticket.file_id.as_str());
            let same_name = text_eq(r.name.as_str(), ticket.target_name.as_str());
            let same_path = text_eq(r.path.as_str(), ticket.path.as_str());
            if same_transfer && same_file && same_name && same_path {
                assert(self@.reserved[k as int] == ticket@.reservation());
                return Some(at);
            }
            k = k + 1;
        }
        None
    }

    fn fail_at(&mut self, at: usize, ticket: &ChunkTicket, bytes_received: u64, error: String) -> (r:
        ChunkOutcome)
        requires
            old(self)@.wf(),
            at < old(self)@.approved.len(),
            old(self)@.approved[at as int].transfer_id == ticket@.transfer_id,
        ensures
            final(self)@.wf(),
            final(self)@ == old(self)@.failed(at as int, error@),
            r@ == failure_outcome(old(self)@, ticket@, bytes_received, error@),
    {
        let ghost s = self@;
        proof {
            s.lemma_failed_wf(at as int, error@);
        }
        let gone = self.approved.remove(at);
        assert(self.approved.deep_view() =~= s.approved.remove(at as int));
        let record = RejectedTransfer { transfer_id: gone.transfer_id, reason: error.clone() };
        self.rejected.push(record);
        assert(self.rejected.deep_view() =~= s.rejected.push(record@));
        let delete = split_reservations(&mut self.reserved, ticket.transfer_id.as_str());
        let mut events: Vec<ServerEvent> = Vec::new();
        let event = ServerEvent::TransferFailed {
            transfer_id: ticket.transfer_id.clone(),
            error: error.clone(),
        };
        events.push(event);
        assert(events.deep_view() =~= seq![event@]);
        ChunkOutcome {
            status: 500,
            file: ticket.file_name.clone(),
            bytes_received,
            error: Some(error),
            events,
            delete,
        }
    }

    fn stale(ticket: &ChunkTicket, bytes_received: u64) -> (r: ChunkOutcome)
        ensures
            r@ == stale_outcome(ticket@, bytes_received),
    {
        let mut delete: Vec<String> = Vec::new();
        delete.push(ticket.path.clone());
        assert(delete.deep_view() =~= seq![ticket@.path]);
        let events: Vec<ServerEvent> = Vec::new();
        assert(events.deep_view() =~= Seq::<ServerEventView>::empty());
        ChunkOutcome {
            status: 500,
            file: ticket.file_name.clone(),
            bytes_received,
            error: Some("transfer is no longer active".to_string()),
            events,
            delete,
        }
    }

    /// Ends a chunk upload whose body was read to its end:
    /// `bytes_received` bytes arrived. The file counts as received only
    /// where that is the number declared; otherwise, and where the transfer
    /// was flagged for abort, the whole transfer fails.
    pub fn complete_chunk(&mut self, ticket: &ChunkTicket, bytes_received: u64) -> (r:
        ChunkOutcome)
        requires
            old(self)@.wf(),
        ensures
            final(self)@.wf(),
            final(self)@ == old(self)@.after_complete(ticket@, bytes_received),
            r@ == old(self)@.complete_outcome(ticket@, bytes_received),
    {
        let ghost s = self@;
        let at = match self.find_live(ticket) {
            Some(at) => at,
            None => {
                return Self::stale(ticket, bytes_received);
            },
        };
        let f = ticket.file_index;
        if self.approved[at].cancelled {
            return self.fail_at(at, ticket, bytes_received, "cancelled".to_string());
        }
        let size = self.approved[at].files[f].size;
        if bytes_received != size {
            return self.fail_at(at, ticket, bytes_received, size_mismatch_text(size, bytes_received));
        }
        proof {
            lemma_with_phase_wf(s.approved[at as int], f as int, FilePhase::Done);
            s.lemma_file_done_wf(at as int, f as int);
        }
        let bytes = self.approved[at].bytes_transferred + size;
        self.approved[at].phases[f] = FilePhase::Done;
        self.approved[at].bytes_transferred = bytes;
        assert(self.approved.deep_view() =~= s.approved.update(
            at as int,
            with_phase(s.approved[at as int], f as int, FilePhase::Done),
        ));
        let mut events: Vec<ServerEvent> = Vec::new();
        assert(events.deep_view() =~= Seq::<ServerEventView>::empty());
        if phases_all_done(&self.approved[at].phases) {
            let _ = self.approved.remove(at);
            assert(self.approved.deep_view() =~= s.approved.remove(at as int));
            let _ = split_reservations(&mut self.reserved, ticket.transfer_id.as_str());
            let event = ServerEvent::TransferComplete { transfer_id: ticket.transfer_id.clone() };
            events.push(event);
            assert(events.deep_view() =~= seq![event@]);
        }
        let delete: Vec<String> = Vec::new();
        assert(delete.deep_view() =~= Seq::<Seq<char>>::empty());
        ChunkOutcome {
            status: 200,
            file: ticket.file_name.clone(),
            bytes_received,
            error: None,
            events,
            delete,
        }
    }

    /// Ends a chunk upload that broke off with `error`: the transfer
    /// fails, and every file written for it is to be deleted.
    pub fn fail_chunk(&mut self, ticket: &ChunkTicket, bytes_received: u64, error: &str) -> (r:
        ChunkOutcome)
        requires
            old(self)@.wf(),
        ensures
            final(self)@.wf(),
            final(self)@ == old(self)@.after_failure(ticket@, error@),
            r@ == old(self)@.failure_result(ticket@, bytes_received, error@),
    {
        match self.find_live(ticket) {
            Some(at) => self.fail_at(at, ticket, bytes_received, error.to_owned()),
            None => Self::stale(ticket, bytes_received),
        }
    }

    /// Ends a chunk upload whose transfer was seen to be flagged for abort
    /// while the body streamed in: the transfer fails with the error
    /// `cancelled`, and every file written for it is to be deleted.
    pub fn abort_cancelled(&mut self, ticket: &ChunkTicket, bytes_received: u64) -> (r:
        ChunkOutcome)
        requires
            old(self)@.wf(),
        ensures
            final(self)@.wf(),
            final(self)@ == old(self)@.after_failure(ticket@, "cancelled"@),
            r@ == old(self)@.failure_result(ticket@, bytes_received, "cancelled"@),
    {
        self.fail_chunk(ticket, bytes_received, "cancelled")
    }

    /// Ends a chunk upload that brought more bytes than were declared: the
    /// upload is answered with status 413, and the transfer fails as it
    /// does for any upload that breaks off.
    pub fn refuse_oversized(&mut self, ticket: &ChunkTicket, bytes_received: u64) -> (r:
        ChunkOutcome)
        requires
            old(self)@.wf(),
        ensures
            final(self)@.wf(),
            final(self)@ == old(self)@.after_failure(ticket@, too_large_message(ticket@.size)),
            r@ == (ChunkOutcomeView {
                status: 413,
                ..old(self)@.failure_result(
                    ticket@,
                    bytes_received,
                    too_large_message(ticket@.size),
                )
            }),
    {
        let error = "size mismatch: more than ".to_string().concat(
            u64_to_text(ticket.size).as_str(),
        ).concat(" bytes received");
        let mut outcome = self.fail_chunk(ticket, bytes_received, error.as_str());
        outcome.status = 413;
        outcome
    }

    /// What the server says of itself at the liveness endpoint.
    pub fn health(version: &str) -> (r: HealthInfo)
        ensures
            r@ == (HealthInfoView { status: "ok"@, app: app_name(), version: version@ }),
    {
        HealthInfo {
            status: "ok".to_string(),
            app: "gosh-transfer".to_string(),
            version: version.to_owned(),
        }
    }

    /// Who the server says it is.
    pub fn info(&self, version: &str) -> (r: PeerInfo)
        ensures
            r@ == (PeerInfoView {
                name: self@.settings.device_name,
                version: version@,
                app: app_name(),
            }),
    {
        PeerInfo {
            name: self.settings.device_name.clone(),
            version: version.to_owned(),
            app: "gosh-transfer".to_string(),
        }
    }

    /// Flags the approved transfer `id` for abort. The upload under way
    /// sees the flag at its next step.
    pub fn cancel_transfer(&mut self, id: &str) -> (r: Result<(), AppError>)
        requires
            old(self)@.wf(),
        ensures
            final(self)@.wf(),
            match r {
                Ok(_) => old(self)@.is_approved(id@) && final(self)@ == old(self)@.cancelled(
                    old(self)@.approved_index(id@),
                ),
                Err(e) => !old(self)@.is_approved(id@) && e@ == transfer_not_found(id@)
                    && final(self)@ == old(self)@,
            },
    {
        match self.find_approved(id) {
            Some(at) => {
                let ghost s = self@;
                proof {
                    self.lemma_approved_index(at as int);
                    s.lemma_update_approved_wf(
                        at as int,
                        ApprovedTransferView { cancelled: true, ..s.approved[at as int] },
                    );
                }
                self.approved[at].cancelled = true;
                assert(self.approved.deep_view() =~= s.approved.update(
                    at as int,
                    ApprovedTransferView { cancelled: true, ..s.approved[at as int] },
                ));
                Ok(())
            },
            None => Err(no_such_transfer(id)),
        }
    }

    /// Whether the approved transfer `id` was flagged for abort.
    pub fn is_cancelled(&self, id: &str) -> (r: bool)
        requires
            self@.wf(),
        ensures
            r == (self@.is_approved(id@) && self@.approved[self@.approved_index(id@)].cancelled),
    {
        match self.find_approved(id) {
            Some(at) => {
                proof {
                    self.lemma_approved_index(at as int);
                }
                self.approved[at].cancelled
            },
            None => false,
        }
    }
}

impl ServerState {
    /// Approves every transfer that is pending at the time of the call,
    /// each with a fresh token, and returns each identifier with its token,
    /// in the order of the pending list.
    pub fn accept_all(&mut self) -> (r: Vec<(String, String)>)
        requires
            old(self)@.wf(),
        ensures
            final(self)@.wf(),
            r.len() == old(self)@.pending.len(),
            forall|k: int|
                0 <= k < r.len() ==> (#[trigger] r.deep_view()[k]).0 == old(self)@.pending[k].id
                    && is_token_text(r.deep_view()[k].1),
            exists|now: i64|
                now >= 0 && final(self)@ == old(self)@.all_accepted(tokens_of(r.deep_view()), now),
    {
        let now = now_millis();
        let ghost s = self@;
        let mut out: Vec<(String, String)> = Vec::new();
        let mut i: usize = 0;
        assert(self.approved.deep_view() =~= s.approved + Seq::new(
            0,
            |k: int| approved_from(s.pending[k], tokens_of(out.deep_view())[k], now),
        ));
        while i < self.pending.len()
            invariant
                i <= self.pending.len(),
                s.wf(),
                self.pending.deep_view() == s.pending,
                self.rejected.deep_view() == s.rejected,
                self.reserved.deep_view() == s.reserved,
                self.settings@ == s.settings,
                self.running == s.running,
                out.len() == i,
                forall|k: int|
                    0 <= k < i ==> (#[trigger] out.deep_view()[k]).0 == s.pending[k].id
                        && is_token_text(out.deep_view()[k].1),
                self.approved.deep_view() == s.approved + Seq::new(
                    i as nat,
                    |k: int| approved_from(s.pending[k], tokens_of(out.deep_view())[k], now),
                ),
            decreases self.pending.len() - i,
        {
            let token = fresh_token();
            let pending = self.pending[i].clone();
            let id = pending.id.clone();
            assert(pending_wf(s.pending[i as int]));
            let approved = approve(pending, token.clone(), now);
            let ghost pairs = out.deep_view();
            let ghost list = self.approved.deep_view();
            self.approved.push(approved);
            out.push((id, token));
            proof {
                let now_pairs = out.deep_view();
                assert(now_pairs =~= pairs.push((id@, token@)));
                assert forall|k: int| 0 <= k < i implies tokens_of(now_pairs)[k] == tokens_of(
                    pairs,
                )[k] by {
                    assert(now_pairs[k] == pairs[k]);
                }
                assert(tokens_of(now_pairs)[i as int] == token@);
                assert(self.approved.deep_view() =~= list.push(approved@));
                assert(self.approved.deep_view() =~= s.approved + Seq::new(
                    (i + 1) as nat,
                    |k: int| approved_from(s.pending[k], tokens_of(now_pairs)[k], now),
                ));
            }
            i = i + 1;
        }
        self.pending = Vec::new();
        assert(self.pending.deep_view() =~= Seq::<PendingTransferView>::empty());
        proof {
            s.lemma_all_accepted_wf(tokens_of(out.deep_view()), now);
            assert(self@ == s.all_accepted(tokens_of(out.deep_view()), now));
        }
        out
    }

    /// Turns down every transfer that is pending at the time of the call,
    /// and returns the events to emit, in the order of the pending list.
    pub fn reject_all(&mut self) -> (r: Vec<ServerEvent>)
        requires
            old(self)@.wf(),
        ensures
            final(self)@.wf(),
            final(self)@ == old(self)@.all_turned_down(),
            r.deep_view() == Seq::new(
                old(self)@.pending.len(),
                |k: int|
                    ServerEventView::TransferFailed {
                        transfer_id: old(self)@.pending[k].id,
                        error: "rejected"@,
                    },
            ),
    {
        let ghost s = self@;
        let mut out: Vec<ServerEvent> = Vec::new();
        let mut i: usize = 0;
        assert(self.rejected.deep_view() =~= s.rejected + Seq::new(
            0,
            |k: int| RejectedTransferView { transfer_id: s.pending[k].id, reason: "rejected"@ },
        ));
        while i < self.pending.len()
            invariant
                i <= self.pending.len(),
                self.pending.deep_view() == s.pending,
                self.approved.deep_view() == s.approved,
                self.reserved.deep_view() == s.reserved,
                self.settings@ == s.settings,
                self.running == s.running,
                out.len() == i,
                forall|k: int|
                    0 <= k < i ==> #[trigger] out.deep_view()[k]
                        == (ServerEventView::TransferFailed {
                        transfer_id: s.pending[k].id,
                        error: "rejected"@,
                    }),
                self.rejected.deep_view() == s.rejected + Seq::new(
                    i as nat,
                    |k: int|
                        RejectedTransferView {
                            transfer_id: s.pending[k].id,
                            reason: "rejected"@,
                        },
                ),
            decreases self.pending.len() - i,
        {
            let record = RejectedTransfer {
                transfer_id: self.pending[i].id.clone(),
                reason: "rejected".to_string(),
            };
            let event = ServerEvent::TransferFailed {
                transfer_id: self.pending[i].id.clone(),
                error: "rejected".to_string(),
            };
            let ghost list = self.rejected.deep_view();
            let ghost events = out.deep_view();
            self.rejected.push(record);
            out.push(event);
            proof {
                assert(self.rejected.deep_view() =~= list.push(record@));
                assert(out.deep_view() =~= events.push(event@));
                assert(self.rejected.deep_view() =~= s.rejected + Seq::new(
                    (i + 1) as nat,
                    |k: int|
                        RejectedTransferView {
                            transfer_id: s.pending[k].id,
                            reason: "rejected"@,
                        },
                ));
            }
            i = i + 1;
        }
        self.pending = Vec::new();
        assert(self.pending.deep_view() =~= Seq::<PendingTransferView>::empty());
        proof {
            s.lemma_all_turned_down_wf();
            assert(out.deep_view() =~= Seq::new(
                s.pending.len(),
                |k: int|
                    ServerEventView::TransferFailed {
                        transfer_id: s.pending[k].id,
                        error: "rejected"@,
                    },
            ));
        }
        out
    }

    /// Replaces the configuration as a whole. Where the server listens and
    /// the port differs, the result is the event to emit once the listener
    /// has moved.
    pub fn update_config(&mut self, settings: AppSettings) -> (r: Option<ServerEvent>)
        ensures
            final(self)@ == (ServerStateView { settings: settings@, ..old(self)@ }),
            old(self)@.wf() ==> final(self)@.wf(),
            r.deep_view() == if old(self)@.running && old(self)@.settings.port != settings@.port {
                Some(
                    ServerEventView::PortChanged {
                        old_port: old(self)@.settings.port,
                        new_port: settings@.port,
                    },
                )
            } else {
                None
            },
    {
        let old_port = self.settings.port;
        let new_port = settings.port;
        self.settings = settings;
        if self.running && old_port != new_port {
            Some(ServerEvent::PortChanged { old_port, new_port })
        } else {
            None
        }
    }

    /// Marks the server as listening. The result is the event to emit, or
    /// nothing where it was listening already.
    pub fn start_server(&mut self) -> (r: Option<ServerEvent>)
        ensures
            final(self)@ == (ServerStateView { running: true, ..old(self)@ }),
            old(self)@.wf() ==> final(self)@.wf(),
            r.deep_view() == if old(self)@.running {
                None
            } else {
                Some(ServerEventView::ServerStarted { port: old(self)@.settings.port })
            },
    {
        if self.running {
            None
        } else {
            self.running = true;
            Some(ServerEvent::ServerStarted { port: self.settings.port })
        }
    }

    /// Marks the server as not listening. The result is the event to
    /// emit, or nothing where it was not listening.
    pub fn stop_server(&mut self) -> (r: Option<ServerEvent>)
        ensures
            final(self)@ == (ServerStateView { running: false, ..old(self)@ }),
            old(self)@.wf() ==> final(self)@.wf(),
            r.deep_view() == if old(self)@.running {
                Some(ServerEventView::ServerStopped)
            } else {
                None
            },
    {
        if self.running {
            self.running = false;
            Some(ServerEvent::ServerStopped)
        } else {
            None
        }
    }

    /// Forgets the transfers that ended without success.
    pub fn clear_rejected(&mut self)
        ensures
            final(self)@ == (ServerStateView { rejected: Seq::empty(), ..old(self)@ }),
            old(self)@.wf() ==> final(self)@.wf(),
    {
        self.rejected = Vec::new();
        assert(self.rejected.deep_view() =~= Seq::<RejectedTransferView>::empty());
    }

    /// Adds a host to the trusted hosts, unless it is one already.
    pub fn add_trusted_host(&mut self, host: String)
        ensures
            final(self)@ == (ServerStateView {
                settings: AppSettingsView {
                    trusted_hosts: with_trusted_host(
                        old(self)@.settings.trusted_hosts,
                        host@,
                    ),
                    ..old(self)@.settings
                },
                ..old(self)@
            }),
            old(self)@.wf() ==> final(self)@.wf(),
    {
        self.settings.add_trusted_host(host);
    }

    /// Removes a host from the trusted hosts.
    pub fn remove_trusted_host(&mut self, host: &str)
        ensures
            final(self)@ == (ServerStateView {
                settings: AppSettingsView {
                    trusted_hosts: without_trusted_host(
                        old(self)@.settings.trusted_hosts,
                        host@,
                    ),
                    ..old(self)@.settings
                },
                ..old(self)@
            }),
            old(self)@.wf() ==> final(self)@.wf(),
    {
        self.settings.remove_trusted_host(host);
    }
}

} // verus!
