//! The course of one outgoing transfer: waiting for approval with growing
//! pauses, then uploading the files in order, each with a bounded number of
//! tries. The session decides; the caller performs what it decides and
//! reports back how it went.

use crate::client::{
    chunk_url, chunk_url_of, classify_status, is_success, kind_of_status, request_error,
    request_failure, upload_error, upload_failure, FileStep, PostOutcome, PostOutcomeView,
    UploadOutcome, UploadOutcomeView,
};
use crate::events::{ServerEvent, ServerEventView};
use crate::types::{
    clone_files, clone_opt_string, AppError, AppErrorView, TransferFile, TransferFileView,
    TransferProgress, TransferProgressView, TransferRequest, TransferRequestView,
};
use crate::validate::{lemma_sum_sizes_prefix, sum_sizes, total_size_of};
use vstd::prelude::*;
use vstd::string::*;

verus! {

/// The number of times the upload of one file is tried.
pub const MAX_FILE_ATTEMPTS: u32 = 3;

/// The longest that a sender waits for approval, in milliseconds.
pub const APPROVAL_CAP_MS: u64 = 300000;

/// The number of pauses that fit into the wait for approval.
pub const MAX_APPROVAL_ATTEMPTS: u32 = 32;

/// The pause before the try that follows `attempt` failed ones, in
/// milliseconds: one second at first, doubled each time, and never more
/// than ten seconds.
pub open spec fn backoff_ms(attempt: nat) -> nat
    decreases attempt,
{
    if attempt == 0 {
        1000
    } else if 2 * backoff_ms((attempt - 1) as nat) >= 10000 {
        10000
    } else {
        2 * backoff_ms((attempt - 1) as nat)
    }
}

/// From the fifth pause on, every pause is ten seconds.
pub proof fn lemma_backoff_capped(attempt: nat)
    ensures
        1000 <= backoff_ms(attempt) <= 10000,
        attempt >= 4 ==> backoff_ms(attempt) == 10000,
        attempt == 0 ==> backoff_ms(attempt) == 1000,
        attempt == 1 ==> backoff_ms(attempt) == 2000,
        attempt == 2 ==> backoff_ms(attempt) == 4000,
        attempt == 3 ==> backoff_ms(attempt) == 8000,
    decreases attempt,
{
    if attempt > 0 {
        lemma_backoff_capped((attempt - 1) as nat);
    }
}

/// Pauses never get shorter.
pub proof fn lemma_backoff_monotonic(a: nat, b: nat)
    requires
        a <= b,
    ensures
        backoff_ms(a) <= backoff_ms(b),
    decreases b,
{
    lemma_backoff_capped(a);
    lemma_backoff_capped(b);
    if a < b {
        lemma_backoff_monotonic(a, (b - 1) as nat);
        lemma_backoff_capped((b - 1) as nat);
    }
}

/// The time spent in the first `n` pauses.
pub open spec fn total_backoff_ms(n: nat) -> nat
    decreases n,
{
    if n == 0 {
        0
    } else {
        total_backoff_ms((n - 1) as nat) + backoff_ms((n - 1) as nat)
    }
}

/// From four pauses on, the time spent grows by ten seconds a pause.
pub proof fn lemma_total_backoff(n: nat)
    ensures
        n >= 4 ==> total_backoff_ms(n) == 15000 + 10000 * (n - 4),
        n == 0 ==> total_backoff_ms(n) == 0,
        n == 1 ==> total_backoff_ms(n) == 1000,
        n == 2 ==> total_backoff_ms(n) == 3000,
        n == 3 ==> total_backoff_ms(n) == 7000,
    decreases n,
{
    if n > 0 {
        lemma_total_backoff((n - 1) as nat);
        lemma_backoff_capped((n - 1) as nat);
    }
}

/// `MAX_APPROVAL_ATTEMPTS` pauses fit into the wait for approval, and one
/// more does not.
pub proof fn lemma_approval_attempts()
    ensures
        total_backoff_ms(MAX_APPROVAL_ATTEMPTS as nat) <= APPROVAL_CAP_MS,
        total_backoff_ms((MAX_APPROVAL_ATTEMPTS + 1) as nat) > APPROVAL_CAP_MS,
{
    lemma_total_backoff(32);
    lemma_total_backoff(33);
}

/// Computes the pause before the try that follows `attempt` failed ones.
pub fn backoff_delay(attempt: u32) -> (r: u64)
    ensures
        r == backoff_ms(attempt as nat),
{
    proof {
        lemma_backoff_capped(attempt as nat);
    }
    if attempt == 0 {
        1000
    } else if attempt == 1 {
        2000
    } else if attempt == 2 {
        4000
    } else if attempt == 3 {
        8000
    } else {
        10000
    }
}

/// How far an outgoing transfer has come.
#[derive(Debug, Clone, Copy, PartialEq, Eq, Structural)]
pub enum SendPhase {
    /// The request is posted until the peer approves.
    AwaitingApproval,
    /// The files are uploaded.
    Uploading,
    /// Every file was uploaded.
    Complete,
    /// The transfer was given up.
    Failed,
}

/// Model of a [`SendSession`].
pub struct SendSessionView {
    pub transfer_id: Seq<char>,
    pub address: Seq<char>,
    pub port: u16,
    pub files: Seq<TransferFileView>,
    pub paths: Seq<Seq<char>>,
    pub sender_name: Option<Seq<char>>,
    pub total_size: u64,
    pub phase: SendPhase,
    pub token: Option<Seq<char>>,
    pub index: int,
    pub attempt: u32,
    pub waited_ms: u64,
    pub sent_bytes: u64,
    pub cancelled: bool,
    pub failure: Option<AppErrorView>,
}

/// The error of a transfer that was aborted by the user.
pub open spec fn cancelled_error() -> AppErrorView {
    AppErrorView::Network("Transfer cancelled"@)
}

/// The error of an approval that came without a token.
pub open spec fn no_token_error() -> AppErrorView {
    AppErrorView::Network("No token received"@)
}

impl SendSessionView {
    /// Whether the session is consistent.
    pub open spec fn wf(self) -> bool {
        &&& self.paths.len() == self.files.len()
        &&& sum_sizes(self.files) == self.total_size
        &&& 0 <= self.index <= self.files.len()
        &&& self.sent_bytes == sum_sizes(self.files.take(self.index))
        &&& self.waited_ms <= APPROVAL_CAP_MS
        &&& self.phase == SendPhase::AwaitingApproval ==> self.index == 0 && self.waited_ms
            == total_backoff_ms(self.attempt as nat)
        &&& self.phase == SendPhase::Uploading ==> self.token is Some && self.index
            < self.files.len() && self.attempt < MAX_FILE_ATTEMPTS
        &&& self.phase == SendPhase::Complete ==> self.index == self.files.len()
        &&& self.phase == SendPhase::Failed <==> self.failure is Some
    }

    /// What the send returns once the transfer has ended: the identifier
    /// of the transfer where every file was uploaded, the error for which
    /// it was given up where not. `None` while the transfer is under way.
    pub open spec fn result(self) -> Option<Result<Seq<char>, AppErrorView>> {
        match self.phase {
            SendPhase::Complete => Some(Ok(self.transfer_id)),
            SendPhase::Failed => Some(Err(self.failure->0)),
            _ => None,
        }
    }

    /// Whether the transfer has ended, well or badly.
    pub open spec fn is_over(self) -> bool {
        self.phase == SendPhase::Complete || self.phase == SendPhase::Failed
    }

    /// The session and the step after the transfer was given up: `error`
    /// is the text of the event, `cause` the error that the send returns.
    pub open spec fn fail(self, error: Seq<char>, cause: AppErrorView) -> (
        SendSessionView,
        SendStepView,
    ) {
        (
            SendSessionView { phase: SendPhase::Failed, failure: Some(cause), ..self },
            SendStepView {
                events: seq![
                    ServerEventView::TransferFailed { transfer_id: self.transfer_id, error },
                ],
                action: SendAction::Stop,
            },
        )
    }

    /// The session and the step after a post that did not lead to
    /// approval. The post is repeated after a pause, unless the pause would
    /// go beyond the longest wait; then the transfer is given up for
    /// `final_error` and `cause`.
    pub open spec fn wait_more(
        self,
        error: Seq<char>,
        final_error: Seq<char>,
        cause: AppErrorView,
    ) -> (SendSessionView, SendStepView) {
        let delay = backoff_ms(self.attempt as nat);
        if self.waited_ms + delay > APPROVAL_CAP_MS {
            self.fail(final_error, cause)
        } else {
            (
                SendSessionView {
                    attempt: (self.attempt + 1) as u32,
                    waited_ms: (self.waited_ms + delay) as u64,
                    ..self
                },
                SendStepView {
                    events: seq![
                        ServerEventView::TransferRetry {
                            transfer_id: self.transfer_id,
                            attempt: (self.attempt + 1) as u32,
                            max_attempts: MAX_APPROVAL_ATTEMPTS,
                            error,
                        },
                    ],
                    action: SendAction::Post { delay_ms: delay as u64 },
                },
            )
        }
    }

    /// The session and the step after the peer approved with `token`.
    pub open spec fn approved(self, token: Seq<char>) -> (SendSessionView, SendStepView) {
        if self.files.len() == 0 {
            (
                SendSessionView { phase: SendPhase::Complete, token: Some(token), ..self },
                SendStepView {
                    events: seq![
                        ServerEventView::TransferComplete { transfer_id: self.transfer_id },
                    ],
                    action: SendAction::Stop,
                },
            )
        } else {
            (
                SendSessionView {
                    phase: SendPhase::Uploading,
                    token: Some(token),
                    attempt: 0,
                    ..self
                },
                SendStepView {
                    events: Seq::empty(),
                    action: SendAction::Upload { delay_ms: 0, index: 0 },
                },
            )
        }
    }

    /// The session and the step after the outcome of a post of the
    /// request.
    pub open spec fn after_response(self, o: PostOutcomeView) -> (SendSessionView, SendStepView) {
        if self.phase != SendPhase::AwaitingApproval {
            (self, quiet_stop())
        } else if self.cancelled {
            self.fail("cancelled"@, cancelled_error())
        } else {
            let cause = request_failure(self.address, self.port, o);
            match o {
                PostOutcomeView::Answer(resp) => if resp.accepted {
                    match resp.token {
                        Some(token) => self.approved(token),
                        None => self.fail("No token received"@, no_token_error()),
                    }
                } else {
                    self.wait_more(
                        "awaiting approval"@,
                        "rejected"@,
                        AppErrorView::TransferRejected,
                    )
                },
                PostOutcomeView::Refused(status, text) => if status == 503 {
                    self.fail("rejected"@, AppErrorView::TransferRejected)
                } else if kind_of_status(status) matches Some(kind) && !kind.spec_is_retryable() {
                    self.fail(text, cause->0)
                } else {
                    self.wait_more(text, text, cause->0)
                },
                PostOutcomeView::Failed(f) => self.wait_more(f.text(), f.text(), cause->0),
                PostOutcomeView::ParseFailed(e) => self.fail(
                    "Failed to parse response: "@ + e,
                    cause->0,
                ),
            }
        }
    }

    /// The progress reported after the file at `index` was uploaded.
    pub open spec fn progress_after_file(self) -> TransferProgressView {
        TransferProgressView {
            transfer_id: self.transfer_id,
            current_file: Some(self.files[self.index].name),
            bytes_transferred: (self.sent_bytes + self.files[self.index].size) as u64,
            total_bytes: self.total_size,
            speed_bps: 0,
        }
    }

    /// The session and the step after the file at `index` was uploaded.
    pub open spec fn advance(self) -> (SendSessionView, SendStepView) {
        let sent = (self.sent_bytes + self.files[self.index].size) as u64;
        let progress = ServerEventView::Progress { progress: self.progress_after_file() };
        if self.index + 1 == self.files.len() {
            (
                SendSessionView {
                    phase: SendPhase::Complete,
                    index: self.index + 1,
                    sent_bytes: sent,
                    attempt: 0,
                    ..self
                },
                SendStepView {
                    events: seq![
                        progress,
                        ServerEventView::TransferComplete { transfer_id: self.transfer_id },
                    ],
                    action: SendAction::Stop,
                },
            )
        } else {
            (
                SendSessionView { index: self.index + 1, sent_bytes: sent, attempt: 0, ..self },
                SendStepView {
                    events: seq![progress],
                    action: SendAction::Upload { delay_ms: 0, index: (self.index + 1) as usize },
                },
            )
        }
    }

    /// The session and the step after a try to upload the file at `index`
    /// failed with an error that allows another try.
    pub open spec fn retry_file(self, error: Seq<char>, cause: AppErrorView) -> (
        SendSessionView,
        SendStepView,
    ) {
        if self.attempt + 1 >= MAX_FILE_ATTEMPTS {
            self.fail(error, cause)
        } else {
            (
                SendSessionView { attempt: (self.attempt + 1) as u32, ..self },
                SendStepView {
                    events: seq![
                        ServerEventView::TransferRetry {
                            transfer_id: self.transfer_id,
                            attempt: (self.attempt + 1) as u32,
                            max_attempts: MAX_FILE_ATTEMPTS,
                            error,
                        },
                    ],
                    action: SendAction::Upload {
                        delay_ms: backoff_ms(self.attempt as nat) as u64,
                        index: self.index as usize,
                    },
                },
            )
        }
    }

    /// The session and the step after the outcome of an upload.
    pub open spec fn after_upload(self, o: UploadOutcomeView) -> (SendSessionView, SendStepView) {
        if self.phase != SendPhase::Uploading {
            (self, quiet_stop())
        } else if self.cancelled {
            self.fail("cancelled"@, cancelled_error())
        } else {
            let cause = upload_failure(o);
            match o {
                UploadOutcomeView::Answer(status, text) => if is_success(status) {
                    self.advance()
                } else if kind_of_status(status) matches Some(kind) && kind.spec_is_retryable() {
                    self.retry_file(text, cause->0)
                } else {
                    self.fail(text, cause->0)
                },
                UploadOutcomeView::Failed(e) => self.retry_file(e, cause->0),
                UploadOutcomeView::Unreadable(step, e) => self.fail(step.prefix() + e, cause->0),
            }
        }
    }
}

/// What the caller does next.
#[derive(Debug, Clone, Copy, PartialEq, Eq, Structural)]
pub enum SendAction {
    /// Wait `delay_ms` milliseconds, then post the request.
    Post { delay_ms: u64 },
    /// Wait `delay_ms` milliseconds, then upload the file at `index`.
    Upload { delay_ms: u64, index: usize },
    /// Nothing: the transfer has ended.
    Stop,
}

/// Model of a [`SendStep`].
pub struct SendStepView {
    pub events: Seq<ServerEventView>,
    pub action: SendAction,
}

/// One decision of a session: the events to emit, in order, and what to do
/// next.
#[derive(Debug)]
pub struct SendStep {
    pub events: Vec<ServerEvent>,
    pub action: SendAction,
}

impl View for SendStep {
    type V = SendStepView;

    open spec fn view(&self) -> SendStepView {
        SendStepView { events: self.events.deep_view(), action: self.action }
    }
}

/// The step of a session that has nothing to do with what was reported.
pub open spec fn quiet_stop() -> SendStepView {
    SendStepView { events: Seq::empty(), action: SendAction::Stop }
}

/// The session at the start of a transfer: nothing posted, nothing sent.
pub open spec fn fresh_session(
    transfer_id: Seq<char>,
    address: Seq<char>,
    port: u16,
    files: Seq<TransferFileView>,
    paths: Seq<Seq<char>>,
    sender_name: Option<Seq<char>>,
) -> SendSessionView {
    SendSessionView {
        transfer_id,
        address,
        port,
        files,
        paths,
        sender_name,
        total_size: sum_sizes(files) as u64,
        phase: SendPhase::AwaitingApproval,
        token: None,
        index: 0,
        attempt: 0,
        waited_ms: 0,
        sent_bytes: 0,
        cancelled: false,
        failure: None,
    }
}

/// One outgoing transfer.
pub struct SendSession {
    transfer_id: String,
    address: String,
    port: u16,
    files: Vec<TransferFile>,
    paths: Vec<String>,
    sender_name: Option<String>,
    total_size: u64,
    phase: SendPhase,
    token: Option<String>,
    index: usize,
    attempt: u32,
    waited_ms: u64,
    sent_bytes: u64,
    cancelled: bool,
    failure: Option<AppError>,
}

/// The model of an error, where there is one.
pub open spec fn error_view(e: Option<AppError>) -> Option<AppErrorView> {
    match e {
        Some(e) => Some(e@),
        None => None,
    }
}

impl View for SendSession {
    type V = SendSessionView;

    closed spec fn view(&self) -> SendSessionView {
        SendSessionView {
            transfer_id: self.transfer_id@,
            address: self.address@,
            port: self.port,
            files: self.files.deep_view(),
            paths: self.paths.deep_view(),
            sender_name: self.sender_name.deep_view(),
            total_size: self.total_size,
            phase: self.phase,
            token: self.token.deep_view(),
            index: self.index as int,
            attempt: self.attempt,
            waited_ms: self.waited_ms,
            sent_bytes: self.sent_bytes,
            cancelled: self.cancelled,
            failure: error_view(self.failure),
        }
    }
}

fn one_event(event: ServerEvent) -> (r: Vec<ServerEvent>)
    ensures
        r.deep_view() == seq![event@],
{
    let mut events: Vec<ServerEvent> = Vec::new();
    events.push(event);
    assert(events.deep_view() =~= seq![event@]);
    events
}

fn no_events() -> (r: Vec<ServerEvent>)
    ensures
        r.deep_view() == Seq::<ServerEventView>::empty(),
{
    let events: Vec<ServerEvent> = Vec::new();
    assert(events.deep_view() =~= Seq::<ServerEventView>::empty());
    events
}

impl SendSession {
    /// The session for a transfer of `files`, which lie at `paths`, to
    /// `address:port` under the identifier `transfer_id`.
    pub fn new(
        transfer_id: String,
        address: String,
        port: u16,
        files: Vec<TransferFile>,
        paths: Vec<String>,
        sender_name: Option<String>,
    ) -> (r: Result<SendSession, AppError>)
        ensures
            match r {
                Ok(session) => paths.len() == files.len() && sum_sizes(files.deep_view())
                    <= u64::MAX && session@.wf() && session@ == fresh_session(
                    transfer_id@,
                    address@,
                    port,
                    files.deep_view(),
                    paths.deep_view(),
                    sender_name.deep_view(),
                ),
                Err(e) => if paths.len() != files.len() {
                    e@ == AppErrorView::InvalidConfig("One path is needed for each file"@)
                } else {
                    sum_sizes(files.deep_view()) > u64::MAX && e@ == AppErrorView::InvalidConfig(
                        "Total size of the files is too large"@,
                    )
                },
            },
    {
        if paths.len() != files.len() {
            return Err(AppError::InvalidConfig("One path is needed for each file".to_string()));
        }
        let total_size = match total_size_of(&files) {
            Some(total) => total,
            None => {
                return Err(
                    AppError::InvalidConfig("Total size of the files is too large".to_string()),
                );
            },
        };
        assert(files.deep_view().take(0) =~= Seq::<TransferFileView>::empty());
        Ok(
            SendSession {
                transfer_id,
                address,
                port,
                files,
                paths,
                sender_name,
                total_size,
                phase: SendPhase::AwaitingApproval,
                token: None,
                index: 0,
                attempt: 0,
                waited_ms: 0,
                sent_bytes: 0,
                cancelled: false,
                failure: None,
            },
        )
    }

    /// The identifier of the transfer, used in the request and in every
    /// upload.
    pub fn transfer_id(&self) -> (r: String)
        ensures
            r@ == self@.transfer_id,
    {
        self.transfer_id.clone()
    }

    /// How far the transfer has come.
    pub fn phase(&self) -> (r: SendPhase)
        ensures
            r == self@.phase,
    {
        self.phase
    }

    /// What the send returns: the identifier of the transfer once every
    /// file was uploaded, the error once the transfer was given up, and
    /// `None` while it is under way.
    pub fn result(&self) -> (r: Option<Result<String, AppError>>)
        requires
            self@.wf(),
        ensures
            match r {
                Some(Ok(id)) => self@.result() == Some(Ok::<Seq<char>, AppErrorView>(id@)),
                Some(Err(e)) => self@.result() == Some(Err::<Seq<char>, AppErrorView>(e@)),
                None => self@.result() is None,
            },
    {
        match self.phase {
            SendPhase::Complete => Some(Ok(self.transfer_id.clone())),
            SendPhase::Failed => match &self.failure {
                Some(e) => Some(Err(e.clone())),
                None => None,
            },
            _ => None,
        }
    }

    /// The request to post.
    pub fn request(&self) -> (r: TransferRequest)
        ensures
            r@ == (TransferRequestView {
                transfer_id: self@.transfer_id,
                sender_name: self@.sender_name,
                files: self@.files,
                total_size: self@.total_size,
            }),
    {
        TransferRequest {
            transfer_id: self.transfer_id.clone(),
            sender_name: clone_opt_string(&self.sender_name),
            files: clone_files(&self.files),
            total_size: self.total_size,
        }
    }

    /// The local path and the URL for the upload of the file that is next,
    /// while files are uploaded.
    pub fn upload_target(&self) -> (r: Option<(String, String)>)
        requires
            self@.wf(),
        ensures
            match r {
                Some(pair) => self@.phase == SendPhase::Uploading && pair.0@
                    == self@.paths[self@.index] && pair.1@ == chunk_url_of(
                    self@.address,
                    self@.port,
                    self@.transfer_id,
                    self@.files[self@.index].id,
                    self@.token->0,
                ),
                None => self@.phase != SendPhase::Uploading,
            },
    {
        match self.phase {
            SendPhase::Uploading => {
                match &self.token {
                    Some(token) => {
                        assert(self.paths.deep_view()[self.index as int]
                            == self.paths[self.index as int]@);
                        assert(self.files.deep_view()[self.index as int]
                            == self.files[self.index as int]@);
                        let url = chunk_url(
                            self.address.as_str(),
                            self.port,
                            self.transfer_id.as_str(),
                            self.files[self.index].id.as_str(),
                            token.as_str(),
                        );
                        Some((self.paths[self.index].clone(), url))
                    },
                    None => None,
                }
            },
            _ => None,
        }
    }

    /// Flags the transfer for abort. The next report ends it.
    pub fn cancel(&mut self)
        ensures
            final(self)@ == (SendSessionView { cancelled: true, ..old(self)@ }),
            old(self)@.wf() ==> final(self)@.wf(),
    {
        self.cancelled = true;
    }

    fn fail_with(&mut self, error: String, cause: AppError) -> (r: SendStep)
        requires
            old(self)@.wf(),
        ensures
            final(self)@.wf(),
            (final(self)@, r@) == old(self)@.fail(error@, cause@),
    {
        self.phase = SendPhase::Failed;
        self.failure = Some(cause);
        SendStep {
            events: one_event(
                ServerEvent::TransferFailed { transfer_id: self.transfer_id.clone(), error },
            ),
            action: SendAction::Stop,
        }
    }

    fn wait(&mut self, error: String, final_error: String, cause: AppError) -> (r: SendStep)
        requires
            old(self)@.wf(),
            old(self)@.phase == SendPhase::AwaitingApproval,
        ensures
            final(self)@.wf(),
            (final(self)@, r@) == old(self)@.wait_more(error@, final_error@, cause@),
    {
        let delay = backoff_delay(self.attempt);
        proof {
            lemma_backoff_capped(self.attempt as nat);
        }
        if delay > APPROVAL_CAP_MS - self.waited_ms {
            return self.fail_with(final_error, cause);
        }
        proof {
            lemma_total_backoff_lower(self.attempt as nat);
        }
        self.attempt = self.attempt + 1;
        self.waited_ms = self.waited_ms + delay;
        SendStep {
            events: one_event(
                ServerEvent::TransferRetry {
                    transfer_id: self.transfer_id.clone(),
                    attempt: self.attempt,
                    max_attempts: MAX_APPROVAL_ATTEMPTS,
                    error,
                },
            ),
            action: SendAction::Post { delay_ms: delay },
        }
    }

    /// Takes the outcome of a post of the request and decides how to go
    /// on.
    pub fn on_response(&mut self, outcome: PostOutcome) -> (r: SendStep)
        requires
            old(self)@.wf(),
        ensures
            final(self)@.wf(),
            (final(self)@, r@) == old(self)@.after_response(outcome@),
    {
        match self.phase {
            SendPhase::AwaitingApproval => {},
            _ => {
                return SendStep { events: no_events(), action: SendAction::Stop };
            },
        }
        if self.cancelled {
            return self.fail_with(
                "cancelled".to_string(),
                AppError::Network("Transfer cancelled".to_string()),
            );
        }
        let cause = match request_error(self.address.as_str(), self.port, &outcome) {
            Some(e) => e,
            None => AppError::TransferRejected,
        };
        match outcome {
            PostOutcome::Answer(resp) => {
                if resp.accepted {
                    match resp.token {
                        Some(token) => {
                            self.token = Some(token);
                            if self.files.len() == 0 {
                                self.phase = SendPhase::Complete;
                                SendStep {
                                    events: one_event(
                                        ServerEvent::TransferComplete {
                                            transfer_id: self.transfer_id.clone(),
                                        },
                                    ),
                                    action: SendAction::Stop,
                                }
                            } else {
                                self.phase = SendPhase::Uploading;
                                self.attempt = 0;
                                SendStep {
                                    events: no_events(),
                                    action: SendAction::Upload { delay_ms: 0, index: 0 },
                                }
                            }
                        },
                        None => self.fail_with(
                            "No token received".to_string(),
                            AppError::Network("No token received".to_string()),
                        ),
                    }
                } else {
                    self.wait("awaiting approval".to_string(), "rejected".to_string(), cause)
                }
            },
            PostOutcome::Refused(status, text) => {
                if status == 503 {
                    self.fail_with("rejected".to_string(), cause)
                } else {
                    let retry = match classify_status(status) {
                        Some(kind) => kind.is_retryable(),
                        None => true,
                    };
                    if retry {
                        let again = text.clone();
                        self.wait(text, again, cause)
                    } else {
                        self.fail_with(text, cause)
                    }
                }
            },
            PostOutcome::Failed(f) => {
                let text = f.text().to_owned();
                let again = text.clone();
                self.wait(text, again, cause)
            },
            PostOutcome::ParseFailed(e) => self.fail_with(
                "Failed to parse response: ".to_string().concat(e.as_str()),
                cause,
            ),
        }
    }

    fn retry(&mut self, error: String, cause: AppError) -> (r: SendStep)
        requires
            old(self)@.wf(),
            old(self)@.phase == SendPhase::Uploading,
        ensures
            final(self)@.wf(),
            (final(self)@, r@) == old(self)@.retry_file(error@, cause@),
    {
        if self.attempt + 1 >= MAX_FILE_ATTEMPTS {
            return self.fail_with(error, cause);
        }
        let delay = backoff_delay(self.attempt);
        proof {
            lemma_backoff_capped(self.attempt as nat);
        }
        self.attempt = self.attempt + 1;
        SendStep {
            events: one_event(
                ServerEvent::TransferRetry {
                    transfer_id: self.transfer_id.clone(),
                    attempt: self.attempt,
                    max_attempts: MAX_FILE_ATTEMPTS,
                    error,
                },
            ),
            action: SendAction::Upload { delay_ms: delay, index: self.index },
        }
    }

    fn next_file(&mut self) -> (r: SendStep)
        requires
            old(self)@.wf(),
            old(self)@.phase == SendPhase::Uploading,
        ensures
            final(self)@.wf(),
            (final(self)@, r@) == old(self)@.advance(),
    {
        let ghost before = self@;
        proof {
            let next = before.files.take(before.index + 1);
            assert(next.drop_last() =~= before.files.take(before.index));
            assert(next.last() == before.files[before.index]);
            lemma_sum_sizes_prefix(before.files, before.index + 1);
            assert(self.files.deep_view()[self.index as int] == self.files[self.index as int]@);
            assert(self.files.deep_view().len() == self.files.len());
        }
        let sent: u64 = self.sent_bytes + self.files[self.index].size;
        let progress = ServerEvent::Progress {
            progress: TransferProgress {
                transfer_id: self.transfer_id.clone(),
                current_file: Some(self.files[self.index].name.clone()),
                bytes_transferred: sent,
                total_bytes: self.total_size,
                speed_bps: 0,
            },
        };
        self.sent_bytes = sent;
        self.index = self.index + 1;
        self.attempt = 0;
        let ghost first = progress@;
        let mut events = one_event(progress);
        if self.index == self.files.len() {
            self.phase = SendPhase::Complete;
            let done = ServerEvent::TransferComplete { transfer_id: self.transfer_id.clone() };
            let ghost so_far = events.deep_view();
            let ghost last = done@;
            events.push(done);
            assert(events.deep_view() =~= so_far.push(last));
            assert(events.deep_view() =~= seq![first, last]);
            SendStep { events, action: SendAction::Stop }
        } else {
            SendStep { events, action: SendAction::Upload { delay_ms: 0, index: self.index } }
        }
    }

    /// Takes the outcome of the upload of the file that was next and
    /// decides how to go on.
    pub fn on_upload(&mut self, outcome: UploadOutcome) -> (r: SendStep)
        requires
            old(self)@.wf(),
        ensures
            final(self)@.wf(),
            (final(self)@, r@) == old(self)@.after_upload(outcome@),
    {
        match self.phase {
            SendPhase::Uploading => {},
            _ => {
                return SendStep { events: no_events(), action: SendAction::Stop };
            },
        }
        if self.cancelled {
            return self.fail_with(
                "cancelled".to_string(),
                AppError::Network("Transfer cancelled".to_string()),
            );
        }
        let cause = match upload_error(&outcome) {
            Some(e) => e,
            None => AppError::TransferRejected,
        };
        match outcome {
            UploadOutcome::Answer(status, text) => {
                match classify_status(status) {
                    None => self.next_file(),
                    Some(kind) => {
                        if kind.is_retryable() {
                            self.retry(text, cause)
                        } else {
                            self.fail_with(text, cause)
                        }
                    },
                }
            },
            UploadOutcome::Failed(e) => self.retry(e, cause),
            UploadOutcome::Unreadable(step, e) => {
                let prefix = match step {
                    FileStep::Open => "Failed to open file: ",
                    FileStep::Metadata => "Failed to get file metadata: ",
                    FileStep::Read => "Failed to read file: ",
                };
                self.fail_with(prefix.to_string().concat(e.as_str()), cause)
            },
        }
    }
}

/// Model of one entry of [`ActiveSends`].
pub struct ActiveSendView {
    pub transfer_id: Seq<char>,
    pub cancelled: bool,
}

/// One outgoing transfer under way, and whether the user asked for it to
/// be aborted.
#[derive(Debug)]
pub struct ActiveSend {
    pub transfer_id: String,
    pub cancelled: bool,
}

impl View for ActiveSend {
    type V = ActiveSendView;

    open spec fn view(&self) -> ActiveSendView {
        ActiveSendView { transfer_id: self.transfer_id@, cancelled: self.cancelled }
    }
}

impl DeepView for ActiveSend {
    type V = ActiveSendView;

    open spec fn deep_view(&self) -> ActiveSendView {
        self@
    }
}

/// Whether no two entries share a transfer identifier.
pub open spec fn distinct_sends(sends: Seq<ActiveSendView>) -> bool {
    forall|i: int, j: int|
        0 <= i < j < sends.len() ==> (#[trigger] sends[i]).transfer_id != (
        #[trigger] sends[j]).transfer_id
}

/// Whether the transfer `id` is under way.
pub open spec fn is_sending(sends: Seq<ActiveSendView>, id: Seq<char>) -> bool {
    exists|i: int| 0 <= i < sends.len() && (#[trigger] sends[i]).transfer_id == id
}

/// The place of the transfer `id` among the transfers under way.
pub open spec fn send_index(sends: Seq<ActiveSendView>, id: Seq<char>) -> int {
    choose|i: int| 0 <= i < sends.len() && (#[trigger] sends[i]).transfer_id == id
}

proof fn lemma_send_index(sends: Seq<ActiveSendView>, i: int)
    requires
        distinct_sends(sends),
        0 <= i < sends.len(),
    ensures
        is_sending(sends, sends[i].transfer_id),
        send_index(sends, sends[i].transfer_id) == i,
{
    let id = sends[i].transfer_id;
    let k = send_index(sends, id);
    assert(sends[k].transfer_id == id);
    if k < i {
        assert(sends[k].transfer_id != sends[i].transfer_id);
    }
    if i < k {
        assert(sends[i].transfer_id != sends[k].transfer_id);
    }
}

/// The outgoing transfers under way, each with its flag for abort. The user
/// interface sets the flag; the task that drives the transfer reads it
/// before each step.
pub struct ActiveSends {
    sends: Vec<ActiveSend>,
}

impl View for ActiveSends {
    type V = Seq<ActiveSendView>;

    closed spec fn view(&self) -> Seq<ActiveSendView> {
        self.sends.deep_view()
    }
}

impl ActiveSends {
    /// No transfer under way.
    pub fn new() -> (r: Self)
        ensures
            r@ == Seq::<ActiveSendView>::empty(),
            distinct_sends(r@),
    {
        let r = ActiveSends { sends: Vec::new() };
        assert(r.sends.deep_view() =~= Seq::<ActiveSendView>::empty());
        r
    }

    fn find(&self, id: &str) -> (r: Option<usize>)
        ensures
            match r {
                Some(i) => i < self@.len() && self@[i as int].transfer_id == id@,
                None => !is_sending(self@, id@),
            },
    {
        let mut i: usize = 0;
        while i < self.sends.len()
            invariant
                i <= self.sends.len(),
                forall|j: int| 0 <= j < i ==> self.sends.deep_view()[j].transfer_id != id@,
            decreases self.sends.len() - i,
        {
            if crate::text::text_eq(self.sends[i].transfer_id.as_str(), id) {
                return Some(i);
            }
            i = i + 1;
        }
        None
    }

    /// Takes up a transfer that starts, unflagged; `false` where a
    /// transfer of that identifier is under way already, and nothing
    /// changes.
    pub fn begin(&mut self, id: &str) -> (r: bool)
        requires
            distinct_sends(old(self)@),
        ensures
            distinct_sends(final(self)@),
            r == !is_sending(old(self)@, id@),
            final(self)@ == if r {
                old(self)@.push(ActiveSendView { transfer_id: id@, cancelled: false })
            } else {
                old(self)@
            },
    {
        if self.find(id).is_some() {
            return false;
        }
        let ghost before = self@;
        let entry = ActiveSend { transfer_id: id.to_owned(), cancelled: false };
        self.sends.push(entry);
        proof {
            assert(self.sends.deep_view() =~= before.push(entry@));
            assert forall|i: int, j: int| 0 <= i < j < self@.len() implies (
            #[trigger] self@[i]).transfer_id != (#[trigger] self@[j]).transfer_id by {
                assert(self@[i] == before[i]);
                if j < before.len() {
                    assert(self@[j] == before[j]);
                }
            }
        }
        true
    }

    /// Flags the transfer `id` for abort; an error where no such transfer
    /// is under way.
    pub fn cancel(&mut self, id: &str) -> (r: Result<(), AppError>)
        requires
            distinct_sends(old(self)@),
        ensures
            distinct_sends(final(self)@),
            match r {
                Ok(_) => is_sending(old(self)@, id@) && final(self)@ == old(self)@.update(
                    send_index(old(self)@, id@),
                    ActiveSendView { transfer_id: id@, cancelled: true },
                ),
                Err(e) => !is_sending(old(self)@, id@) && final(self)@ == old(self)@ && e@
                    == crate::request::transfer_not_found(id@),
            },
    {
        match self.find(id) {
            Some(i) => {
                let ghost before = self@;
                proof {
                    lemma_send_index(before, i as int);
                }
                self.sends[i].cancelled = true;
                proof {
                    assert(self.sends.deep_view() =~= before.update(
                        i as int,
                        ActiveSendView { transfer_id: id@, cancelled: true },
                    ));
                    assert forall|a: int, b: int| 0 <= a < b < self@.len() implies (
                    #[trigger] self@[a]).transfer_id != (#[trigger] self@[b]).transfer_id by {
                        assert(self@[a].transfer_id == before[a].transfer_id);
                        assert(self@[b].transfer_id == before[b].transfer_id);
                    }
                }
                Ok(())
            },
            None => Err(
                AppError::InvalidConfig("Transfer not found: ".to_string().concat(id)),
            ),
        }
    }

    /// Whether the transfer `id` is under way and flagged for abort.
    pub fn is_cancelled(&self, id: &str) -> (r: bool)
        requires
            distinct_sends(self@),
        ensures
            r == (is_sending(self@, id@) && self@[send_index(self@, id@)].cancelled),
    {
        match self.find(id) {
            Some(i) => {
                proof {
                    lemma_send_index(self@, i as int);
                }
                self.sends[i].cancelled
            },
            None => false,
        }
    }

    /// Lets go of a transfer that has ended.
    pub fn finish(&mut self, id: &str)
        requires
            distinct_sends(old(self)@),
        ensures
            distinct_sends(final(self)@),
            !is_sending(final(self)@, id@),
            final(self)@ == if is_sending(old(self)@, id@) {
                old(self)@.remove(send_index(old(self)@, id@))
            } else {
                old(self)@
            },
    {
        match self.find(id) {
            Some(i) => {
                let ghost before = self@;
                proof {
                    lemma_send_index(before, i as int);
                }
                let _ = self.sends.remove(i);
                proof {
                    assert(self.sends.deep_view() =~= before.remove(i as int));
                    assert forall|a: int| 0 <= a < self@.len() implies #[trigger] self@[a] == before[if a
                        < i {
                        a
                    } else {
                        a + 1
                    }] by {}
                    assert forall|a: int, b: int| 0 <= a < b < self@.len() implies (
                    #[trigger] self@[a]).transfer_id != (#[trigger] self@[b]).transfer_id by {
                        let x = if a < i { a } else { a + 1 };
                        let y = if b < i { b } else { b + 1 };
                        assert(before[x].transfer_id != before[y].transfer_id);
                    }
                    if is_sending(self@, id@) {
                        let k = send_index(self@, id@);
                        let x = if k < i { k } else { k + 1 };
                        assert(before[x].transfer_id == id@);
                        if x < i {
                            assert(before[x].transfer_id != before[i as int].transfer_id);
                        } else {
                            assert(before[i as int].transfer_id != before[x].transfer_id);
                        }
                    }
                }
            },
            None => {},
        }
    }
}

/// Every pause takes a second at least.
pub proof fn lemma_total_backoff_lower(n: nat)
    ensures
        total_backoff_ms(n) >= 1000 * n,
    decreases n,
{
    if n > 0 {
        lemma_total_backoff_lower((n - 1) as nat);
        lemma_backoff_capped((n - 1) as nat);
    }
}

} // verus!
