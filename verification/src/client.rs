//! The sending side, one exchange at a time: how an address resolves, what
//! each request looks like, and what the outcome of each exchange means.

use crate::naming::{safe_leaf, safe_target_leaf};
use crate::platform::{guess_mime, guessed_mime, is_uuid_text, list_interfaces, new_uuid_text};
use crate::send::SendSession;
use crate::text::{basename, decimal, u64_to_text};
use crate::types::{
    clone_opt_string, AppError, AppErrorView, AppSettings, NetworkInterface, NetworkInterfaceView,
    ResolveResult, ResolveResultView, TransferFile, TransferFileView, TransferProgress,
    TransferProgressView, TransferRequest, TransferRequestView, TransferResponse,
    TransferResponseView,
};
use crate::validate::{sum_sizes, total_size_of};
use vstd::prelude::*;
use vstd::string::*;

verus! {

/// The longest that connecting to a peer may take, in seconds.
pub const CONNECT_TIMEOUT_SECS: u64 = 10;

/// The longest that one exchange with a peer may take, in seconds.
pub const REQUEST_TIMEOUT_SECS: u64 = 30;

/// Whether `i` is the place of the first address that answered.
pub open spec fn first_true(reachable: Seq<bool>, i: int) -> bool {
    &&& 0 <= i < reachable.len()
    &&& reachable[i]
    &&& forall|j: int| 0 <= j < i ==> !reachable[j]
}

/// The place of the address to use among the addresses probed in their
/// order: the first that answered.
pub fn first_reachable(reachable: &Vec<bool>) -> (r: Option<usize>)
    ensures
        match r {
            Some(i) => first_true(reachable@, i as int),
            None => forall|j: int| 0 <= j < reachable.len() ==> !reachable[j],
        },
{
    let mut i: usize = 0;
    while i < reachable.len()
        invariant
            i <= reachable.len(),
            forall|j: int| 0 <= j < i ==> !reachable[j],
        decreases reachable.len() - i,
    {
        if reachable[i] {
            return Some(i);
        }
        i = i + 1;
    }
    None
}

/// The kinds of error that a transfer can meet.
#[derive(Debug, Clone, Copy, PartialEq, Eq, Structural)]
pub enum ErrorKind {
    /// Connecting, reading, writing or waiting failed.
    Network,
    /// The token was missing or wrong.
    Authorization,
    /// The transfer or the file is unknown.
    NotFound,
    /// The request was malformed, a size did not match, or a name was
    /// unsafe.
    Validation,
    /// The disk was full or permission was denied.
    Resource,
    /// The user turned the transfer down.
    Rejected,
    /// The user aborted the transfer.
    Cancelled,
}

impl ErrorKind {
    /// Whether a step that failed with an error of this kind is tried
    /// again.
    pub open spec fn spec_is_retryable(self) -> bool {
        self == ErrorKind::Network || self == ErrorKind::Resource
    }

    /// The HTTP status with which the server answers an error of this
    /// kind; `None` for the kinds that never reach an answer.
    pub open spec fn spec_status_code(self) -> Option<u16> {
        match self {
            ErrorKind::Network => None,
            ErrorKind::Authorization => Some(401u16),
            ErrorKind::NotFound => Some(404u16),
            ErrorKind::Validation => Some(400u16),
            ErrorKind::Resource => Some(500u16),
            ErrorKind::Rejected => Some(503u16),
            ErrorKind::Cancelled => None,
        }
    }

    /// Whether a step that failed with an error of this kind is tried
    /// again.
    pub fn is_retryable(&self) -> (r: bool)
        ensures
            r == self.spec_is_retryable(),
    {
        match self {
            ErrorKind::Network => true,
            ErrorKind::Resource => true,
            _ => false,
        }
    }

    /// The HTTP status with which the server answers an error of this
    /// kind.
    pub fn status_code(&self) -> (r: Option<u16>)
        ensures
            r == self.spec_status_code(),
    {
        match self {
            ErrorKind::Network => None,
            ErrorKind::Authorization => Some(401),
            ErrorKind::NotFound => Some(404),
            ErrorKind::Validation => Some(400),
            ErrorKind::Resource => Some(500),
            ErrorKind::Rejected => Some(503),
            ErrorKind::Cancelled => None,
        }
    }
}

/// Whether an HTTP status reports success.
pub open spec fn is_success(status: u16) -> bool {
    200 <= status < 300
}

/// The kind of error that an HTTP status stands for; `None` for a status
/// that reports success.
pub open spec fn kind_of_status(status: u16) -> Option<ErrorKind> {
    if is_success(status) {
        None
    } else if status == 401 {
        Some(ErrorKind::Authorization)
    } else if status == 404 {
        Some(ErrorKind::NotFound)
    } else if status == 400 || status == 413 {
        Some(ErrorKind::Validation)
    } else if status == 500 {
        Some(ErrorKind::Resource)
    } else if status == 503 {
        Some(ErrorKind::Rejected)
    } else {
        Some(ErrorKind::Network)
    }
}

/// Maps an HTTP status back to the kind of error it stands for.
pub fn classify_status(status: u16) -> (r: Option<ErrorKind>)
    ensures
        r == kind_of_status(status),
{
    if 200 <= status && status < 300 {
        None
    } else if status == 401 {
        Some(ErrorKind::Authorization)
    } else if status == 404 {
        Some(ErrorKind::NotFound)
    } else if status == 400 || status == 413 {
        Some(ErrorKind::Validation)
    } else if status == 500 {
        Some(ErrorKind::Resource)
    } else if status == 503 {
        Some(ErrorKind::Rejected)
    } else {
        Some(ErrorKind::Network)
    }
}

/// The status that the server answers for a kind of error is read back by
/// the client as that kind.
pub proof fn lemma_status_round_trip(kind: ErrorKind)
    ensures
        kind.spec_status_code() matches Some(status) ==> kind_of_status(status) == Some(kind),
{
}

/// Model of a [`RequestFailure`].
pub enum RequestFailureView {
    Connect(Seq<char>),
    Timeout(Seq<char>),
    Other(Seq<char>),
}

/// Why an HTTP exchange did not come to an answer, with the text of the
/// error.
#[derive(Debug)]
pub enum RequestFailure {
    /// The connection could not be made.
    Connect(String),
    /// The exchange took too long.
    Timeout(String),
    /// Anything else.
    Other(String),
}

impl View for RequestFailure {
    type V = RequestFailureView;

    open spec fn view(&self) -> RequestFailureView {
        match self {
            RequestFailure::Connect(e) => RequestFailureView::Connect(e@),
            RequestFailure::Timeout(e) => RequestFailureView::Timeout(e@),
            RequestFailure::Other(e) => RequestFailureView::Other(e@),
        }
    }
}

impl RequestFailureView {
    /// The text of the error.
    pub open spec fn text(self) -> Seq<char> {
        match self {
            RequestFailureView::Connect(e) => e,
            RequestFailureView::Timeout(e) => e,
            RequestFailureView::Other(e) => e,
        }
    }
}

impl RequestFailure {
    /// The text of the error.
    pub fn text(&self) -> (r: &str)
        ensures
            r@ == self@.text(),
    {
        match self {
            RequestFailure::Connect(e) => e.as_str(),
            RequestFailure::Timeout(e) => e.as_str(),
            RequestFailure::Other(e) => e.as_str(),
        }
    }
}

/// `address:port`, as it stands in messages.
pub open spec fn host_port(address: Seq<char>, port: u16) -> Seq<char> {
    address + ":"@ + decimal(port as nat)
}

/// An address as it stands in a URL: one with a colon in it, which is an
/// IPv6 literal, goes in square brackets.
pub open spec fn url_host(address: Seq<char>) -> Seq<char> {
    if address.contains(':') {
        "["@ + address + "]"@
    } else {
        address
    }
}

/// The URL of an endpoint of a peer.
pub open spec fn endpoint_url(address: Seq<char>, port: u16, path: Seq<char>) -> Seq<char> {
    "http://"@ + host_port(url_host(address), port) + path
}

fn url_host_text(address: &str) -> (r: String)
    ensures
        r@ == url_host(address@),
{
    let n: usize = address.unicode_len();
    let mut i: usize = 0;
    while i < n
        invariant
            i <= n,
            n == address@.len(),
            forall|j: int| 0 <= j < i ==> address@[j] != ':',
        decreases n - i,
    {
        if address.get_char(i) == ':' {
            assert(address@.contains(':'));
            return "[".to_string().concat(address).concat("]");
        }
        i = i + 1;
    }
    address.to_owned()
}

/// The URL to which the file `file_id` of the transfer `transfer_id` is
/// uploaded.
pub open spec fn chunk_url_of(
    address: Seq<char>,
    port: u16,
    transfer_id: Seq<char>,
    file_id: Seq<char>,
    token: Seq<char>,
) -> Seq<char> {
    endpoint_url(address, port, "/chunk"@) + "?transfer_id="@ + transfer_id + "&file_id="@
        + file_id + "&token="@ + token
}

fn host_port_text(address: &str, port: u16) -> (r: String)
    ensures
        r@ == host_port(address@, port),
{
    address.to_owned().concat(":").concat(u64_to_text(port as u64).as_str())
}

fn endpoint(address: &str, port: u16, path: &str) -> (r: String)
    ensures
        r@ == endpoint_url(address@, port, path@),
{
    let host = url_host_text(address);
    "http://".to_string().concat(host_port_text(host.as_str(), port).as_str()).concat(path)
}

/// The URL of the liveness probe of a peer.
pub fn health_url(address: &str, port: u16) -> (r: String)
    ensures
        r@ == endpoint_url(address@, port, "/health"@),
{
    endpoint(address, port, "/health")
}

/// The URL at which a peer tells who it is.
pub fn info_url(address: &str, port: u16) -> (r: String)
    ensures
        r@ == endpoint_url(address@, port, "/info"@),
{
    endpoint(address, port, "/info")
}

/// The URL to which transfer requests are posted.
pub fn transfer_url(address: &str, port: u16) -> (r: String)
    ensures
        r@ == endpoint_url(address@, port, "/transfer"@),
{
    endpoint(address, port, "/transfer")
}

/// The URL to which one file is uploaded.
pub fn chunk_url(address: &str, port: u16, transfer_id: &str, file_id: &str, token: &str) -> (r:
    String)
    ensures
        r@ == chunk_url_of(address@, port, transfer_id@, file_id@, token@),
{
    endpoint(address, port, "/chunk").concat("?transfer_id=").concat(transfer_id).concat(
        "&file_id=",
    ).concat(file_id).concat("&token=").concat(token)
}

/// What resolving `address` comes to. `literal` is the address in its
/// canonical form where it is an IP literal; `looked_up` is what name
/// resolution gave, or the text of its error.
pub open spec fn resolution(
    address: Seq<char>,
    literal: Option<Seq<char>>,
    looked_up: Result<Seq<Seq<char>>, Seq<char>>,
) -> ResolveResultView {
    match literal {
        Some(ip) => ResolveResultView {
            hostname: address,
            ips: seq![ip],
            success: true,
            error: None,
        },
        None => match looked_up {
            Ok(ips) => if ips.len() == 0 {
                ResolveResultView {
                    hostname: address,
                    ips: Seq::empty(),
                    success: false,
                    error: Some("No IP addresses found"@),
                }
            } else {
                ResolveResultView { hostname: address, ips, success: true, error: None }
            },
            Err(e) => ResolveResultView {
                hostname: address,
                ips: Seq::empty(),
                success: false,
                error: Some("DNS resolution failed: "@ + e),
            },
        },
    }
}

/// The model of what name resolution gave.
pub open spec fn lookup_view(looked_up: Result<Vec<String>, String>) -> Result<
    Seq<Seq<char>>,
    Seq<char>,
> {
    match looked_up {
        Ok(ips) => Ok(ips.deep_view()),
        Err(e) => Err(e@),
    }
}

/// What a probe of `address:port` comes to, given the status of the answer
/// or the failure of the exchange.
pub open spec fn peer_check(
    address: Seq<char>,
    port: u16,
    outcome: Result<u16, RequestFailureView>,
) -> Result<bool, AppErrorView> {
    match outcome {
        Ok(status) => if is_success(status) {
            Ok(true)
        } else {
            Err(AppErrorView::Network("Peer returned status "@ + decimal(status as nat)))
        },
        Err(RequestFailureView::Connect(e)) => Err(
            AppErrorView::ConnectionRefused(
                "Cannot connect to "@ + host_port(address, port) + " - "@ + e,
            ),
        ),
        Err(RequestFailureView::Timeout(_)) => Err(
            AppErrorView::Network("Connection timed out to "@ + host_port(address, port)),
        ),
        Err(RequestFailureView::Other(e)) => Err(AppErrorView::Network("Request failed: "@ + e)),
    }
}

/// The model of the outcome of a probe.
pub open spec fn status_outcome_view(outcome: Result<u16, RequestFailure>) -> Result<
    u16,
    RequestFailureView,
> {
    match outcome {
        Ok(status) => Ok(status),
        Err(f) => Err(f@),
    }
}

/// Model of a [`PeerInfo`].
pub struct PeerInfoView {
    pub name: Seq<char>,
    pub version: Seq<char>,
    pub app: Seq<char>,
}

/// What a peer tells about itself.
#[derive(Debug)]
pub struct PeerInfo {
    pub name: String,
    pub version: String,
    pub app: String,
}

impl View for PeerInfo {
    type V = PeerInfoView;

    open spec fn view(&self) -> PeerInfoView {
        PeerInfoView { name: self.name@, version: self.version@, app: self.app@ }
    }
}

/// Model of a [`HealthInfo`].
pub struct HealthInfoView {
    pub status: Seq<char>,
    pub app: Seq<char>,
    pub version: Seq<char>,
}

/// The answer of the liveness endpoint.
#[derive(Debug)]
pub struct HealthInfo {
    pub status: String,
    pub app: String,
    pub version: String,
}

impl View for HealthInfo {
    type V = HealthInfoView;

    open spec fn view(&self) -> HealthInfoView {
        HealthInfoView { status: self.status@, app: self.app@, version: self.version@ }
    }
}

/// The name under which the application answers.
pub open spec fn app_name() -> Seq<char> {
    "gosh-transfer"@
}

/// How asking a peer who it is ended.
#[derive(Debug)]
pub enum InfoOutcome {
    /// The peer answered.
    Info(PeerInfo),
    /// The exchange failed, with this text.
    SendFailed(String),
    /// The answer could not be read, with this text.
    ParseFailed(String),
}

/// How posting a transfer request ended.
#[derive(Debug)]
pub enum PostOutcome {
    /// The peer answered with a response.
    Answer(TransferResponse),
    /// The peer answered with a status other than success, and this text.
    Refused(u16, String),
    /// The exchange failed.
    Failed(RequestFailure),
    /// The answer could not be read, with this text.
    ParseFailed(String),
}

/// Model of a [`PostOutcome`].
pub enum PostOutcomeView {
    Answer(TransferResponseView),
    Refused(u16, Seq<char>),
    Failed(RequestFailureView),
    ParseFailed(Seq<char>),
}

impl View for PostOutcome {
    type V = PostOutcomeView;

    open spec fn view(&self) -> PostOutcomeView {
        match self {
            PostOutcome::Answer(r) => PostOutcomeView::Answer(r@),
            PostOutcome::Refused(status, text) => PostOutcomeView::Refused(*status, text@),
            PostOutcome::Failed(f) => PostOutcomeView::Failed(f@),
            PostOutcome::ParseFailed(text) => PostOutcomeView::ParseFailed(text@),
        }
    }
}

/// The step at which a file to send could not be had.
#[derive(Debug, Clone, Copy, PartialEq, Eq, Structural)]
pub enum FileStep {
    /// Opening the file.
    Open,
    /// Asking for its size.
    Metadata,
    /// Reading its bytes.
    Read,
}

impl FileStep {
    /// How the text of the error begins.
    pub open spec fn prefix(self) -> Seq<char> {
        match self {
            FileStep::Open => "Failed to open file: "@,
            FileStep::Metadata => "Failed to get file metadata: "@,
            FileStep::Read => "Failed to read file: "@,
        }
    }
}

/// How uploading one file ended.
#[derive(Debug)]
pub enum UploadOutcome {
    /// The peer answered with this status and, where it is not success,
    /// this text.
    Answer(u16, String),
    /// The exchange failed, with this text.
    Failed(String),
    /// The file could not be had at this step, with this text; nothing was
    /// sent.
    Unreadable(FileStep, String),
}

/// Model of an [`UploadOutcome`].
pub enum UploadOutcomeView {
    Answer(u16, Seq<char>),
    Failed(Seq<char>),
    Unreadable(FileStep, Seq<char>),
}

impl View for UploadOutcome {
    type V = UploadOutcomeView;

    open spec fn view(&self) -> UploadOutcomeView {
        match self {
            UploadOutcome::Answer(status, text) => UploadOutcomeView::Answer(*status, text@),
            UploadOutcome::Failed(text) => UploadOutcomeView::Failed(text@),
            UploadOutcome::Unreadable(step, text) => UploadOutcomeView::Unreadable(*step, text@),
        }
    }
}

/// The error that the outcome of posting a request to `address:port`
/// stands for; `None` for an answer.
pub open spec fn request_failure(address: Seq<char>, port: u16, outcome: PostOutcomeView) -> Option<
    AppErrorView,
> {
    match outcome {
        PostOutcomeView::Answer(_) => None,
        PostOutcomeView::Refused(status, text) => if status == 503 {
            Some(AppErrorView::TransferRejected)
        } else {
            Some(AppErrorView::Network("Transfer request failed: "@ + text))
        },
        PostOutcomeView::Failed(RequestFailureView::Connect(e)) => Some(
            AppErrorView::ConnectionRefused(
                "Cannot connect to "@ + host_port(address, port) + " - "@ + e,
            ),
        ),
        PostOutcomeView::Failed(f) => Some(
            AppErrorView::Network("Transfer request failed: "@ + f.text()),
        ),
        PostOutcomeView::ParseFailed(e) => Some(
            AppErrorView::Serialization("Failed to parse response: "@ + e),
        ),
    }
}

/// The error that the outcome of an upload stands for; `None` for an
/// answer that reports success. A file that could not be had is a file
/// error; everything else is a network error.
pub open spec fn upload_failure(outcome: UploadOutcomeView) -> Option<AppErrorView> {
    match outcome {
        UploadOutcomeView::Answer(status, text) => if is_success(status) {
            None
        } else {
            Some(AppErrorView::Network("Server returned error: "@ + text))
        },
        UploadOutcomeView::Failed(e) => Some(AppErrorView::Network("Failed to send file: "@ + e)),
        UploadOutcomeView::Unreadable(step, e) => Some(AppErrorView::FileIo(step.prefix() + e)),
    }
}

/// Computes the error that the outcome of posting a request stands for.
pub fn request_error(address: &str, port: u16, outcome: &PostOutcome) -> (r: Option<AppError>)
    ensures
        match r {
            Some(e) => request_failure(address@, port, outcome@) == Some(e@),
            None => request_failure(address@, port, outcome@) is None,
        },
{
    match outcome {
        PostOutcome::Answer(_) => None,
        PostOutcome::Refused(status, text) => {
            if *status == 503 {
                Some(AppError::TransferRejected)
            } else {
                Some(
                    AppError::Network(
                        "Transfer request failed: ".to_string().concat(text.as_str()),
                    ),
                )
            }
        },
        PostOutcome::Failed(f) => match f {
            RequestFailure::Connect(e) => Some(
                AppError::ConnectionRefused(
                    "Cannot connect to ".to_string().concat(
                        host_port_text(address, port).as_str(),
                    ).concat(" - ").concat(e.as_str()),
                ),
            ),
            RequestFailure::Timeout(e) => Some(
                AppError::Network("Transfer request failed: ".to_string().concat(e.as_str())),
            ),
            RequestFailure::Other(e) => Some(
                AppError::Network("Transfer request failed: ".to_string().concat(e.as_str())),
            ),
        },
        PostOutcome::ParseFailed(e) => Some(
            AppError::Serialization("Failed to parse response: ".to_string().concat(e.as_str())),
        ),
    }
}

/// Computes the error that the outcome of an upload stands for.
pub fn upload_error(outcome: &UploadOutcome) -> (r: Option<AppError>)
    ensures
        match r {
            Some(e) => upload_failure(outcome@) == Some(e@),
            None => upload_failure(outcome@) is None,
        },
{
    match outcome {
        UploadOutcome::Answer(status, text) => {
            if 200 <= *status && *status < 300 {
                None
            } else {
                Some(
                    AppError::Network("Server returned error: ".to_string().concat(text.as_str())),
                )
            }
        },
        UploadOutcome::Failed(e) => Some(
            AppError::Network("Failed to send file: ".to_string().concat(e.as_str())),
        ),
        UploadOutcome::Unreadable(step, e) => {
            let prefix = match step {
                FileStep::Open => "Failed to open file: ",
                FileStep::Metadata => "Failed to get file metadata: ",
                FileStep::Read => "Failed to read file: ",
            };
            Some(AppError::FileIo(prefix.to_string().concat(e.as_str())))
        },
    }
}

/// What the answer to a transfer request comes to.
pub open spec fn request_result(
    address: Seq<char>,
    port: u16,
    outcome: PostOutcomeView,
) -> Result<TransferResponseView, AppErrorView> {
    match outcome {
        PostOutcomeView::Answer(r) => Ok(r),
        _ => Err(request_failure(address, port, outcome)->0),
    }
}

/// What the upload of a file of `size` bytes called `name` comes to: the
/// progress to report, or the error.
pub open spec fn upload_result(
    transfer_id: Seq<char>,
    name: Seq<char>,
    size: u64,
    outcome: UploadOutcomeView,
) -> Result<TransferProgressView, AppErrorView> {
    match upload_failure(outcome) {
        Some(e) => Err(e),
        None => Ok(
            TransferProgressView {
                transfer_id,
                current_file: Some(name),
                bytes_transferred: size,
                total_bytes: size,
                speed_bps: 0,
            },
        ),
    }
}

/// The descriptor of the file at `path` with the given size, identifier and
/// media type; an error where the path names no file.
pub open spec fn described(
    path: Seq<char>,
    size: u64,
    id: Seq<char>,
    mime_type: Option<Seq<char>>,
) -> Result<TransferFileView, AppErrorView> {
    if safe_leaf(basename(path)) {
        Ok(TransferFileView { name: basename(path), size, mime_type, id })
    } else {
        Err(AppErrorView::FileIo("Invalid file path"@))
    }
}

/// The model of an optional descriptor or its error.
pub open spec fn file_result_view(r: Result<TransferFile, AppError>) -> Result<
    TransferFileView,
    AppErrorView,
> {
    match r {
        Ok(f) => Ok(f@),
        Err(e) => Err(e@),
    }
}

/// The request for a transfer of `files` under the identifier
/// `transfer_id`; an error where the sizes do not add up to a `u64`.
pub open spec fn built_request(
    transfer_id: Seq<char>,
    files: Seq<TransferFileView>,
    sender_name: Option<Seq<char>>,
) -> Result<TransferRequestView, AppErrorView> {
    if sum_sizes(files) <= u64::MAX {
        Ok(
            TransferRequestView {
                transfer_id,
                sender_name,
                files,
                total_size: sum_sizes(files) as u64,
            },
        )
    } else {
        Err(AppErrorView::InvalidConfig("Total size of the files is too large"@))
    }
}

/// The model of an optional request or its error.
pub open spec fn request_result_view(r: Result<TransferRequest, AppError>) -> Result<
    TransferRequestView,
    AppErrorView,
> {
    match r {
        Ok(q) => Ok(q@),
        Err(e) => Err(e@),
    }
}

/// The error with which sending is refused in receive-only mode.
pub open spec fn receive_only_error() -> AppErrorView {
    AppErrorView::InvalidConfig("Sending is disabled in receive-only mode"@)
}

/// Builds the descriptor of the file at `path`.
pub fn describe_file_with(path: &str, size: u64, id: String, mime_type: Option<String>) -> (r:
    Result<TransferFile, AppError>)
    ensures
        file_result_view(r) == described(path@, size, id@, mime_type.deep_view()),
{
    match safe_target_leaf(path) {
        Some(name) => Ok(TransferFile { name, size, mime_type, id }),
        None => Err(AppError::FileIo("Invalid file path".to_string())),
    }
}

/// Builds the descriptor of the file at `path`, with a fresh identifier and
/// the media type guessed from its name.
pub fn describe_file(path: &str, size: u64) -> (r: Result<TransferFile, AppError>)
    ensures
        match r {
            Ok(f) => is_uuid_text(f@.id) && Ok::<TransferFileView, AppErrorView>(f@) == described(
                path@,
                size,
                f@.id,
                guessed_mime(basename(path@)),
            ),
            Err(e) => !safe_leaf(basename(path@)) && e@ == AppErrorView::FileIo(
                "Invalid file path"@,
            ),
        },
{
    match safe_target_leaf(path) {
        Some(name) => {
            let mime_type = guess_mime(name.as_str());
            let id = new_uuid_text();
            Ok(TransferFile { name, size, mime_type, id })
        },
        None => Err(AppError::FileIo("Invalid file path".to_string())),
    }
}

/// Builds the request for a transfer of `files`.
pub fn build_request(transfer_id: String, files: Vec<TransferFile>, sender_name: Option<String>) -> (r:
    Result<TransferRequest, AppError>)
    ensures
        request_result_view(r) == built_request(
            transfer_id@,
            files.deep_view(),
            sender_name.deep_view(),
        ),
{
    match total_size_of(&files) {
        Some(total_size) => Ok(TransferRequest { transfer_id, sender_name, files, total_size }),
        None => Err(AppError::InvalidConfig("Total size of the files is too large".to_string())),
    }
}

/// The sending side of a peer.
pub struct TransferClient {
    sender_name: Option<String>,
    receive_only: bool,
}

/// Model of a [`TransferClient`].
pub struct TransferClientView {
    pub sender_name: Option<Seq<char>>,
    pub receive_only: bool,
}

impl View for TransferClient {
    type V = TransferClientView;

    closed spec fn view(&self) -> TransferClientView {
        TransferClientView {
            sender_name: self.sender_name.deep_view(),
            receive_only: self.receive_only,
        }
    }
}

impl TransferClient {
    /// A client that sends under the device name of `settings`, unless
    /// they put the peer in receive-only mode.
    pub fn new(settings: &AppSettings) -> (r: Self)
        ensures
            r@ == (TransferClientView {
                sender_name: Some(settings@.device_name),
                receive_only: settings@.receive_only,
            }),
    {
        TransferClient {
            sender_name: Some(settings.device_name.clone()),
            receive_only: settings.receive_only,
        }
    }

    /// Whether the send path is disabled.
    pub fn is_receive_only(&self) -> (r: bool)
        ensures
            r == self@.receive_only,
    {
        self.receive_only
    }

    /// Says what resolving `address` came to. An IP literal is its own
    /// sole address; a name resolves to every address found, in the order
    /// in which they are to be tried; no address is a failure.
    pub fn resolve_address(address: &str, literal: Option<String>, looked_up: Result<
        Vec<String>,
        String,
    >) -> (r: ResolveResult)
        ensures
            r@ == resolution(address@, literal.deep_view(), lookup_view(looked_up)),
    {
        match literal {
            Some(ip) => {
                let mut ips: Vec<String> = Vec::new();
                ips.push(ip);
                assert(ips.deep_view() =~= seq![ip@]);
                ResolveResult { hostname: address.to_owned(), ips, success: true, error: None }
            },
            None => match looked_up {
                Ok(ips) => {
                    if ips.len() == 0 {
                        let none: Vec<String> = Vec::new();
                        assert(none.deep_view() =~= Seq::<Seq<char>>::empty());
                        ResolveResult {
                            hostname: address.to_owned(),
                            ips: none,
                            success: false,
                            error: Some("No IP addresses found".to_string()),
                        }
                    } else {
                        ResolveResult {
                            hostname: address.to_owned(),
                            ips,
                            success: true,
                            error: None,
                        }
                    }
                },
                Err(e) => {
                    let none: Vec<String> = Vec::new();
                    assert(none.deep_view() =~= Seq::<Seq<char>>::empty());
                    ResolveResult {
                        hostname: address.to_owned(),
                        ips: none,
                        success: false,
                        error: Some("DNS resolution failed: ".to_string().concat(e.as_str())),
                    }
                },
            },
        }
    }

    /// Says what a probe of the liveness endpoint of `address:port` came
    /// to.
    pub fn check_peer(address: &str, port: u16, outcome: Result<u16, RequestFailure>) -> (r:
        Result<bool, AppError>)
        ensures
            match r {
                Ok(b) => peer_check(address@, port, status_outcome_view(outcome)) == Ok::<
                    bool,
                    AppErrorView,
                >(b),
                Err(e) => peer_check(address@, port, status_outcome_view(outcome)) == Err::<
                    bool,
                    AppErrorView,
                >(e@),
            },
    {
        match outcome {
            Ok(status) => {
                if 200 <= status && status < 300 {
                    Ok(true)
                } else {
                    Err(
                        AppError::Network(
                            "Peer returned status ".to_string().concat(
                                u64_to_text(status as u64).as_str(),
                            ),
                        ),
                    )
                }
            },
            Err(RequestFailure::Connect(e)) => Err(
                AppError::ConnectionRefused(
                    "Cannot connect to ".to_string().concat(
                        host_port_text(address, port).as_str(),
                    ).concat(" - ").concat(e.as_str()),
                ),
            ),
            Err(RequestFailure::Timeout(_)) => Err(
                AppError::Network(
                    "Connection timed out to ".to_string().concat(
                        host_port_text(address, port).as_str(),
                    ),
                ),
            ),
            Err(RequestFailure::Other(e)) => Err(
                AppError::Network("Request failed: ".to_string().concat(e.as_str())),
            ),
        }
    }

    /// Says what asking a peer who it is came to.
    pub fn get_peer_info(outcome: InfoOutcome) -> (r: Result<PeerInfo, AppError>)
        ensures
            match outcome {
                InfoOutcome::Info(info) => r matches Ok(i) && i@ == info@,
                InfoOutcome::SendFailed(e) => r matches Err(err) && err@ == AppErrorView::Network(
                    "Failed to get peer info: "@ + e@,
                ),
                InfoOutcome::ParseFailed(e) => r matches Err(err) && err@
                    == AppErrorView::Serialization("Failed to parse peer info: "@ + e@),
            },
    {
        match outcome {
            InfoOutcome::Info(info) => Ok(info),
            InfoOutcome::SendFailed(e) => Err(
                AppError::Network("Failed to get peer info: ".to_string().concat(e.as_str())),
            ),
            InfoOutcome::ParseFailed(e) => Err(
                AppError::Serialization(
                    "Failed to parse peer info: ".to_string().concat(e.as_str()),
                ),
            ),
        }
    }

    /// Builds the request for a transfer of `files` under a fresh
    /// identifier.
    pub fn request_transfer(files: Vec<TransferFile>, sender_name: Option<String>) -> (r: Result<
        TransferRequest,
        AppError,
    >)
        ensures
            exists|id: Seq<char>|
                is_uuid_text(id) && request_result_view(r) == built_request(
                    id,
                    files.deep_view(),
                    sender_name.deep_view(),
                ),
    {
        let id = new_uuid_text();
        build_request(id, files, sender_name)
    }

    /// Says what posting a transfer request to `address:port` came to.
    pub fn transfer_response(address: &str, port: u16, outcome: PostOutcome) -> (r: Result<
        TransferResponse,
        AppError,
    >)
        ensures
            match r {
                Ok(resp) => request_result(address@, port, outcome@) == Ok::<
                    TransferResponseView,
                    AppErrorView,
                >(resp@),
                Err(e) => request_result(address@, port, outcome@) == Err::<
                    TransferResponseView,
                    AppErrorView,
                >(e@),
            },
    {
        match request_error(address, port, &outcome) {
            Some(e) => Err(e),
            None => match outcome {
                PostOutcome::Answer(resp) => Ok(resp),
                _ => Err(AppError::TransferRejected),
            },
        }
    }

    /// Says what the upload of one file came to: the progress to report
    /// after it, or the error.
    pub fn send_file(transfer_id: &str, file: &TransferFile, outcome: UploadOutcome) -> (r: Result<
        TransferProgress,
        AppError,
    >)
        ensures
            match r {
                Ok(p) => upload_result(transfer_id@, file@.name, file@.size, outcome@) == Ok::<
                    TransferProgressView,
                    AppErrorView,
                >(p@),
                Err(e) => upload_result(transfer_id@, file@.name, file@.size, outcome@) == Err::<
                    TransferProgressView,
                    AppErrorView,
                >(e@),
            },
    {
        match upload_error(&outcome) {
            Some(e) => Err(e),
            None => Ok(
                TransferProgress {
                    transfer_id: transfer_id.to_owned(),
                    current_file: Some(file.name.clone()),
                    bytes_transferred: file.size,
                    total_bytes: file.size,
                    speed_bps: 0,
                },
            ),
        }
    }

    /// Starts a transfer of `files`, which lie at `paths`, to
    /// `address:port`. In receive-only mode nothing is started.
    pub fn send_files(
        &self,
        address: &str,
        port: u16,
        files: Vec<TransferFile>,
        paths: Vec<String>,
    ) -> (r: Result<SendSession, AppError>)
        ensures
            match r {
                Ok(session) => !self@.receive_only && paths.len() == files.len() && sum_sizes(
                    files.deep_view(),
                ) <= u64::MAX && is_uuid_text(session@.transfer_id) && session@
                    == crate::send::fresh_session(
                    session@.transfer_id,
                    address@,
                    port,
                    files.deep_view(),
                    paths.deep_view(),
                    self@.sender_name,
                ),
                Err(e) => if self@.receive_only {
                    e@ == receive_only_error()
                } else if paths.len() != files.len() {
                    e@ == AppErrorView::InvalidConfig("One path is needed for each file"@)
                } else {
                    sum_sizes(files.deep_view()) > u64::MAX && e@ == AppErrorView::InvalidConfig(
                        "Total size of the files is too large"@,
                    )
                },
            },
    {
        if self.receive_only {
            return Err(
                AppError::InvalidConfig("Sending is disabled in receive-only mode".to_string()),
            );
        }
        let id = new_uuid_text();
        SendSession::new(
            id,
            address.to_owned(),
            port,
            files,
            paths,
            clone_opt_string(&self.sender_name),
        )
    }
}

/// The interfaces of the host as the platform listed them, or none where
/// it could not.
pub fn interfaces_from(listed: Option<Vec<(String, String, bool)>>) -> (r: Vec<NetworkInterface>)
    ensures
        match listed {
            Some(items) => r.len() == items.len() && forall|i: int|
                0 <= i < r.len() ==> #[trigger] r.deep_view()[i] == (NetworkInterfaceView {
                    name: items[i].0@,
                    ip: items[i].1@,
                    is_loopback: items[i].2,
                }),
            None => r.len() == 0,
        },
{
    let mut out: Vec<NetworkInterface> = Vec::new();
    match listed {
        Some(items) => {
            let mut i: usize = 0;
            while i < items.len()
                invariant
                    i <= items.len(),
                    out.len() == i,
                    forall|j: int|
                        0 <= j < i ==> #[trigger] out.deep_view()[j] == (NetworkInterfaceView {
                            name: items[j].0@,
                            ip: items[j].1@,
                            is_loopback: items[j].2,
                        }),
                decreases items.len() - i,
            {
                let ghost so_far = out.deep_view();
                let item = NetworkInterface {
                    name: items[i].0.clone(),
                    ip: items[i].1.clone(),
                    is_loopback: items[i].2,
                };
                out.push(item);
                assert(out.deep_view() =~= so_far.push(item@));
                i = i + 1;
            }
            out
        },
        None => out,
    }
}

/// Every address of every interface of this host; the caller decides
/// whether to leave out the loopback ones. Where the host cannot list
/// them, there are none.
pub fn get_network_interfaces() -> (r: Vec<NetworkInterface>) {
    interfaces_from(list_interfaces())
}

} // verus!
