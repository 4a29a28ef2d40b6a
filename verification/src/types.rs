//! Shared data types of the transfer engine and their mathematical models.
//!
//! Every type that owns text has a view in which each `String` is replaced by
//! its sequence of characters. Contracts throughout the crate speak of these
//! views, because two strings are interchangeable exactly when their views
//! are equal.

use vstd::prelude::*;

verus! {

/// Direction of a transfer.
#[derive(Debug, Clone, Copy, PartialEq, Eq, Structural)]
pub enum TransferDirection {
    Sent,
    Received,
}

/// Status of a transfer.
#[derive(Debug, Clone, Copy, PartialEq, Eq, Structural)]
pub enum TransferStatus {
    Pending,
    InProgress,
    Completed,
    Failed,
    Rejected,
}

/// Copies an optional string, character for character.
pub fn clone_opt_string(o: &Option<String>) -> (r: Option<String>)
    ensures
        r.deep_view() == o.deep_view(),
{
    match o {
        Some(s) => Some(s.clone()),
        None => None,
    }
}

/// Copies a list of strings, character for character and in order.
pub fn clone_strings(v: &Vec<String>) -> (r: Vec<String>)
    ensures
        r.deep_view() == v.deep_view(),
{
    let mut out: Vec<String> = Vec::new();
    let mut i: usize = 0;
    while i < v.len()
        invariant
            i <= v.len(),
            out.len() == i,
            forall|j: int| 0 <= j < i ==> out[j]@ == v[j]@,
        decreases v.len() - i,
    {
        out.push(v[i].clone());
        i = i + 1;
    }
    assert(out.deep_view() =~= v.deep_view());
    out
}

/// Model of a [`Favorite`].
pub struct FavoriteView {
    pub id: Seq<char>,
    pub name: Seq<char>,
    pub address: Seq<char>,
    pub last_resolved_ip: Option<Seq<char>>,
    pub last_used: Option<i64>,
}

/// A saved peer for quick access.
#[derive(Debug)]
pub struct Favorite {
    /// Unique identifier.
    pub id: String,
    /// User-friendly name.
    pub name: String,
    /// Hostname or IP address.
    pub address: String,
    /// Last successfully resolved IP, if any.
    pub last_resolved_ip: Option<String>,
    /// When this favorite was last used, in milliseconds since the Unix epoch.
    pub last_used: Option<i64>,
}

impl View for Favorite {
    type V = FavoriteView;

    open spec fn view(&self) -> FavoriteView {
        FavoriteView {
            id: self.id@,
            name: self.name@,
            address: self.address@,
            last_resolved_ip: self.last_resolved_ip.deep_view(),
            last_used: self.last_used,
        }
    }
}

impl DeepView for Favorite {
    type V = FavoriteView;

    open spec fn deep_view(&self) -> FavoriteView {
        self@
    }
}

impl Clone for Favorite {
    fn clone(&self) -> (r: Self)
        ensures
            r@ == self@,
    {
        Favorite {
            id: self.id.clone(),
            name: self.name.clone(),
            address: self.address.clone(),
            last_resolved_ip: clone_opt_string(&self.last_resolved_ip),
            last_used: self.last_used,
        }
    }
}

/// Model of a [`TransferFile`].
pub struct TransferFileView {
    pub name: Seq<char>,
    pub size: u64,
    pub mime_type: Option<Seq<char>>,
    pub id: Seq<char>,
}

/// A single file in a transfer.
#[derive(Debug)]
pub struct TransferFile {
    /// Bare file name, never a path.
    pub name: String,
    /// File size in bytes.
    pub size: u64,
    /// MIME type, if detected.
    pub mime_type: Option<String>,
    /// Identifier of this file within its transfer.
    pub id: String,
}

impl View for TransferFile {
    type V = TransferFileView;

    open spec fn view(&self) -> TransferFileView {
        TransferFileView {
            name: self.name@,
            size: self.size,
            mime_type: self.mime_type.deep_view(),
            id: self.id@,
        }
    }
}

impl DeepView for TransferFile {
    type V = TransferFileView;

    open spec fn deep_view(&self) -> TransferFileView {
        self@
    }
}

impl Clone for TransferFile {
    fn clone(&self) -> (r: Self)
        ensures
            r@ == self@,
    {
        TransferFile {
            name: self.name.clone(),
            size: self.size,
            mime_type: clone_opt_string(&self.mime_type),
            id: self.id.clone(),
        }
    }
}

/// Copies a list of file descriptors.
pub fn clone_files(v: &Vec<TransferFile>) -> (r: Vec<TransferFile>)
    ensures
        r.deep_view() == v.deep_view(),
{
    let mut out: Vec<TransferFile> = Vec::new();
    let mut i: usize = 0;
    while i < v.len()
        invariant
            i <= v.len(),
            out.len() == i,
            forall|j: int| 0 <= j < i ==> out[j]@ == v[j]@,
        decreases v.len() - i,
    {
        out.push(v[i].clone());
        i = i + 1;
    }
    assert(out.deep_view() =~= v.deep_view());
    out
}

/// Model of a [`TransferRequest`].
pub struct TransferRequestView {
    pub transfer_id: Seq<char>,
    pub sender_name: Option<Seq<char>>,
    pub files: Seq<TransferFileView>,
    pub total_size: u64,
}

/// Metadata for a transfer request, sent before any data.
#[derive(Debug)]
pub struct TransferRequest {
    /// Unique transfer session identifier.
    pub transfer_id: String,
    /// Optional friendly name of the sender.
    pub sender_name: Option<String>,
    /// Files to be transferred, in upload order.
    pub files: Vec<TransferFile>,
    /// Total size of all files.
    pub total_size: u64,
}

impl View for TransferRequest {
    type V = TransferRequestView;

    open spec fn view(&self) -> TransferRequestView {
        TransferRequestView {
            transfer_id: self.transfer_id@,
            sender_name: self.sender_name.deep_view(),
            files: self.files.deep_view(),
            total_size: self.total_size,
        }
    }
}

impl Clone for TransferRequest {
    fn clone(&self) -> (r: Self)
        ensures
            r@ == self@,
    {
        TransferRequest {
            transfer_id: self.transfer_id.clone(),
            sender_name: clone_opt_string(&self.sender_name),
            files: clone_files(&self.files),
            total_size: self.total_size,
        }
    }
}

/// Model of a [`TransferResponse`].
pub struct TransferResponseView {
    pub accepted: bool,
    pub message: Option<Seq<char>>,
    pub token: Option<Seq<char>>,
}

/// Response to a transfer request.
#[derive(Debug)]
pub struct TransferResponse {
    /// Whether the transfer was accepted.
    pub accepted: bool,
    /// Optional message, such as a rejection reason.
    pub message: Option<String>,
    /// Token for the chunk uploads that follow, present exactly when accepted.
    pub token: Option<String>,
}

impl View for TransferResponse {
    type V = TransferResponseView;

    open spec fn view(&self) -> TransferResponseView {
        TransferResponseView {
            accepted: self.accepted,
            message: self.message.deep_view(),
            token: self.token.deep_view(),
        }
    }
}

impl Clone for TransferResponse {
    fn clone(&self) -> (r: Self)
        ensures
            r@ == self@,
    {
        TransferResponse {
            accepted: self.accepted,
            message: clone_opt_string(&self.message),
            token: clone_opt_string(&self.token),
        }
    }
}

impl TransferResponseView {
    /// A response carries a token exactly when it accepts.
    pub open spec fn well_formed(self) -> bool {
        self.accepted <==> self.token is Some
    }
}

/// Model of a [`TransferRecord`].
pub struct TransferRecordView {
    pub id: Seq<char>,
    pub direction: TransferDirection,
    pub status: TransferStatus,
    pub peer_address: Seq<char>,
    pub files: Seq<TransferFileView>,
    pub total_size: u64,
    pub bytes_transferred: u64,
    pub started_at: i64,
    pub completed_at: Option<i64>,
    pub error: Option<Seq<char>>,
}

/// A completed or failed transfer, as kept in the history.
#[derive(Debug)]
pub struct TransferRecord {
    /// Unique identifier.
    pub id: String,
    /// Direction of the transfer.
    pub direction: TransferDirection,
    /// Status of the transfer.
    pub status: TransferStatus,
    /// Peer address, IP or hostname.
    pub peer_address: String,
    /// Files transferred.
    pub files: Vec<TransferFile>,
    /// Total size of the transfer.
    pub total_size: u64,
    /// Bytes actually transferred.
    pub bytes_transferred: u64,
    /// When the transfer started, in milliseconds since the Unix epoch.
    pub started_at: i64,
    /// When the transfer completed or failed.
    pub completed_at: Option<i64>,
    /// Error message, if the transfer failed.
    pub error: Option<String>,
}

impl View for TransferRecord {
    type V = TransferRecordView;

    open spec fn view(&self) -> TransferRecordView {
        TransferRecordView {
            id: self.id@,
            direction: self.direction,
            status: self.status,
            peer_address: self.peer_address@,
            files: self.files.deep_view(),
            total_size: self.total_size,
            bytes_transferred: self.bytes_transferred,
            started_at: self.started_at,
            completed_at: self.completed_at,
            error: self.error.deep_view(),
        }
    }
}

impl DeepView for TransferRecord {
    type V = TransferRecordView;

    open spec fn deep_view(&self) -> TransferRecordView {
        self@
    }
}

impl Clone for TransferRecord {
    fn clone(&self) -> (r: Self)
        ensures
            r@ == self@,
    {
        TransferRecord {
            id: self.id.clone(),
            direction: self.direction,
            status: self.status,
            peer_address: self.peer_address.clone(),
            files: clone_files(&self.files),
            total_size: self.total_size,
            bytes_transferred: self.bytes_transferred,
            started_at: self.started_at,
            completed_at: self.completed_at,
            error: clone_opt_string(&self.error),
        }
    }
}

/// Model of a [`TransferProgress`].
pub struct TransferProgressView {
    pub transfer_id: Seq<char>,
    pub current_file: Option<Seq<char>>,
    pub bytes_transferred: u64,
    pub total_bytes: u64,
    pub speed_bps: u64,
}

/// Progress update for an ongoing transfer.
#[derive(Debug)]
pub struct TransferProgress {
    /// Transfer identifier.
    pub transfer_id: String,
    /// File currently being transferred.
    pub current_file: Option<String>,
    /// Bytes transferred so far.
    pub bytes_transferred: u64,
    /// Total bytes to transfer.
    pub total_bytes: u64,
    /// Transfer speed in bytes per second.
    pub speed_bps: u64,
}

impl View for TransferProgress {
    type V = TransferProgressView;

    open spec fn view(&self) -> TransferProgressView {
        TransferProgressView {
            transfer_id: self.transfer_id@,
            current_file: self.current_file.deep_view(),
            bytes_transferred: self.bytes_transferred,
            total_bytes: self.total_bytes,
            speed_bps: self.speed_bps,
        }
    }
}

impl Clone for TransferProgress {
    fn clone(&self) -> (r: Self)
        ensures
            r@ == self@,
    {
        TransferProgress {
            transfer_id: self.transfer_id.clone(),
            current_file: clone_opt_string(&self.current_file),
            bytes_transferred: self.bytes_transferred,
            total_bytes: self.total_bytes,
            speed_bps: self.speed_bps,
        }
    }
}

/// Model of a [`PendingTransfer`].
pub struct PendingTransferView {
    pub id: Seq<char>,
    pub source_ip: Seq<char>,
    pub sender_name: Option<Seq<char>>,
    pub files: Seq<TransferFileView>,
    pub total_size: u64,
    pub received_at: i64,
}

/// An incoming transfer that waits for the user's decision.
#[derive(Debug)]
pub struct PendingTransfer {
    /// Transfer identifier.
    pub id: String,
    /// Source IP address.
    pub source_ip: String,
    /// Optional sender name.
    pub sender_name: Option<String>,
    /// Files to be received.
    pub files: Vec<TransferFile>,
    /// Total size.
    pub total_size: u64,
    /// When the request was received, in milliseconds since the Unix epoch.
    pub received_at: i64,
}

impl View for PendingTransfer {
    type V = PendingTransferView;

    open spec fn view(&self) -> PendingTransferView {
        PendingTransferView {
            id: self.id@,
            source_ip: self.source_ip@,
            sender_name: self.sender_name.deep_view(),
            files: self.files.deep_view(),
            total_size: self.total_size,
            received_at: self.received_at,
        }
    }
}

impl DeepView for PendingTransfer {
    type V = PendingTransferView;

    open spec fn deep_view(&self) -> PendingTransferView {
        self@
    }
}

impl Clone for PendingTransfer {
    fn clone(&self) -> (r: Self)
        ensures
            r@ == self@,
    {
        PendingTransfer {
            id: self.id.clone(),
            source_ip: self.source_ip.clone(),
            sender_name: clone_opt_string(&self.sender_name),
            files: clone_files(&self.files),
            total_size: self.total_size,
            received_at: self.received_at,
        }
    }
}

/// Model of a [`NetworkInterface`].
pub struct NetworkInterfaceView {
    pub name: Seq<char>,
    pub ip: Seq<char>,
    pub is_loopback: bool,
}

/// One address of one network interface of this host.
#[derive(Debug)]
pub struct NetworkInterface {
    /// Interface name.
    pub name: String,
    /// IP address, as text.
    pub ip: String,
    /// Whether this is a loopback interface.
    pub is_loopback: bool,
}

impl View for NetworkInterface {
    type V = NetworkInterfaceView;

    open spec fn view(&self) -> NetworkInterfaceView {
        NetworkInterfaceView { name: self.name@, ip: self.ip@, is_loopback: self.is_loopback }
    }
}

impl DeepView for NetworkInterface {
    type V = NetworkInterfaceView;

    open spec fn deep_view(&self) -> NetworkInterfaceView {
        self@
    }
}

impl Clone for NetworkInterface {
    fn clone(&self) -> (r: Self)
        ensures
            r@ == self@,
    {
        NetworkInterface {
            name: self.name.clone(),
            ip: self.ip.clone(),
            is_loopback: self.is_loopback,
        }
    }
}

/// Model of a [`ResolveResult`].
pub struct ResolveResultView {
    pub hostname: Seq<char>,
    pub ips: Seq<Seq<char>>,
    pub success: bool,
    pub error: Option<Seq<char>>,
}

/// Outcome of resolving an address.
#[derive(Debug)]
pub struct ResolveResult {
    /// The address as it was given.
    pub hostname: String,
    /// Resolved IP addresses, in the order in which they are to be tried.
    pub ips: Vec<String>,
    /// Whether resolution was successful.
    pub success: bool,
    /// Error message if it was not.
    pub error: Option<String>,
}

impl View for ResolveResult {
    type V = ResolveResultView;

    open spec fn view(&self) -> ResolveResultView {
        ResolveResultView {
            hostname: self.hostname@,
            ips: self.ips.deep_view(),
            success: self.success,
            error: self.error.deep_view(),
        }
    }
}

impl Clone for ResolveResult {
    fn clone(&self) -> (r: Self)
        ensures
            r@ == self@,
    {
        ResolveResult {
            hostname: self.hostname.clone(),
            ips: clone_strings(&self.ips),
            success: self.success,
            error: clone_opt_string(&self.error),
        }
    }
}

/// Model of [`AppSettings`].
pub struct AppSettingsView {
    pub port: u16,
    pub device_name: Seq<char>,
    pub download_dir: Seq<char>,
    pub trusted_hosts: Seq<Seq<char>>,
    pub notifications_enabled: bool,
    pub receive_only: bool,
    pub theme: Seq<char>,
}

/// Application settings; the engine's configuration snapshot is taken from
/// them.
#[derive(Debug)]
pub struct AppSettings {
    /// Port of the HTTP server.
    pub port: u16,
    /// Device name shown to peers.
    pub device_name: String,
    /// Directory into which received files are written.
    pub download_dir: String,
    /// Hosts whose requests are accepted without asking.
    pub trusted_hosts: Vec<String>,
    /// Whether system notifications are shown.
    pub notifications_enabled: bool,
    /// Whether the send path is disabled.
    pub receive_only: bool,
    /// Colour theme of the user interface.
    pub theme: String,
}

impl View for AppSettings {
    type V = AppSettingsView;

    open spec fn view(&self) -> AppSettingsView {
        AppSettingsView {
            port: self.port,
            device_name: self.device_name@,
            download_dir: self.download_dir@,
            trusted_hosts: self.trusted_hosts.deep_view(),
            notifications_enabled: self.notifications_enabled,
            receive_only: self.receive_only,
            theme: self.theme@,
        }
    }
}

impl Clone for AppSettings {
    fn clone(&self) -> (r: Self)
        ensures
            r@ == self@,
    {
        AppSettings {
            port: self.port,
            device_name: self.device_name.clone(),
            download_dir: self.download_dir.clone(),
            trusted_hosts: clone_strings(&self.trusted_hosts),
            notifications_enabled: self.notifications_enabled,
            receive_only: self.receive_only,
            theme: self.theme.clone(),
        }
    }
}

/// Model of an [`AppError`].
pub enum AppErrorView {
    Network(Seq<char>),
    DnsResolution(Seq<char>),
    ConnectionRefused(Seq<char>),
    TransferRejected,
    FileIo(Seq<char>),
    Serialization(Seq<char>),
    ServerNotRunning,
    InvalidConfig(Seq<char>),
}

/// Errors of the application.
#[derive(Debug)]
pub enum AppError {
    Network(String),
    DnsResolution(String),
    ConnectionRefused(String),
    TransferRejected,
    FileIo(String),
    Serialization(String),
    ServerNotRunning,
    InvalidConfig(String),
}

impl View for AppError {
    type V = AppErrorView;

    open spec fn view(&self) -> AppErrorView {
        match self {
            AppError::Network(m) => AppErrorView::Network(m@),
            AppError::DnsResolution(m) => AppErrorView::DnsResolution(m@),
            AppError::ConnectionRefused(m) => AppErrorView::ConnectionRefused(m@),
            AppError::TransferRejected => AppErrorView::TransferRejected,
            AppError::FileIo(m) => AppErrorView::FileIo(m@),
            AppError::Serialization(m) => AppErrorView::Serialization(m@),
            AppError::ServerNotRunning => AppErrorView::ServerNotRunning,
            AppError::InvalidConfig(m) => AppErrorView::InvalidConfig(m@),
        }
    }
}

impl AppErrorView {
    /// The text shown for an error.
    pub open spec fn message(self) -> Seq<char> {
        match self {
            AppErrorView::Network(m) => "Network error: "@ + m,
            AppErrorView::DnsResolution(m) => "DNS resolution failed: "@ + m,
            AppErrorView::ConnectionRefused(m) => "Connection refused: "@ + m,
            AppErrorView::TransferRejected => "Transfer rejected by peer"@,
            AppErrorView::FileIo(m) => "File I/O error: "@ + m,
            AppErrorView::Serialization(m) => "Serialization error: "@ + m,
            AppErrorView::ServerNotRunning => "Server not running"@,
            AppErrorView::InvalidConfig(m) => "Invalid configuration: "@ + m,
        }
    }
}

impl AppError {
    /// The text shown for this error.
    pub fn message(&self) -> (r: String)
        ensures
            r@ == self@.message(),
    {
        match self {
            AppError::Network(m) => "Network error: ".to_string().concat(m.as_str()),
            AppError::DnsResolution(m) => "DNS resolution failed: ".to_string().concat(m.as_str()),
            AppError::ConnectionRefused(m) => "Connection refused: ".to_string().concat(
                m.as_str(),
            ),
            AppError::TransferRejected => "Transfer rejected by peer".to_string(),
            AppError::FileIo(m) => "File I/O error: ".to_string().concat(m.as_str()),
            AppError::Serialization(m) => "Serialization error: ".to_string().concat(m.as_str()),
            AppError::ServerNotRunning => "Server not running".to_string(),
            AppError::InvalidConfig(m) => "Invalid configuration: ".to_string().concat(
                m.as_str(),
            ),
        }
    }
}

impl Clone for AppError {
    fn clone(&self) -> (r: Self)
        ensures
            r@ == self@,
    {
        match self {
            AppError::Network(m) => AppError::Network(m.clone()),
            AppError::DnsResolution(m) => AppError::DnsResolution(m.clone()),
            AppError::ConnectionRefused(m) => AppError::ConnectionRefused(m.clone()),
            AppError::TransferRejected => AppError::TransferRejected,
            AppError::FileIo(m) => AppError::FileIo(m.clone()),
            AppError::Serialization(m) => AppError::Serialization(m.clone()),
            AppError::ServerNotRunning => AppError::ServerNotRunning,
            AppError::InvalidConfig(m) => AppError::InvalidConfig(m.clone()),
        }
    }
}

} // verus!
