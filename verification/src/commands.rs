//! The control surface of the application: one function for each command
//! of the user interface, over the application's state.

use crate::client::{
    describe_file, get_network_interfaces, peer_check, resolution, lookup_view,
    status_outcome_view, InfoOutcome, PeerInfo, RequestFailure, TransferClient,
};
use crate::events::{Notification, NotificationView, ServerEvent, ServerEventView};
use crate::favorites::{
    edited, favorite_not_found, first_favorite_with_id, has_favorite, FavoritesStore,
};
use crate::history::HistoryStore;
use crate::naming::safe_leaf;
use crate::platform::{guessed_mime, is_token_text, is_uuid_text};
use crate::registry::{tokens_of, ServerStateView};
use crate::send::{
    distinct_sends, is_sending, send_index, ActiveSendView, ActiveSends, SendSession,
};
use crate::request::transfer_not_found;
use crate::server::ServerState;
use crate::settings::{with_trusted_host, without_trusted_host, SettingsStore};
use crate::text::basename;
use crate::types::{
    AppError, AppErrorView, AppSettings, AppSettingsView, Favorite, FavoriteView,
    NetworkInterface, NetworkInterfaceView, PendingTransfer, ResolveResult, TransferFile,
    TransferFileView, TransferRecord, TransferRecordView,
};
use crate::validate::sum_sizes;
use vstd::prelude::*;
use vstd::string::*;

verus! {

/// The state of the application.
pub struct AppState {
    pub favorites: FavoritesStore,
    pub engine: ServerState,
    pub client: TransferClient,
    pub settings_store: SettingsStore,
    pub settings: AppSettings,
    pub history_store: HistoryStore,
    pub sends: ActiveSends,
}

/// Puts the application's state together from its three stores. The engine
/// starts with the stored settings, no transfers, and not listening.
pub fn init_app_state(
    settings_store: SettingsStore,
    favorites: FavoritesStore,
    history_store: HistoryStore,
) -> (r: AppState)
    ensures
        r.settings@ == settings_store@.settings,
        r.settings_store@ == settings_store@,
        r.favorites@ == favorites@,
        r.history_store@ == history_store@,
        r.engine@.wf(),
        r.engine@ == (ServerStateView {
            settings: settings_store@.settings,
            pending: Seq::empty(),
            approved: Seq::empty(),
            rejected: Seq::empty(),
            reserved: Seq::empty(),
            running: false,
        }),
        r.client@.receive_only == settings_store@.settings.receive_only,
        r.client@.sender_name == Some(settings_store@.settings.device_name),
        r.sends@ == Seq::<ActiveSendView>::empty(),
        distinct_sends(r.sends@),
{
    let settings = settings_store.get();
    let engine = ServerState::new(settings.clone());
    let client = TransferClient::new(&settings);
    let sends = ActiveSends::new();
    AppState { favorites, engine, client, settings_store, settings, history_store, sends }
}

/// What is handed to the user interface for one event of the engine.
#[derive(Debug)]
pub struct Forwarded {
    /// The name under which the event is emitted.
    pub event_name: String,
    /// The value of the `type` field of the payload.
    pub type_tag: String,
    /// The notification to show, if any.
    pub notification: Option<Notification>,
}

/// Model of a [`Forwarded`].
pub struct ForwardedView {
    pub event_name: Seq<char>,
    pub type_tag: Seq<char>,
    pub notification: Option<NotificationView>,
}

impl View for Forwarded {
    type V = ForwardedView;

    open spec fn view(&self) -> ForwardedView {
        ForwardedView {
            event_name: self.event_name@,
            type_tag: self.type_tag@,
            notification: self.notification.deep_view(),
        }
    }
}

/// Decides how one event of the engine reaches the user: under which name
/// it is emitted, and whether a notification goes with it.
pub fn forward_event(state: &AppState, event: &ServerEvent) -> (r: Forwarded)
    ensures
        r@ == (ForwardedView {
            event_name: event@.event_name(),
            type_tag: event@.type_tag(),
            notification: event@.notification(state.settings@.notifications_enabled),
        }),
{
    Forwarded {
        event_name: event.event_name().to_owned(),
        type_tag: event.type_tag().to_owned(),
        notification: event.notification(state.settings.notifications_enabled),
    }
}

/// The text of an error, as commands report it.
pub open spec fn reported(e: AppErrorView) -> Seq<char> {
    e.message()
}

fn report<T>(r: Result<T, AppError>) -> (out: Result<T, String>)
    ensures
        match r {
            Ok(v) => out == Ok::<T, String>(v),
            Err(e) => out matches Err(text) && text@ == reported(e@),
        },
{
    match r {
        Ok(v) => Ok(v),
        Err(e) => Err(e.message()),
    }
}

/// Lists all saved favorites.
pub fn list_favorites(state: &AppState) -> (r: Result<Vec<Favorite>, String>)
    ensures
        r matches Ok(list) && list.deep_view() == state.favorites@.favorites,
{
    Ok(state.favorites.list())
}

/// Adds a new favorite.
pub fn add_favorite(state: &mut AppState, name: String, address: String) -> (r: Result<
    Favorite,
    String,
>)
    ensures
        r matches Ok(f) && is_uuid_text(f@.id) && f@ == Favorite::spec_new(f@.id, name@, address@)
            && final(state).favorites@.favorites == old(state).favorites@.favorites.push(f@),
        final(state).favorites@.file_path == old(state).favorites@.file_path,
        final(state).engine == old(state).engine,
        final(state).settings == old(state).settings,
{
    Ok(state.favorites.add(name, address))
}

/// Edits the name and the address of a favorite.
pub fn update_favorite(
    state: &mut AppState,
    id: &str,
    name: Option<String>,
    address: Option<String>,
) -> (r: Result<Favorite, String>)
    ensures
        final(state).engine == old(state).engine,
        final(state).settings == old(state).settings,
        match r {
            Ok(f) => exists|i: int, now: i64|
                now >= 0 && first_favorite_with_id(old(state).favorites@.favorites, id@, i) && f@
                    == edited(
                    old(state).favorites@.favorites[i],
                    name.deep_view(),
                    address.deep_view(),
                    None,
                    now,
                ) && final(state).favorites@.favorites == old(state).favorites@.favorites.update(
                    i,
                    f@,
                ),
            Err(text) => !has_favorite(old(state).favorites@.favorites, id@) && text@ == reported(
                favorite_not_found(id@),
            ) && final(state).favorites@ == old(state).favorites@,
        },
{
    let none: Option<String> = None;
    report(state.favorites.update(id, name, address, none))
}

/// Deletes a favorite.
pub fn delete_favorite(state: &mut AppState, id: &str) -> (r: Result<(), String>)
    ensures
        final(state).engine == old(state).engine,
        final(state).settings == old(state).settings,
        final(state).favorites@.favorites == old(state).favorites@.favorites.filter(
            |f: FavoriteView| f.id != id@,
        ),
        match r {
            Ok(_) => has_favorite(old(state).favorites@.favorites, id@),
            Err(text) => !has_favorite(old(state).favorites@.favorites, id@) && text@ == reported(
                favorite_not_found(id@),
            ),
        },
{
    report(state.favorites.delete(id))
}

/// Says what resolving `address` came to.
pub fn resolve_hostname(address: &str, literal: Option<String>, looked_up: Result<
    Vec<String>,
    String,
>) -> (r: Result<ResolveResult, String>)
    ensures
        r matches Ok(result) && result@ == resolution(
            address@,
            literal.deep_view(),
            lookup_view(looked_up),
        ),
{
    Ok(TransferClient::resolve_address(address, literal, looked_up))
}

/// Lists the network interfaces of this host.
pub fn get_interfaces() -> (r: Result<Vec<NetworkInterface>, String>)
    ensures
        r is Ok,
{
    Ok(get_network_interfaces())
}

/// Says whether a peer is reachable, given the outcome of a probe.
pub fn check_peer(address: &str, port: u16, outcome: Result<u16, RequestFailure>) -> (r: Result<
    bool,
    String,
>)
    ensures
        match peer_check(address@, port, status_outcome_view(outcome)) {
            Ok(b) => r == Ok::<bool, String>(b),
            Err(e) => r matches Err(text) && text@ == reported(e),
        },
{
    report(TransferClient::check_peer(address, port, outcome))
}

/// Says what a peer told about itself.
pub fn get_peer_info(outcome: InfoOutcome) -> (r: Result<PeerInfo, String>)
    ensures
        match outcome {
            InfoOutcome::Info(info) => r matches Ok(i) && i@ == info@,
            InfoOutcome::SendFailed(e) => r matches Err(text) && text@ == reported(
                AppErrorView::Network("Failed to get peer info: "@ + e@),
            ),
            InfoOutcome::ParseFailed(e) => r matches Err(text) && text@ == reported(
                AppErrorView::Serialization("Failed to parse peer info: "@ + e@),
            ),
        },
{
    match TransferClient::get_peer_info(outcome) {
        Ok(info) => Ok(info),
        Err(e) => Err(e.message()),
    }
}

/// The sum of some sizes.
pub open spec fn sum_of(sizes: Seq<u64>) -> nat
    decreases sizes.len(),
{
    if sizes.len() == 0 {
        0
    } else {
        sum_of(sizes.drop_last()) + sizes.last() as nat
    }
}

/// Whether `file` describes the file at `path` with `size` bytes: it bears
/// the last component of the path as its name, a UUID as its identifier,
/// and the media type guessed from its name.
pub open spec fn describes(file: TransferFileView, path: Seq<char>, size: u64) -> bool {
    &&& file.name == basename(path)
    &&& file.size == size
    &&& file.mime_type == guessed_mime(file.name)
    &&& is_uuid_text(file.id)
}

/// What is known of the size of a file: the size, or the text of the error
/// that asking for it gave.
pub open spec fn stat_view(stat: Result<u64, String>) -> Result<u64, Seq<char>> {
    match stat {
        Ok(size) => Ok(size),
        Err(e) => Err(e@),
    }
}

/// The size of a file as far as it is known: 0 where asking for it gave an
/// error.
pub open spec fn known_size(stat: Result<u64, String>) -> u64 {
    match stat {
        Ok(size) => size,
        Err(_) => 0,
    }
}

/// The sizes of some files as far as they are known.
pub open spec fn known_sizes(stats: Seq<Result<u64, String>>) -> Seq<u64> {
    stats.map_values(|stat: Result<u64, String>| known_size(stat))
}

/// Why the file at `path` cannot be sent, or `None` where it can: its size
/// could not be had, or the path has no file name.
pub open spec fn file_problem(path: Seq<char>, stat: Result<u64, Seq<char>>) -> Option<
    AppErrorView,
> {
    match stat {
        Err(e) => Some(AppErrorView::FileIo("Failed to get file info: "@ + e)),
        Ok(_) => if safe_leaf(basename(path)) {
            None
        } else {
            Some(AppErrorView::FileIo("Invalid file path"@))
        },
    }
}

/// Whether the file at place `i` is the first that cannot be sent.
pub open spec fn first_problem(paths: Seq<Seq<char>>, stats: Seq<Result<u64, String>>, i: int) -> bool {
    &&& 0 <= i < paths.len()
    &&& file_problem(paths[i], stat_view(stats[i])) is Some
    &&& forall|j: int| 0 <= j < i ==> file_problem(paths[j], stat_view(stats[j])) is None
}

/// Starts a transfer of the files at `paths` to `address:port`; `stats`
/// holds for each path the size of the file, or the text of the error that
/// asking for it gave. In receive-only mode nothing is started and nothing
/// is described. Where one file cannot be sent, none is: the first such
/// file gives the error.
pub fn send_files(
    state: &AppState,
    address: &str,
    port: u16,
    paths: Vec<String>,
    stats: Vec<Result<u64, String>>,
) -> (r: Result<SendSession, String>)
    ensures
        match r {
            Ok(session) => {
                &&& !state.client@.receive_only
                &&& paths.len() == stats.len()
                &&& sum_of(known_sizes(stats@)) <= u64::MAX
                &&& session@.wf()
                &&& is_uuid_text(session@.transfer_id)
                &&& session@ == crate::send::fresh_session(
                    session@.transfer_id,
                    address@,
                    port,
                    session@.files,
                    paths.deep_view(),
                    state.client@.sender_name,
                )
                &&& session@.files.len() == paths.len()
                &&& forall|i: int|
                    0 <= i < paths.len() ==> (#[trigger] stats[i]) is Ok && safe_leaf(
                        basename(paths.deep_view()[i]),
                    ) && describes(session@.files[i], paths.deep_view()[i], known_size(stats[i]))
            },
            Err(text) => if state.client@.receive_only {
                text@ == reported(crate::client::receive_only_error())
            } else if paths.len() != stats.len() {
                text@ == "One size is needed for each path"@
            } else if exists|i: int| first_problem(paths.deep_view(), stats@, i) {
                exists|i: int|
                    first_problem(paths.deep_view(), stats@, i) && text@ == reported(
                        file_problem(paths.deep_view()[i], stat_view(stats[i]))->0,
                    )
            } else {
                sum_of(known_sizes(stats@)) > u64::MAX && text@ == reported(
                    AppErrorView::InvalidConfig("Total size of the files is too large"@),
                )
            },
        },
{
    if state.client.is_receive_only() {
        return Err(
            AppError::InvalidConfig(
                "Sending is disabled in receive-only mode".to_string(),
            ).message(),
        );
    }
    if paths.len() != stats.len() {
        return Err("One size is needed for each path".to_string());
    }
    let ghost sizes = known_sizes(stats@);
    let mut files: Vec<TransferFile> = Vec::new();
    let mut i: usize = 0;
    assert(sizes.take(0) =~= Seq::<u64>::empty());
    while i < paths.len()
        invariant
            i <= paths.len(),
            paths.len() == stats.len(),
            sizes == known_sizes(stats@),
            !state.client@.receive_only,
            files.len() == i,
            forall|j: int|
                0 <= j < i ==> (#[trigger] stats[j]) is Ok && describes(
                    files.deep_view()[j],
                    paths.deep_view()[j],
                    known_size(stats[j]),
                ),
            forall|j: int|
                0 <= j < i ==> file_problem(
                    #[trigger] paths.deep_view()[j],
                    stat_view(stats[j]),
                ) is None,
            sum_sizes(files.deep_view()) == sum_of(sizes.take(i as int)),
        decreases paths.len() - i,
    {
        assert(paths.deep_view()[i as int] == paths[i as int]@);
        let described = match &stats[i] {
            Ok(size) => describe_file(paths[i].as_str(), *size),
            Err(e) => Err(
                AppError::FileIo("Failed to get file info: ".to_string().concat(e.as_str())),
            ),
        };
        match described {
            Ok(file) => {
                let ghost so_far = files.deep_view();
                let ghost added = file@;
                files.push(file);
                proof {
                    assert(files.deep_view() =~= so_far.push(added));
                    assert(files.deep_view().drop_last() =~= so_far);
                    assert(sizes.take(i as int + 1).drop_last() =~= sizes.take(i as int));
                    assert(sizes.take(i as int + 1).last() == known_size(stats[i as int]));
                }
            },
            Err(e) => {
                assert(first_problem(paths.deep_view(), stats@, i as int));
                assert(e@ == file_problem(
                    paths.deep_view()[i as int],
                    stat_view(stats[i as int]),
                )->0);
                return Err(e.message());
            },
        }
        i = i + 1;
    }
    proof {
        assert(sizes.take(i as int) =~= sizes);
        if exists|k: int| first_problem(paths.deep_view(), stats@, k) {
            let k = choose|k: int| first_problem(paths.deep_view(), stats@, k);
            assert(file_problem(paths.deep_view()[k], stat_view(stats[k])) is None);
        }
        assert forall|j: int| 0 <= j < paths.len() implies safe_leaf(
            basename(paths.deep_view()[j]),
        ) by {
            assert(file_problem(paths.deep_view()[j], stat_view(stats[j])) is None);
        }
    }
    report(state.client.send_files(address, port, files, paths))
}

/// Accepts a pending transfer and returns its token.
pub fn accept_transfer(state: &mut AppState, transfer_id: &str) -> (r: Result<String, String>)
    requires
        old(state).engine@.wf(),
    ensures
        final(state).engine@.wf(),
        final(state).favorites == old(state).favorites,
        final(state).settings == old(state).settings,
        match r {
            Ok(token) => old(state).engine@.is_pending(transfer_id@) && is_token_text(token@)
                && exists|now: i64|
                now >= 0 && final(state).engine@ == old(state).engine@.accepted(
                    transfer_id@,
                    token@,
                    now,
                ),
            Err(text) => !old(state).engine@.is_pending(transfer_id@) && text@ == reported(
                transfer_not_found(transfer_id@),
            ) && final(state).engine@ == old(state).engine@,
        },
{
    report(state.engine.accept_transfer(transfer_id))
}

/// Rejects a pending transfer and returns the event to emit.
pub fn reject_transfer(state: &mut AppState, transfer_id: &str) -> (r: Result<ServerEvent, String>)
    requires
        old(state).engine@.wf(),
    ensures
        final(state).engine@.wf(),
        final(state).favorites == old(state).favorites,
        final(state).settings == old(state).settings,
        match r {
            Ok(event) => old(state).engine@.is_pending(transfer_id@) && final(state).engine@
                == old(state).engine@.turned_down(transfer_id@, "rejected"@) && event@
                == (ServerEventView::TransferFailed {
                transfer_id: transfer_id@,
                error: "rejected"@,
            }),
            Err(text) => !old(state).engine@.is_pending(transfer_id@) && text@ == reported(
                transfer_not_found(transfer_id@),
            ) && final(state).engine@ == old(state).engine@,
        },
{
    report(state.engine.reject_transfer(transfer_id))
}

/// Flags a transfer for abort: an incoming one that is approved, or else an
/// outgoing one that is under way.
pub fn cancel_transfer(state: &mut AppState, transfer_id: &str) -> (r: Result<(), String>)
    requires
        old(state).engine@.wf(),
        distinct_sends(old(state).sends@),
    ensures
        final(state).engine@.wf(),
        distinct_sends(final(state).sends@),
        final(state).favorites == old(state).favorites,
        final(state).settings == old(state).settings,
        match r {
            Ok(_) => if old(state).engine@.is_approved(transfer_id@) {
                final(state).engine@ == old(state).engine@.cancelled(
                    old(state).engine@.approved_index(transfer_id@),
                ) && final(state).sends@ == old(state).sends@
            } else {
                is_sending(old(state).sends@, transfer_id@) && final(state).sends@ == old(
                    state,
                ).sends@.update(
                    send_index(old(state).sends@, transfer_id@),
                    ActiveSendView { transfer_id: transfer_id@, cancelled: true },
                ) && final(state).engine@ == old(state).engine@
            },
            Err(text) => !old(state).engine@.is_approved(transfer_id@) && !is_sending(
                old(state).sends@,
                transfer_id@,
            ) && text@ == reported(transfer_not_found(transfer_id@)) && final(state).engine@
                == old(state).engine@ && final(state).sends@ == old(state).sends@,
        },
{
    match state.engine.cancel_transfer(transfer_id) {
        Ok(()) => Ok(()),
        Err(_) => report(state.sends.cancel(transfer_id)),
    }
}

/// Accepts every transfer that is pending, and returns each identifier with
/// its token.
pub fn accept_all_transfers(state: &mut AppState) -> (r: Result<Vec<(String, String)>, String>)
    requires
        old(state).engine@.wf(),
    ensures
        final(state).engine@.wf(),
        final(state).favorites == old(state).favorites,
        final(state).settings == old(state).settings,
        r is Ok,
        r->Ok_0.len() == old(state).engine@.pending.len(),
        forall|k: int|
            0 <= k < r->Ok_0.len() ==> (#[trigger] r->Ok_0.deep_view()[k]).0 == old(
                state,
            ).engine@.pending[k].id && is_token_text(r->Ok_0.deep_view()[k].1),
        exists|now: i64|
            now >= 0 && final(state).engine@ == old(state).engine@.all_accepted(
                tokens_of(r->Ok_0.deep_view()),
                now,
            ),
{
    let ghost before = state.engine@;
    let pairs = state.engine.accept_all();
    let ghost tokens = tokens_of(pairs.deep_view());
    let r: Result<Vec<(String, String)>, String> = Ok(pairs);
    proof {
        let now = choose|now: i64| now >= 0 && state.engine@ == before.all_accepted(tokens, now);
        assert(now >= 0 && state.engine@ == before.all_accepted(
            tokens_of(r->Ok_0.deep_view()),
            now,
        ));
    }
    r
}

/// Rejects every transfer that is pending, and returns the events to emit.
pub fn reject_all_transfers(state: &mut AppState) -> (r: Result<Vec<ServerEvent>, String>)
    requires
        old(state).engine@.wf(),
    ensures
        final(state).engine@.wf(),
        final(state).favorites == old(state).favorites,
        final(state).settings == old(state).settings,
        final(state).engine@ == old(state).engine@.all_turned_down(),
        r matches Ok(events) && events.deep_view() == Seq::new(
            old(state).engine@.pending.len(),
            |k: int|
                ServerEventView::TransferFailed {
                    transfer_id: old(state).engine@.pending[k].id,
                    error: "rejected"@,
                },
        ),
{
    Ok(state.engine.reject_all())
}

/// Lists the transfers that wait for approval.
pub fn get_pending_transfers(state: &AppState) -> (r: Result<Vec<PendingTransfer>, String>)
    ensures
        r matches Ok(list) && list.deep_view() == state.engine@.pending,
{
    Ok(state.engine.list_pending())
}

/// Lists the transfer history.
pub fn get_transfer_history(state: &AppState) -> (r: Result<Vec<TransferRecord>, String>)
    ensures
        r matches Ok(list) && list.deep_view() == state.history_store@.records,
{
    Ok(state.history_store.list())
}

/// Clears the transfer history.
pub fn clear_transfer_history(state: &mut AppState) -> (r: Result<(), String>)
    ensures
        r is Ok,
        final(state).history_store@.records == Seq::<TransferRecordView>::empty(),
        final(state).history_store@.file_path == old(state).history_store@.file_path,
        final(state).engine == old(state).engine,
        final(state).settings == old(state).settings,
{
    state.history_store.clear();
    Ok(())
}

/// The settings in force.
pub fn get_settings(state: &AppState) -> (r: Result<AppSettings, String>)
    ensures
        r matches Ok(s) && s@ == state.settings@,
{
    Ok(state.settings.clone())
}

/// Puts new settings in force everywhere: in the store, in the state, in
/// the engine and in the sending side. The result is the event to emit
/// once the listener has moved, where the port changed while the server
/// listens.
pub fn update_settings(state: &mut AppState, new_settings: AppSettings) -> (r: Result<
    Option<ServerEvent>,
    String,
>)
    ensures
        final(state).settings@ == new_settings@,
        final(state).settings_store@.settings == new_settings@,
        final(state).settings_store@.file_path == old(state).settings_store@.file_path,
        final(state).engine@ == (ServerStateView { settings: new_settings@, ..old(state).engine@ }),
        old(state).engine@.wf() ==> final(state).engine@.wf(),
        final(state).client@.receive_only == new_settings@.receive_only,
        final(state).client@.sender_name == Some(new_settings@.device_name),
        r matches Ok(event) && event.deep_view() == if old(state).engine@.running && old(
            state,
        ).engine@.settings.port != new_settings@.port {
            Some(
                ServerEventView::PortChanged {
                    old_port: old(state).engine@.settings.port,
                    new_port: new_settings@.port,
                },
            )
        } else {
            None
        },
{
    state.settings_store.update(new_settings.clone());
    state.client = TransferClient::new(&new_settings);
    let event = state.engine.update_config(new_settings.clone());
    state.settings = new_settings;
    Ok(event)
}

/// Adds a trusted host, in the settings and in the engine.
pub fn add_trusted_host(state: &mut AppState, host: String) -> (r: Result<(), String>)
    ensures
        r is Ok,
        final(state).settings@ == (AppSettingsView {
            trusted_hosts: with_trusted_host(old(state).settings@.trusted_hosts, host@),
            ..old(state).settings@
        }),
        final(state).engine@ == (ServerStateView {
            settings: AppSettingsView {
                trusted_hosts: with_trusted_host(
                    old(state).engine@.settings.trusted_hosts,
                    host@,
                ),
                ..old(state).engine@.settings
            },
            ..old(state).engine@
        }),
        old(state).engine@.wf() ==> final(state).engine@.wf(),
{
    state.settings.add_trusted_host(host.clone());
    state.engine.add_trusted_host(host);
    Ok(())
}

/// Removes a trusted host, from the settings and from the engine.
pub fn remove_trusted_host(state: &mut AppState, host: &str) -> (r: Result<(), String>)
    ensures
        r is Ok,
        final(state).settings@ == (AppSettingsView {
            trusted_hosts: without_trusted_host(old(state).settings@.trusted_hosts, host@),
            ..old(state).settings@
        }),
        final(state).engine@ == (ServerStateView {
            settings: AppSettingsView {
                trusted_hosts: without_trusted_host(
                    old(state).engine@.settings.trusted_hosts,
                    host@,
                ),
                ..old(state).engine@.settings
            },
            ..old(state).engine@
        }),
        old(state).engine@.wf() ==> final(state).engine@.wf(),
{
    state.settings.remove_trusted_host(host);
    state.engine.remove_trusted_host(host);
    Ok(())
}

/// Model of a [`ServerStatus`].
pub struct ServerStatusView {
    pub running: bool,
    pub port: u16,
    pub interfaces: Seq<NetworkInterfaceView>,
    pub device_name: Seq<char>,
}

/// What the user interface shows of the server.
#[derive(Debug)]
pub struct ServerStatus {
    pub running: bool,
    pub port: u16,
    pub interfaces: Vec<NetworkInterface>,
    pub device_name: String,
}

impl View for ServerStatus {
    type V = ServerStatusView;

    open spec fn view(&self) -> ServerStatusView {
        ServerStatusView {
            running: self.running,
            port: self.port,
            interfaces: self.interfaces.deep_view(),
            device_name: self.device_name@,
        }
    }
}

/// The status of the server, with the given network interfaces of the
/// host.
pub fn server_status_with(state: &AppState, interfaces: Vec<NetworkInterface>) -> (r: ServerStatus)
    ensures
        r@ == (ServerStatusView {
            running: state.engine@.running,
            port: state.settings@.port,
            interfaces: interfaces.deep_view(),
            device_name: state.settings@.device_name,
        }),
{
    ServerStatus {
        running: state.engine.is_running(),
        port: state.settings.port,
        interfaces,
        device_name: state.settings.device_name.clone(),
    }
}

/// The status of the server.
pub fn get_server_status(state: &AppState) -> (r: Result<ServerStatus, String>)
    ensures
        r matches Ok(status) && status@.running == state.engine@.running && status@.port
            == state.settings@.port && status@.device_name == state.settings@.device_name,
{
    Ok(server_status_with(state, get_network_interfaces()))
}

} // verus!
