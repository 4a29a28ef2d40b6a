//! Application settings: their defaults, and the store that holds the
//! current ones.

use crate::platform::{config_dir_of, system_hostname};
use crate::text::contains_text;
use crate::types::{clone_strings, AppError, AppErrorView, AppSettings, AppSettingsView};
use vstd::prelude::*;

verus! {

/// The port on which a peer listens unless told otherwise.
pub const DEFAULT_PORT: u16 = 53317;

/// The settings of a fresh installation on a host with the given download
/// directory and name, where either may be unknown.
pub open spec fn default_settings(
    download_dir: Option<Seq<char>>,
    hostname: Option<Seq<char>>,
) -> AppSettingsView {
    AppSettingsView {
        port: DEFAULT_PORT,
        device_name: match hostname {
            Some(h) => h,
            None => "Gosh Device"@,
        },
        download_dir: match download_dir {
            Some(d) => d,
            None => "."@,
        },
        trusted_hosts: Seq::empty(),
        notifications_enabled: true,
        receive_only: false,
        theme: "system"@,
    }
}

/// Builds the default settings from what the host reported.
pub fn default_settings_from(download_dir: Option<String>, hostname: Option<String>) -> (r:
    AppSettings)
    ensures
        r@ == default_settings(download_dir.deep_view(), hostname.deep_view()),
{
    let device_name = match hostname {
        Some(h) => h,
        None => "Gosh Device".to_string(),
    };
    let dir = match download_dir {
        Some(d) => d,
        None => ".".to_string(),
    };
    let trusted_hosts: Vec<String> = Vec::new();
    assert(trusted_hosts.deep_view() =~= Seq::<Seq<char>>::empty());
    AppSettings {
        port: DEFAULT_PORT,
        device_name,
        download_dir: dir,
        trusted_hosts,
        notifications_enabled: true,
        receive_only: false,
        theme: "system".to_string(),
    }
}

/// The default settings on this host for a user whose download directory
/// is `download_dir`, where it is known: the host's own name where it can
/// be found, the fixed fallback where not.
pub fn default_settings_for(download_dir: Option<String>) -> (r: AppSettings)
    ensures
        exists|h: Option<Seq<char>>| r@ == default_settings(download_dir.deep_view(), h),
{
    let host = system_hostname();
    default_settings_from(download_dir, host)
}

impl Default for AppSettings {
    /// The default settings on this host while the user's download
    /// directory is not known: files go to the current directory until the
    /// application names another.
    fn default() -> (r: Self)
        ensures
            exists|h: Option<Seq<char>>| r@ == default_settings(None, h),
    {
        default_settings_for(None)
    }
}

/// The directory that holds the application's files, as the platform gave
/// it, or the error for a platform that gave none.
pub fn config_dir_from(dir: Option<String>) -> (r: Result<String, AppError>)
    ensures
        match dir {
            Some(d) => r matches Ok(p) && p@ == d@,
            None => r matches Err(e) && e@ == AppErrorView::FileIo(
                "Could not determine config directory"@,
            ),
        },
{
    match dir {
        Some(d) => Ok(d),
        None => Err(AppError::FileIo("Could not determine config directory".to_string())),
    }
}

/// The directory that holds the settings, favorites and history files.
pub fn config_dir() -> (r: Result<String, AppError>)
    ensures
        r matches Err(e) ==> e@ == AppErrorView::FileIo("Could not determine config directory"@),
{
    let dir = match directories::ProjectDirs::from("com", "gosh", "transfer") {
        Some(dirs) => Some(config_dir_of(&dirs)),
        None => None,
    };
    config_dir_from(dir)
}

/// Model of a [`SettingsStore`].
pub struct SettingsStoreView {
    pub settings: AppSettingsView,
    pub file_path: Seq<char>,
}

/// The current settings, and the file they are kept in.
pub struct SettingsStore {
    settings: AppSettings,
    file_path: String,
}

impl View for SettingsStore {
    type V = SettingsStoreView;

    closed spec fn view(&self) -> SettingsStoreView {
        SettingsStoreView { settings: self.settings@, file_path: self.file_path@ }
    }
}

impl SettingsStore {
    /// A store for the file at `file_path`, holding what was loaded from it,
    /// or the defaults where nothing usable was.
    pub fn new(file_path: String, loaded: Option<AppSettings>) -> (r: Self)
        ensures
            r@.file_path == file_path@,
            match loaded {
                Some(s) => r@.settings == s@,
                None => exists|h: Option<Seq<char>>| r@.settings == default_settings(None, h),
            },
    {
        let settings = match loaded {
            Some(s) => s,
            None => AppSettings::default(),
        };
        SettingsStore { settings, file_path }
    }

    /// The current settings.
    pub fn get(&self) -> (r: AppSettings)
        ensures
            r@ == self@.settings,
    {
        self.settings.clone()
    }

    /// The file in which the settings are kept.
    pub fn file_path(&self) -> (r: String)
        ensures
            r@ == self@.file_path,
    {
        self.file_path.clone()
    }

    /// Replaces the settings as a whole.
    pub fn update(&mut self, new_settings: AppSettings)
        ensures
            final(self)@.settings == new_settings@,
            final(self)@.file_path == old(self)@.file_path,
    {
        self.settings = new_settings;
    }
}

/// The hosts trusted after `host` was added: unchanged where it was among
/// them, with `host` at the end where it was not.
pub open spec fn with_trusted_host(hosts: Seq<Seq<char>>, host: Seq<char>) -> Seq<Seq<char>> {
    if hosts.contains(host) {
        hosts
    } else {
        hosts.push(host)
    }
}

/// The hosts trusted after `host` was removed: those that differ from it,
/// in their order.
pub open spec fn without_trusted_host(hosts: Seq<Seq<char>>, host: Seq<char>) -> Seq<Seq<char>> {
    hosts.filter(|h: Seq<char>| h != host)
}

impl AppSettings {
    /// Adds a host to the trusted hosts, unless it is one already.
    pub fn add_trusted_host(&mut self, host: String)
        ensures
            final(self)@ == (AppSettingsView {
                trusted_hosts: with_trusted_host(old(self)@.trusted_hosts, host@),
                ..old(self)@
            }),
    {
        if !contains_text(&self.trusted_hosts, host.as_str()) {
            let ghost before = self.trusted_hosts.deep_view();
            self.trusted_hosts.push(host);
            assert(self.trusted_hosts.deep_view() =~= before.push(host@));
        }
    }

    /// Removes a host from the trusted hosts, wherever it occurs.
    pub fn remove_trusted_host(&mut self, host: &str)
        ensures
            final(self)@ == (AppSettingsView {
                trusted_hosts: without_trusted_host(old(self)@.trusted_hosts, host@),
                ..old(self)@
            }),
    {
        let ghost keep = |h: Seq<char>| h != host@;
        let ghost before = self.trusted_hosts.deep_view();
        let mut kept: Vec<String> = Vec::new();
        let mut i: usize = 0;
        while i < self.trusted_hosts.len()
            invariant
                i <= self.trusted_hosts.len(),
                self.trusted_hosts.deep_view() == before,
                keep == |h: Seq<char>| h != host@,
                kept.deep_view() == before.take(i as int).filter(keep),
            decreases self.trusted_hosts.len() - i,
        {
            proof {
                let t = before.take(i as int + 1);
                assert(t.drop_last() =~= before.take(i as int));
                assert(t.last() == self.trusted_hosts[i as int]@);
                reveal(Seq::filter);
            }
            if !crate::text::text_eq(self.trusted_hosts[i].as_str(), host) {
                let ghost so_far = kept.deep_view();
                kept.push(self.trusted_hosts[i].clone());
                assert(kept.deep_view() =~= so_far.push(self.trusted_hosts[i as int]@));
            }
            i = i + 1;
        }
        assert(before.take(i as int) =~= before);
        self.trusted_hosts = kept;
    }

    /// Whether `ip` is one of the trusted hosts.
    pub fn is_trusted(&self, ip: &str) -> (r: bool)
        ensures
            r == self@.trusted_hosts.contains(ip@),
    {
        contains_text(&self.trusted_hosts, ip)
    }

    /// A copy of the trusted hosts.
    pub fn trusted_hosts(&self) -> (r: Vec<String>)
        ensures
            r.deep_view() == self@.trusted_hosts,
    {
        clone_strings(&self.trusted_hosts)
    }
}

} // verus!
