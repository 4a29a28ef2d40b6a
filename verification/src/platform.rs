//! What the engine takes from the machine it runs on and from other crates:
//! fresh identifiers, the clock, the host's name, the application's
//! configuration directory, the network interfaces, and the MIME table. Nothing in this file is proved; each
//! contract states what the called function is documented to do.

use crate::text::separator_free;
use vstd::prelude::*;

verus! {

/// Whether a character is one of `0`-`9` or `a`-`f`.
pub open spec fn is_lower_hex(c: char) -> bool {
    ('0' <= c && c <= '9') || ('a' <= c && c <= 'f')
}

/// The shape of a UUID in its hyphenated lower-case form: 36 characters,
/// hyphens at 8, 13, 18 and 23, hexadecimal digits elsewhere.
pub open spec fn is_uuid_text(s: Seq<char>) -> bool {
    &&& s.len() == 36
    &&& forall|i: int|
        0 <= i < 36 ==> if i == 8 || i == 13 || i == 18 || i == 23 {
            #[trigger] s[i] == '-'
        } else {
            is_lower_hex(s[i])
        }
}

/// The shape of an approval token: two UUIDs in their hyphenated lower-case
/// form, one behind the other.
pub open spec fn is_token_text(s: Seq<char>) -> bool {
    &&& s.len() == 72
    &&& is_uuid_text(s.take(36))
    &&& is_uuid_text(s.skip(36))
}

/// `uuid::Uuid::new_v4`, written out with `to_string`: a random UUID. Only
/// its shape is claimed; which UUID comes back is left open.
#[verifier::external_body]
pub(crate) fn new_uuid_text() -> (r: String)
    ensures
        is_uuid_text(r@),
{
    uuid::Uuid::new_v4().to_string()
}

/// `chrono::Utc::now`, as `timestamp_millis`: the milliseconds since the Unix
/// epoch. `now` does not return for a clock set before the epoch, so what
/// comes back is not negative.
#[verifier::external_body]
pub(crate) fn now_millis() -> (r: i64)
    ensures
        r >= 0,
{
    chrono::Utc::now().timestamp_millis()
}

/// What `mime_guess` holds for a file name: the first media type listed for
/// the name's extension, or nothing.
pub uninterp spec fn guessed_mime(name: Seq<char>) -> Option<Seq<char>>;

/// `mime_guess::from_path(..).first()`, written out with `to_string`. The
/// guess is looked up in a table compiled into that crate, by the
/// extension of the name alone; no file is touched. It is asked of bare
/// file names only, so that no directory part takes a share in it.
#[verifier::external_body]
pub(crate) fn guess_mime(name: &str) -> (r: Option<String>)
    requires
        separator_free(name@),
    ensures
        r.deep_view() == guessed_mime(name@),
{
    match mime_guess::from_path(name).first() {
        Some(m) => Some(m.to_string()),
        None => None,
    }
}

/// `hostname::get`: the host's name, or `None` where the system call fails.
#[verifier::external_body]
pub(crate) fn system_hostname() -> (r: Option<String>) {
    match hostname::get() {
        Ok(name) => Some(name.to_string_lossy().to_string()),
        Err(_) => None,
    }
}

#[verifier::external_type_specification]
#[verifier::external_body]
pub struct ExProjectDirs(directories::ProjectDirs);

/// `directories::ProjectDirs::from`: the directories of one application, or
/// `None` where no home directory can be found.
pub assume_specification[ directories::ProjectDirs::from ](
    qualifier: &str,
    organization: &str,
    application: &str,
) -> (r: Option<directories::ProjectDirs>)
;

/// `directories::ProjectDirs::config_dir`: the application's configuration
/// directory.
#[verifier::external_body]
pub(crate) fn config_dir_of(dirs: &directories::ProjectDirs) -> (r: String) {
    dirs.config_dir().to_string_lossy().to_string()
}

/// `get_if_addrs::get_if_addrs`: one entry for each address of each
/// interface of this host, as its name, its address as text (`ip`) and
/// whether it is a loopback address (`is_loopback`); `None` where the
/// system call fails.
#[verifier::external_body]
pub(crate) fn list_interfaces() -> (r: Option<Vec<(String, String, bool)>>) {
    match get_if_addrs::get_if_addrs() {
        Ok(addrs) => Some(
            addrs.into_iter().map(
                |i| {
                    let loopback = i.is_loopback();
                    (i.name.clone(), i.ip().to_string(), loopback)
                },
            ).collect(),
        ),
        Err(_) => None,
    }
}

} // verus!
