//! Trusted boundary to host facilities outside the embedded Git library:
//! URL parsing, the home directory, the system keyring, the clock, and
//! operation-id generation.  Results that depend on the machine, the
//! disk or the clock carry no promise beyond their shape; URL parsing is
//! a function of the string alone and is named.

use vstd::prelude::*;

verus! {

/// The host part that `url::Url::parse` extracts from a URL string, if
/// the string parses.
pub uninterp spec fn url_host_of(s: Seq<char>) -> Option<Seq<char>>;

/// The username part that `url::Url::parse` extracts from a URL string
/// (possibly empty), if the string parses.
pub uninterp spec fn url_username_of(s: Seq<char>) -> Option<Seq<char>>;

/// Relies on `url::Url::parse` and `url::Url::host_str`: the host of the
/// URL, `None` when the string does not parse or has no host.
#[verifier::external_body]
pub(crate) fn url_host(s: &str) -> (r: Option<String>)
    ensures
        match r {
            Some(h) => url_host_of(s@) == Some(h@),
            None => url_host_of(s@) is None,
        },
{
    url::Url::parse(s).ok().and_then(|u| u.host_str().map(String::from))
}

/// Relies on `url::Url::parse` and `url::Url::username`: the username of
/// the URL (possibly empty), `None` when the string does not parse.
#[verifier::external_body]
pub(crate) fn url_username(s: &str) -> (r: Option<String>)
    ensures
        match r {
            Some(u) => url_username_of(s@) == Some(u@),
            None => url_username_of(s@) is None,
        },
{
    url::Url::parse(s).ok().map(|u| String::from(u.username()))
}

/// Relies on `dirs::home_dir`: the user's home directory, where the host
/// reports one that is valid text.
#[verifier::external_body]
pub(crate) fn home_dir() -> Option<String> {
    dirs::home_dir().and_then(|p| p.to_str().map(String::from))
}

/// Relies on `std::path::Path::exists`: whether the path points at an
/// existing entity right now.
#[verifier::external_body]
pub(crate) fn path_exists(p: &str) -> bool {
    std::path::Path::new(p).exists()
}

/// Relies on `std::path::Path::read_dir`: whether reading the directory
/// yields at least one entry; unreadable paths count as empty.
#[verifier::external_body]
pub(crate) fn dir_has_entries(p: &str) -> bool {
    match std::path::Path::new(p).read_dir() {
        Ok(mut entries) => entries.next().is_some(),
        Err(_) => false,
    }
}

/// Relies on `std::path::Path::read_dir`: the number of directory
/// entries readable at the path; 0 for an unreadable path.
#[verifier::external_body]
pub(crate) fn dir_entry_count(p: &str) -> usize {
    match std::path::Path::new(p).read_dir() {
        Ok(entries) => entries.count(),
        Err(_) => 0,
    }
}

#[verifier::external_type_specification]
#[verifier::external_body]
pub struct ExKeyringEntry(keyring::Entry);

#[verifier::external_type_specification]
#[verifier::external_body]
pub struct ExKeyringError(keyring::Error);

/// Relies on `keyring::Entry::new`: a handle to the secret-store record
/// for this service and account.
#[verifier::external_body]
pub(crate) fn keyring_entry(service: &str, account: &str) -> Result<keyring::Entry, keyring::Error> {
    keyring::Entry::new(service, account)
}

/// Relies on `keyring::Entry::set_password`: stores the blob under the
/// entry's key.
#[verifier::external_body]
pub(crate) fn keyring_set_password(e: &keyring::Entry, blob: &str) -> Result<(), keyring::Error> {
    e.set_password(blob)
}

/// Relies on `keyring::Entry::get_password`: loads the blob stored under
/// the entry's key.
#[verifier::external_body]
pub(crate) fn keyring_get_password(e: &keyring::Entry) -> Result<String, keyring::Error> {
    e.get_password()
}

/// Relies on `keyring::Entry::delete_password`: removes the record.
#[verifier::external_body]
pub(crate) fn keyring_delete_password(e: &keyring::Entry) -> Result<(), keyring::Error> {
    e.delete_password()
}

/// Relies on `keyring::Error`'s variants: whether the error says that no
/// record exists under the key.
#[verifier::external_body]
pub(crate) fn keyring_error_is_no_entry(e: &keyring::Error) -> bool {
    matches!(e, keyring::Error::NoEntry)
}

/// Relies on `keyring::Error`'s `Display` rendering.
#[verifier::external_body]
pub(crate) fn keyring_error_message(e: &keyring::Error) -> String {
    format!("{}", e)
}

/// Relies on `chrono::Utc::now`: the wall clock, as seconds since the
/// epoch.
#[verifier::external_body]
pub(crate) fn now_timestamp() -> i64 {
    chrono::Utc::now().timestamp()
}

/// Relies on `chrono::Utc::now`: the wall clock, as milliseconds since
/// the epoch.
#[verifier::external_body]
pub(crate) fn now_timestamp_millis() -> i64 {
    chrono::Utc::now().timestamp_millis()
}

/// Relies on `uuid::Uuid::new_v4`: a fresh random operation id in hyphen
/// form.
#[verifier::external_body]
pub(crate) fn new_operation_id() -> String {
    format!("{}", uuid::Uuid::new_v4())
}

} // verus!
