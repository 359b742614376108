//! From S3 prefixes and keys to the remote API's paths.

use vstd::prelude::*;
use vstd::string::*;
use crate::text::{append_decimal, decimal, trim_char, trimmed};

verus! {

/// The prefixes that stand for the root of the container: the empty one and
/// the single slash.
pub open spec fn is_root(prefix: Seq<char>) -> bool {
    prefix.len() == 0 || prefix == seq!['/']
}

/// How the remote API is told where to look: nothing for the root, and the
/// prefix without the slashes at its ends, between `:/` and `:`, for any
/// other place.
pub open spec fn addressing(prefix: Seq<char>) -> Seq<char> {
    if is_root(prefix) {
        Seq::empty()
    } else {
        ":/"@ + trimmed(prefix, '/') + ":"@
    }
}

/// How the remote API is told what to do there: list the children where no
/// query is given, search for the query otherwise.
pub open spec fn mode(search_query: Seq<char>) -> Seq<char> {
    if search_query.len() == 0 {
        "/children"@
    } else {
        "/search(q='"@ + search_query + "')"@
    }
}

/// The path, relative to the root of the container's drive, that lists or
/// searches under `prefix`.
pub open spec fn relative_path(prefix: Seq<char>, search_query: Seq<char>) -> Seq<char> {
    addressing(prefix) + mode(search_query)
}

/// Listing and searching under one prefix address the same place, and differ
/// in the mode alone; and a prefix is addressed as the root exactly when it
/// is empty or a single slash, whatever the query.
pub proof fn lemma_mode_and_addressing_are_independent(prefix: Seq<char>, search_query: Seq<char>)
    requires
        search_query.len() > 0,
    ensures
        relative_path(prefix, Seq::empty()) == addressing(prefix) + "/children"@,
        relative_path(prefix, search_query) == addressing(prefix) + ("/search(q='"@ + search_query
            + "')"@),
        addressing(prefix).len() == 0 <==> is_root(prefix),
{
    reveal_strlit(":/");
}

/// Whether `prefix` stands for the root of the container.
pub fn is_root_prefix(prefix: &str) -> (b: bool)
    ensures
        b == is_root(prefix@),
{
    let n = prefix.unicode_len();
    if n == 0 {
        true
    } else if n == 1 {
        let first = prefix.get_char(0);
        assert(first == '/' <==> prefix@ =~= seq!['/']);
        first == '/'
    } else {
        false
    }
}

/// Turns a prefix and a search query into the remote API's relative
/// path. An empty `search_query` asks for the children.
pub fn prepare_prefix(prefix: String, search_query: String) -> (path: String)
    ensures
        path@ == relative_path(prefix@, search_query@),
{
    let mut path = String::new();
    if !is_root_prefix(prefix.as_str()) {
        path.append(":/");
        path.append(trim_char(prefix.as_str(), '/'));
        path.append(":");
    }
    if search_query.as_str().is_empty() {
        path.append("/children");
    } else {
        path.append("/search(q='");
        path.append(search_query.as_str());
        path.append("')");
    }
    assert(path@ =~= relative_path(prefix@, search_query@));
    path
}

/// The address under which the remote API keeps its sites.
pub open spec fn sites_base() -> Seq<char> {
    "https://graph.microsoft.com/v1.0/sites/"@
}

/// The address of the root of a container's drive.
pub open spec fn drive_root(container_id: Seq<char>) -> Seq<char> {
    sites_base() + container_id + "/drive/root"@
}

/// The address that lists or searches a container.
pub open spec fn list_url(
    container_id: Seq<char>,
    prefix: Seq<char>,
    max_keys: u16,
    search_query: Seq<char>,
) -> Seq<char> {
    drive_root(container_id) + relative_path(prefix, search_query) + "?$top="@ + decimal(
        max_keys as nat,
    )
}

/// The address of one entry of a drive: the root for the empty key and the
/// single slash, and the key behind `:/` otherwise.
pub open spec fn item_address(key: Seq<char>) -> Seq<char> {
    if is_root(key) {
        "/"@
    } else {
        ":/"@ + key
    }
}

/// The address that describes the entry under `key`.
pub open spec fn metadata_url(container_id: Seq<char>, key: Seq<char>) -> Seq<char> {
    drive_root(container_id) + item_address(key)
}

/// The address that holds the bytes of the entry under `key`.
pub open spec fn content_url(container_id: Seq<char>, key: Seq<char>) -> Seq<char> {
    drive_root(container_id) + ":/"@ + key + ":/content"@
}

fn drive_root_of(container_id: &str) -> (url: String)
    ensures
        url@ == drive_root(container_id@),
{
    let mut url = "https://graph.microsoft.com/v1.0/sites/".to_owned();
    url.append(container_id);
    url.append("/drive/root");
    url
}

/// Builds the address that lists or searches a container.
pub fn list_url_of(container_id: &str, prefix: &str, max_keys: u16, search_query: &str) -> (url:
    String)
    ensures
        url@ == list_url(container_id@, prefix@, max_keys, search_query@),
{
    let mut url = drive_root_of(container_id);
    let path = prepare_prefix(prefix.to_owned(), search_query.to_owned());
    url.append(path.as_str());
    url.append("?$top=");
    append_decimal(&mut url, max_keys as u64);
    url
}

/// Builds the address that describes one entry.
pub fn metadata_url_of(container_id: &str, key: &str) -> (url: String)
    ensures
        url@ == metadata_url(container_id@, key@),
{
    let mut url = drive_root_of(container_id);
    if is_root_prefix(key) {
        url.append("/");
    } else {
        url.append(":/");
        url.append(key);
        assert(url@ =~= metadata_url(container_id@, key@));
    }
    url
}

/// Builds the address that holds the bytes of one entry.
pub fn content_url_of(container_id: &str, key: &str) -> (url: String)
    ensures
        url@ == content_url(container_id@, key@),
{
    let mut url = drive_root_of(container_id);
    url.append(":/");
    url.append(key);
    url.append(":/content");
    url
}

} // verus!
