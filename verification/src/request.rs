//! Inbound requests in normal form, and the remote calls they lead to.

use vstd::prelude::*;
use vstd::string::*;
use crate::catalog::SharePointObjects;
use crate::content::file_name_of;
use crate::error::{Fetched, GatewayError};
use crate::path::{
    content_url,
    content_url_of,
    list_url,
    list_url_of,
    metadata_url,
    metadata_url_of,
};
use crate::text::{tail_after_last, trim_end_char, trim_trailing};

verus! {

/// The number of keys asked for where the request names none.
pub const DEFAULT_MAX_KEYS: u16 = 1000;

/// The body of a search request.
#[derive(Debug, Clone, PartialEq, Eq)]
pub struct SearchRequest {
    pub query: String,
    pub prefix: String,
    pub max_keys: Option<u16>,
}

/// A listing or search request in normal form.
#[derive(Debug, Clone, PartialEq, Eq)]
pub struct ListQuery {
    pub container_id: String,
    pub prefix: String,
    pub max_keys: u16,
    pub search_query: Option<String>,
}

/// A bucket and a key: the container of the document library, and the path
/// of one entry in it.
#[derive(Debug, Clone, PartialEq, Eq)]
pub struct ObjectAddress {
    pub container_id: String,
    pub key: String,
}

/// A `GET` to be sent to the remote API.
#[derive(Debug, Clone, PartialEq, Eq)]
pub struct RemoteRequest {
    pub url: String,
    pub authorization: String,
}

/// The value of the header that presents `token`.
pub open spec fn bearer(token: Seq<char>) -> Seq<char> {
    "Bearer "@ + token
}

/// The number of keys to ask for.
pub open spec fn max_keys_or_default(max_keys: Option<u16>) -> u16 {
    match max_keys {
        Some(n) => n,
        None => DEFAULT_MAX_KEYS,
    }
}

/// The prefix of a listing: the one given, or the root, without the slashes
/// at its end.
pub open spec fn listing_prefix(prefix: Option<Seq<char>>) -> Seq<char> {
    match prefix {
        Some(p) => trim_trailing(p, '/'),
        None => Seq::empty(),
    }
}

/// The search text of a query, the empty text standing for none.
pub open spec fn search_text(search_query: Option<String>) -> Seq<char> {
    match search_query {
        Some(q) => q@,
        None => Seq::empty(),
    }
}

/// Builds the header that presents `token`.
pub fn bearer_of(token: &str) -> (value: String)
    ensures
        value@ == bearer(token@),
{
    let mut value = "Bearer ".to_owned();
    value.append(token);
    value
}

fn max_keys_of(max_keys: Option<u16>) -> (n: u16)
    ensures
        n == max_keys_or_default(max_keys),
{
    match max_keys {
        Some(n) => n,
        None => DEFAULT_MAX_KEYS,
    }
}

impl ListQuery {
    /// The normal form of a listing request. An absent prefix stands for the
    /// root, an absent number of keys for [`DEFAULT_MAX_KEYS`].
    pub fn listing(container_id: String, prefix: Option<String>, max_keys: Option<u16>) -> (query:
        ListQuery)
        ensures
            query.container_id == container_id,
            query.prefix@ == listing_prefix(
                match prefix {
                    Some(p) => Some(p@),
                    None => None,
                },
            ),
            query.max_keys == max_keys_or_default(max_keys),
            query.search_query is None,
    {
        let prefix = match prefix {
            Some(p) => trim_end_char(p.as_str(), '/').to_owned(),
            None => String::new(),
        };
        ListQuery { container_id, prefix, max_keys: max_keys_of(max_keys), search_query: None }
    }

    /// The normal form of a search request. The prefix is taken as it is.
    pub fn search(container_id: String, request: SearchRequest) -> (query: ListQuery)
        ensures
            query.container_id == container_id,
            query.prefix == request.prefix,
            query.max_keys == max_keys_or_default(request.max_keys),
            query.search_query == Some(request.query),
    {
        ListQuery {
            container_id,
            prefix: request.prefix,
            max_keys: max_keys_of(request.max_keys),
            search_query: Some(request.query),
        }
    }

    /// The call that carries this query out, authorised by `token`.
    pub fn request(&self, token: &str) -> (request: RemoteRequest)
        ensures
            request.url@ == list_url(
                self.container_id@,
                self.prefix@,
                self.max_keys,
                search_text(self.search_query),
            ),
            request.authorization@ == bearer(token@),
    {
        let url = match &self.search_query {
            Some(q) => list_url_of(
                self.container_id.as_str(),
                self.prefix.as_str(),
                self.max_keys,
                q.as_str(),
            ),
            None => list_url_of(
                self.container_id.as_str(),
                self.prefix.as_str(),
                self.max_keys,
                "",
            ),
        };
        proof {
            reveal_strlit("");
            assert(""@ =~= Seq::<char>::empty());
        }
        RemoteRequest { url, authorization: bearer_of(token) }
    }
}

impl ObjectAddress {
    /// The call that fetches the description of the entry.
    pub fn metadata_request(&self, token: &str) -> (request: RemoteRequest)
        ensures
            request.url@ == metadata_url(self.container_id@, self.key@),
            request.authorization@ == bearer(token@),
    {
        RemoteRequest {
            url: metadata_url_of(self.container_id.as_str(), self.key.as_str()),
            authorization: bearer_of(token),
        }
    }

    /// The call that fetches the bytes of the entry.
    pub fn content_request(&self, token: &str) -> (request: RemoteRequest)
        ensures
            request.url@ == content_url(self.container_id@, self.key@),
            request.authorization@ == bearer(token@),
    {
        RemoteRequest {
            url: content_url_of(self.container_id.as_str(), self.key.as_str()),
            authorization: bearer_of(token),
        }
    }

    /// The name the entry is displayed under.
    pub fn file_name(&self) -> (name: String)
        ensures
            name@ == file_name_of(self.key@),
    {
        tail_after_last(self.key.as_str(), '/').to_owned()
    }
}

/// Turns the outcome of a listing call into the listing. The entries are
/// passed on whole and in order; a missing path and a failed call are errors,
/// and carry no entries.
pub fn list_azure_objects(fetched: Fetched<SharePointObjects>) -> (r: Result<
    SharePointObjects,
    GatewayError,
>)
    ensures
        r == (match fetched {
            Fetched::Found(objects) => Ok::<SharePointObjects, GatewayError>(objects),
            Fetched::Missing => Err::<SharePointObjects, GatewayError>(GatewayError::NotFound),
            Fetched::Failed(cause) => Err::<SharePointObjects, GatewayError>(
                GatewayError::RemoteError(cause),
            ),
        }),
{
    match fetched {
        Fetched::Found(objects) => Ok(objects),
        Fetched::Missing => Err(GatewayError::NotFound),
        Fetched::Failed(cause) => Err(GatewayError::RemoteError(cause)),
    }
}

} // verus!
