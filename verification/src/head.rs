//! Answers to metadata probes, which the remote API has no verb for.

use vstd::prelude::*;
use vstd::string::*;
use crate::catalog::{Item, ItemView};
use crate::error::{Fetched, GatewayError};
use crate::filter::{admits, NameFilter};
use crate::text::{ends_with, ends_with_char};

verus! {

/// The answer to a metadata probe.
#[derive(Debug, Clone, PartialEq, Eq)]
pub struct HeadAzureObjectResponse {
    pub content_type: String,
    pub status_code: u16,
    pub size: u64,
}

/// Mathematical model of a [`HeadAzureObjectResponse`].
pub struct HeadView {
    pub status_code: u16,
    pub content_type: Seq<char>,
    pub size: u64,
}

impl View for HeadAzureObjectResponse {
    type V = HeadView;

    open spec fn view(&self) -> HeadView {
        HeadView {
            status_code: self.status_code,
            content_type: self.content_type@,
            size: self.size,
        }
    }
}

/// The answer that carries a status and nothing else: typed as a listing,
/// with no content.
pub open spec fn bare(status_code: u16) -> HeadView {
    HeadView { status_code, content_type: "application/xml"@, size: 0 }
}

/// Whether a key asks for a folder: it ends in a slash, or it is empty and
/// stands for the root.
pub open spec fn asks_for_folder(key: Seq<char>) -> bool {
    key.len() == 0 || ends_with_char(key, '/')
}

/// The answer to a probe of `key`, given what the remote API has there.
pub open spec fn head_outcome(key: Seq<char>, fetched: Option<ItemView>, pattern: Seq<char>)
    -> HeadView {
    if asks_for_folder(key) {
        match fetched {
            Some(item) if item.is_folder() => bare(200),
            _ => bare(404),
        }
    } else {
        match fetched {
            Some(item) if item.is_file() => if admits(pattern, item.name) {
                HeadView {
                    status_code: 200,
                    content_type: item.mime_type->0,
                    size: item.size_or_zero(),
                }
            } else {
                bare(403)
            },
            _ => bare(404),
        }
    }
}

/// The five cases of a probe, for entries of exactly one kind: a key that
/// asks for a folder finds it or finds nothing; any other key finds a file
/// whose name passes the pattern, is refused one whose name does not, or
/// finds nothing.
pub proof fn lemma_head_cases(key: Seq<char>, fetched: Option<ItemView>, pattern: Seq<char>)
    requires
        fetched matches Some(item) ==> item.has_one_kind(),
    ensures
        asks_for_folder(key) && (fetched matches Some(item) && item.is_folder()) ==> head_outcome(
            key,
            fetched,
            pattern,
        ) == bare(200),
        asks_for_folder(key) && (fetched is None || (fetched matches Some(item) && item.is_file()))
            ==> head_outcome(key, fetched, pattern) == bare(404),
        !asks_for_folder(key) && (fetched matches Some(item) && item.is_file() && admits(
            pattern,
            item.name,
        )) ==> head_outcome(key, fetched, pattern) == (HeadView {
            status_code: 200,
            content_type: fetched->0.mime_type->0,
            size: fetched->0.size_or_zero(),
        }),
        !asks_for_folder(key) && (fetched matches Some(item) && item.is_file() && !admits(
            pattern,
            item.name,
        )) ==> head_outcome(key, fetched, pattern) == bare(403),
        !asks_for_folder(key) && (fetched is None || (fetched matches Some(item)
            && item.is_folder())) ==> head_outcome(key, fetched, pattern) == bare(404),
{
}

fn bare_response(status_code: u16) -> (r: HeadAzureObjectResponse)
    ensures
        r@ == bare(status_code),
{
    HeadAzureObjectResponse { content_type: "application/xml".to_owned(), status_code, size: 0 }
}

/// Whether `key` asks for a folder.
pub fn is_folder_key(key: &str) -> (b: bool)
    ensures
        b == asks_for_folder(key@),
{
    key.is_empty() || ends_with(key, '/')
}

/// Answers a probe of `key` from what was fetched there, `None` standing for
/// a path that does not exist.
pub fn resolve_head(key: &str, fetched: &Option<Item>, filter: &NameFilter) -> (r:
    HeadAzureObjectResponse)
    ensures
        r@ == head_outcome(
            key@,
            match *fetched {
                Some(item) => Some(item@),
                None => None,
            },
            filter.pattern(),
        ),
{
    if is_folder_key(key) {
        match fetched {
            Some(item) => if item.is_folder() {
                bare_response(200)
            } else {
                bare_response(404)
            },
            None => bare_response(404),
        }
    } else {
        match fetched {
            Some(item) => match &item.file {
                Some(file) => if filter.matches(item.name.as_str()) {
                    HeadAzureObjectResponse {
                        content_type: file.mime_type.clone(),
                        status_code: 200,
                        size: item.size_or_zero(),
                    }
                } else {
                    bare_response(403)
                },
                None => bare_response(404),
            },
            None => bare_response(404),
        }
    }
}

/// Answers a probe of `file_path` from the outcome of fetching its metadata.
///
/// A path that does not exist is answered like an entry of the wrong kind. A
/// call that failed is no answer: its cause comes back as a remote error.
pub fn head_azure_object(file_path: String, fetched: Fetched<Item>, filter: &NameFilter) -> (r:
    Result<HeadAzureObjectResponse, GatewayError>)
    ensures
        match fetched {
            Fetched::Found(item) => r matches Ok(head) && head@ == head_outcome(
                file_path@,
                Some(item@),
                filter.pattern(),
            ),
            Fetched::Missing => r matches Ok(head) && head@ == head_outcome(
                file_path@,
                None,
                filter.pattern(),
            ),
            Fetched::Failed(cause) => r == Err::<HeadAzureObjectResponse, GatewayError>(
                GatewayError::RemoteError(cause),
            ),
        },
{
    match fetched {
        Fetched::Found(item) => Ok(resolve_head(file_path.as_str(), &Some(item), filter)),
        Fetched::Missing => Ok(resolve_head(file_path.as_str(), &None, filter)),
        Fetched::Failed(cause) => Err(GatewayError::RemoteError(cause)),
    }
}

} // verus!
