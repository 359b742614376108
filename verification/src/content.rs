//! Object retrieval: who may ask, and what is handed back.

use vstd::prelude::*;
use vstd::string::*;
use crate::error::{answer_of_status, kind_of_status, status_cause, Fetched, GatewayError, StatusKind};
use crate::filter::{admits, NameFilter};
use crate::text::{last_segment, tail_after_last};

verus! {

/// An object as it is returned to the client.
#[derive(Debug, Clone, PartialEq, Eq)]
pub struct GetAzureObjectResponse {
    pub content_type: String,
    pub data: Vec<u8>,
    pub file_name: String,
}

/// The answer of the remote API to a content call: its status, its body, and
/// the content type if the answer named one.
#[derive(Debug, Clone, PartialEq, Eq)]
pub struct RemoteContent {
    pub status: u16,
    pub content_type: Option<String>,
    pub data: Vec<u8>,
}

/// The name an object is displayed under: what follows the last slash of its
/// key.
pub open spec fn file_name_of(key: Seq<char>) -> Seq<char> {
    last_segment(key, '/')
}

/// The value of the header that offers an object for download.
pub open spec fn content_disposition(file_name: Seq<char>) -> Seq<char> {
    "attachment; filename=\""@ + file_name + "\""@
}

/// The cause reported for an answer that names no content type.
pub open spec fn untyped_answer() -> Seq<char> {
    "the answer names no content type"@
}

/// Decides whether the object under `key` may be asked for at all: its file
/// name has to pass the filter. Nothing is fetched for this, so a refusal
/// says nothing about whether the object exists.
pub fn authorize_key(key: &str, filter: &NameFilter) -> (r: Result<(), GatewayError>)
    ensures
        r == (if admits(filter.pattern(), file_name_of(key@)) {
            Ok::<(), GatewayError>(())
        } else {
            Err::<(), GatewayError>(GatewayError::Forbidden)
        }),
{
    if filter.matches(tail_after_last(key, '/')) {
        Ok(())
    } else {
        Err(GatewayError::Forbidden)
    }
}

/// Turns the outcome of a content call into the object handed to the client.
///
/// The status of the answer decides first. With a success status the body
/// and the content type are passed on as they came, and the file name is
/// taken from `file_path`; an answer that names no content type is a remote
/// error. With the status of a missing path the object is not found. With
/// any other status the call has failed, and its body is never handed out as
/// data. Where no answer arrived at all, the cause comes back as a remote
/// error.
pub fn get_azure_object_data(file_path: String, answered: Result<RemoteContent, String>) -> (r:
    Result<GetAzureObjectResponse, GatewayError>)
    ensures
        match answered {
            Ok(content) => match kind_of_status(content.status) {
                StatusKind::Success => match content.content_type {
                    Some(content_type) => r matches Ok(object) && object.content_type
                        == content_type && object.data == content.data && object.file_name@
                        == file_name_of(file_path@),
                    None => r matches Err(GatewayError::RemoteError(cause)) && cause@
                        == untyped_answer(),
                },
                StatusKind::Missing => r == Err::<GetAzureObjectResponse, GatewayError>(
                    GatewayError::NotFound,
                ),
                StatusKind::Failure => r matches Err(GatewayError::RemoteError(cause)) && cause@
                    == status_cause(content.status),
            },
            Err(cause) => r == Err::<GetAzureObjectResponse, GatewayError>(
                GatewayError::RemoteError(cause),
            ),
        },
{
    match answered {
        Ok(content) => {
            let status = content.status;
            match answer_of_status(status, content) {
                Fetched::Found(content) => match content.content_type {
                    Some(content_type) => Ok(
                        GetAzureObjectResponse {
                            content_type,
                            data: content.data,
                            file_name: tail_after_last(file_path.as_str(), '/').to_owned(),
                        },
                    ),
                    None => Err(
                        GatewayError::RemoteError("the answer names no content type".to_owned()),
                    ),
                },
                Fetched::Missing => Err(GatewayError::NotFound),
                Fetched::Failed(cause) => Err(GatewayError::RemoteError(cause)),
            }
        },
        Err(cause) => Err(GatewayError::RemoteError(cause)),
    }
}

/// Builds the header that offers `file_name` for download.
pub fn content_disposition_of(file_name: &str) -> (value: String)
    ensures
        value@ == content_disposition(file_name@),
{
    let mut value = "attachment; filename=\"".to_owned();
    value.append(file_name);
    value.append("\"");
    value
}

} // verus!
