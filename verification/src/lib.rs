//! An S3-shaped, read-only view of a document library behind a Graph-style API.
//!
//! The crate holds the rules that turn bucket/prefix/key addressing into the
//! remote API's paths, decide when a cached bearer token may be reused, gate
//! object names by a configured pattern, answer metadata probes and render
//! listings as `ListBucketResult` documents. Network traffic is left to the
//! caller: every function here works on plain values.

pub mod access;
pub mod catalog;
pub mod content;
pub mod error;
pub mod filter;
pub mod head;
pub mod listing;
pub mod markup;
pub mod path;
pub mod request;
pub mod text;
pub mod token;

pub use crate::access::AccessPolicy;
pub use crate::catalog::{File, Folder, Item, SharePointObjects};
pub use crate::content::{authorize_key, get_azure_object_data, GetAzureObjectResponse, RemoteContent};
pub use crate::error::{answer_of_status, outcome_of_status, Fetched, GatewayError, StatusKind};
pub use crate::filter::{InvalidPattern, NameFilter};
pub use crate::head::{head_azure_object, HeadAzureObjectResponse};
pub use crate::listing::generate_s3_list_objects_v2_response;
pub use crate::path::prepare_prefix;
pub use crate::request::{list_azure_objects, ListQuery, ObjectAddress, RemoteRequest, SearchRequest};
pub use crate::token::{AccessToken, CredentialBroker, Credentials, Instant, TokenDecision};
