//! Data model: request descriptions, responses, errors and outcomes, plus the
//! plain records that the surrounding application stores.

use vstd::prelude::*;

verus! {

/// Key-value pair with an enable/disable toggle.
#[derive(Debug, Clone, PartialEq, Eq)]
pub struct KeyValue {
    pub key: String,
    pub value: String,
    pub enabled: bool,
}

/// Request body variants.
///
/// A JSON body is carried as the serialized text of the document; the
/// embedding application converts between its JSON values and this text.
#[derive(Debug, Clone, PartialEq, Eq)]
pub enum RequestBody {
    Empty,
    Raw { mime: String, content: String },
    Json { value: String },
    FormUrlEncoded { fields: Vec<KeyValue> },
    Multipart { fields: Vec<KeyValue> },
}

/// HTTP authentication variants.
#[derive(Debug, Clone, PartialEq, Eq)]
pub enum AuthConfig {
    NoAuth,
    Basic { username: String, password: String },
    Bearer { token: String },
}

/// One request to execute: immutable input to a single execution.
#[derive(Debug, Clone, PartialEq, Eq)]
pub struct RequestConfig {
    pub method: String,
    pub url: String,
    pub headers: Vec<KeyValue>,
    pub params: Vec<KeyValue>,
    pub body: RequestBody,
    pub auth: Option<AuthConfig>,
    pub timeout_ms: u64,
    pub ignore_tls: bool,
    pub follow_redirects: bool,
}

/// Response body after classification: exactly one variant per response.
#[derive(Debug, Clone, PartialEq, Eq)]
pub enum ResponseBody {
    Text { content: String },
    Binary { preview_hex: String },
    Truncated { content: String, original_size: usize },
}

/// A fully classified HTTP response.
#[derive(Debug, Clone, PartialEq, Eq)]
pub struct HttpResponse {
    pub status: u16,
    pub status_text: String,
    pub headers: Vec<KeyValue>,
    pub body: ResponseBody,
    pub size_bytes: usize,
    pub time_ms: u128,
    pub content_type: Option<String>,
    pub content_encoding: Option<String>,
}

/// Transport-level failures. 4xx/5xx statuses are not errors; they are valid
/// responses with that status recorded.
#[derive(Debug, Clone, PartialEq, Eq)]
pub enum HttpError {
    Network { message: String },
    Timeout,
    Dns { message: String },
    Tls { message: String },
    InvalidUrl { message: String },
    Cancelled,
}

/// Terminal outcome of one execution; the request id is always present so the
/// caller can correlate with the cancellation registry even on failure.
#[derive(Debug, Clone, PartialEq, Eq)]
pub enum SendResult {
    Success { request_id: String, response: HttpResponse },
    Failed { request_id: String, error: HttpError },
}

/// A single settings row.
#[derive(Debug, Clone, PartialEq, Eq)]
pub struct Setting {
    pub key: String,
    pub value: String,
}

/// A workspace record.
#[derive(Debug, Clone, PartialEq, Eq)]
pub struct Workspace {
    pub id: String,
    pub name: String,
    pub created_at: i64,
    pub updated_at: i64,
}

/// A collection record.
#[derive(Debug, Clone, PartialEq, Eq)]
pub struct Collection {
    pub id: String,
    pub workspace_id: String,
    pub name: String,
    pub description: Option<String>,
    pub sort_order: i64,
    pub created_at: i64,
}

/// A folder record.
#[derive(Debug, Clone, PartialEq, Eq)]
pub struct Folder {
    pub id: String,
    pub collection_id: String,
    pub parent_folder_id: Option<String>,
    pub name: String,
    pub sort_order: i64,
    pub created_at: i64,
}

/// A stored request record; headers, params, body and auth are JSON text.
#[derive(Debug, Clone, PartialEq, Eq)]
pub struct Request {
    pub id: String,
    pub folder_id: Option<String>,
    pub collection_id: String,
    pub name: String,
    pub method: String,
    pub url: String,
    pub headers: String,
    pub params: String,
    pub body: String,
    pub auth: Option<String>,
    pub sort_order: i64,
    pub schema_version: i64,
    pub created_at: i64,
}

/// A history record of one executed request.
#[derive(Debug, Clone, PartialEq, Eq)]
pub struct HistoryItem {
    pub id: String,
    pub workspace_id: String,
    pub request_id: Option<String>,
    pub method: String,
    pub url: String,
    pub request_headers: String,
    pub request_params: String,
    pub request_body: Option<String>,
    pub response_status: u16,
    pub response_headers: String,
    pub response_time_ms: u64,
    pub response_size_bytes: usize,
    pub created_at: i64,
}

/// One request inside an imported collection.
#[derive(Debug, Clone, PartialEq, Eq)]
pub struct ImportRequest {
    pub name: String,
    pub method: String,
    pub url: String,
    pub headers: String,
    pub params: String,
    pub body: String,
    pub auth: String,
}

/// One folder inside an imported collection.
#[derive(Debug, PartialEq, Eq)]
pub struct ImportFolder {
    pub name: String,
    pub requests: Vec<ImportRequest>,
    pub folders: Vec<ImportFolder>,
}

/// A collection as delivered by an import.
#[derive(Debug, PartialEq, Eq)]
pub struct ImportCollection {
    pub name: String,
    pub workspace_id: String,
    pub folders: Vec<ImportFolder>,
    pub requests: Vec<ImportRequest>,
}

/// A file as returned by the remote repository API.
#[derive(Debug, Clone, PartialEq, Eq)]
pub struct GithubFileResponse {
    pub sha: String,
    pub content: String,
    pub encoding: String,
}

} // verus!
