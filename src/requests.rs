//! Requests that callers hand to the commands of the library.

use vstd::prelude::*;

verus! {

/// A page of the query history of one user, optionally filtered by status,
/// by an inclusive range of execution times, and ranked by a search term.
#[derive(Debug, Clone, PartialEq, Eq)]
pub struct GetQueryHistoryRequest {
    pub user_id: i64,
    pub limit: i64,
    pub offset: i64,
    pub search_query: Option<String>,
    pub status_filter: Option<String>,
    pub start_date: Option<String>,
    pub end_date: Option<String>,
    pub sort_desc: Option<bool>,
}

#[derive(Debug, Clone, PartialEq, Eq)]
pub struct AddQueryHistoryRequest {
    pub connection_id: i64,
    pub query_text: String,
    pub status: String,
    pub execution_time_ms: Option<i64>,
    pub error_message: Option<String>,
}

#[derive(Debug, Clone, PartialEq, Eq)]
pub struct CreateAppUserLogRequest {
    pub user_id: i64,
    pub action_type: String,
    pub details: Option<String>,
}

#[derive(Debug, Clone, PartialEq, Eq)]
pub struct CreateAppUserRequest {
    pub username: String,
    pub password: String,
    pub role: Option<String>,
}

#[derive(Debug, Clone, PartialEq, Eq)]
pub struct UpdateAppUserRequest {
    pub user_id: i64,
    pub username: String,
    pub password: Option<String>,
    pub role: Option<String>,
}

#[derive(Debug, Clone, PartialEq, Eq)]
pub struct BookmarkRequest {
    pub connection_id: i64,
    pub schema_name: String,
    pub object_name: String,
    pub object_type: String,
}

#[derive(Debug, Clone, PartialEq, Eq)]
pub struct CreateFolderRequest {
    pub user_id: i64,
    pub folder_name: String,
}

#[derive(Debug, Clone, PartialEq, Eq)]
pub struct UpdateFolderRequest {
    pub folder_id: i64,
    pub folder_name: String,
}

#[derive(Debug, Clone, PartialEq, Eq)]
pub struct AddConnectionTagRequest {
    pub tag_id: i64,
    pub connection_id: i64,
}

#[derive(Debug, Clone, PartialEq, Eq)]
pub struct CreateConnectionRequest {
    pub user_id: i64,
    pub connection_name: String,
    pub host: String,
    pub port: Option<i64>,
    pub db_name: String,
    pub db_user: String,
    pub db_password: String,
    pub ssl_mode: Option<String>,
    pub folder_id: Option<i64>,
}

#[derive(Debug, Clone, PartialEq, Eq)]
pub struct UpdateConnectionRequest {
    pub connection_id: i64,
    pub connection_name: String,
    pub host: String,
    pub port: Option<i64>,
    pub db_name: String,
    pub db_user: String,
    pub db_password: Option<String>,
    pub ssl_mode: Option<String>,
    pub folder_id: Option<i64>,
}

#[derive(Debug, Clone, PartialEq, Eq)]
pub struct CreateDiagramRequest {
    pub connection_id: i64,
    pub diagram_name: String,
    pub definition_json: String,
}

#[derive(Debug, Clone, PartialEq, Eq)]
pub struct UpdateDiagramRequest {
    pub diagram_id: i64,
    pub diagram_name: String,
    pub definition_json: String,
}

#[derive(Debug, Clone, PartialEq, Eq)]
pub struct CreatePinnedQueryRequest {
    pub connection_id: i64,
    pub query_name: String,
    pub query_text: String,
    pub description: Option<String>,
}

#[derive(Debug, Clone, PartialEq, Eq)]
pub struct UpdatePinnedQueryRequest {
    pub pinned_query_id: i64,
    pub query_name: String,
    pub description: Option<String>,
}

#[derive(Debug, Clone, PartialEq, Eq)]
pub struct CreateTagRequest {
    pub user_id: i64,
    pub tag_name: String,
    pub color_hex: Option<String>,
}

#[derive(Debug, Clone, PartialEq, Eq)]
pub struct UpdateTagRequest {
    pub tag_id: i64,
    pub tag_name: String,
    pub color_hex: Option<String>,
}

} // verus!
