//! Statements of the record commands: users, audit log, bookmarks, folders,
//! tags, connection profiles, diagrams, pinned queries and history rows.
//! Every value is bound in the order of its placeholder.

use vstd::prelude::*;
use vstd::string::*;

use crate::assembler::is_given;
use crate::journal::{log_action_spec, log_action_statement, optional_str_view};
use crate::requests::{
    AddConnectionTagRequest, AddQueryHistoryRequest, BookmarkRequest, CreateAppUserLogRequest,
    CreateAppUserRequest, CreateConnectionRequest, CreateDiagramRequest, CreateFolderRequest,
    CreatePinnedQueryRequest, CreateTagRequest, UpdateAppUserRequest, UpdateConnectionRequest,
    UpdateDiagramRequest, UpdateFolderRequest, UpdatePinnedQueryRequest, UpdateTagRequest,
};
use crate::resolver::{decimal, decimal_text};
use crate::sql::{
    optional_integer, optional_integer_view, optional_text, optional_text_view, SqlValue,
    SqlValueView, Statement, StatementView,
};
use crate::vault::{aes256_base64_encryption, encrypt_data, ENCRYPTION_KEY};

verus! {

pub open spec fn int_param(n: i64) -> SqlValueView {
    SqlValueView::Integer(n as int)
}

pub open spec fn text_param(s: String) -> SqlValueView {
    SqlValueView::Text(s@)
}

/// The statement `sql` with `id` as its one bound value.
pub open spec fn with_id_spec(sql: Seq<char>, id: i64) -> StatementView {
    StatementView { sql, params: seq![int_param(id)] }
}

fn with_id(sql: &str, id: i64) -> (r: Statement)
    ensures
        r@ == with_id_spec(sql@, id),
{
    let mut r = Statement::new(sql);
    r.bind(SqlValue::Integer(id));
    assert(r@.params =~= seq![int_param(id)]);
    r
}

fn text_value(s: &String) -> (r: SqlValue)
    ensures
        r@ == text_param(*s),
{
    SqlValue::Text(s.clone())
}

// ----- audit log -----

pub const CREATE_APP_USER_LOG: &'static str = "INSERT INTO app_user_logs (user_id, action_type, details) VALUES (?, ?, ?) RETURNING log_id";

pub const APP_USER_LOGS: &'static str = "SELECT * FROM app_user_logs WHERE user_id = ? ORDER BY timestamp DESC LIMIT 100";

pub open spec fn create_app_user_log_spec(r: CreateAppUserLogRequest) -> StatementView {
    StatementView {
        sql: CREATE_APP_USER_LOG@,
        params: seq![int_param(r.user_id), text_param(r.action_type), optional_text_view(r.details)],
    }
}

/// Appends an entry to a user's audit log and returns its id.
pub fn create_app_user_log_statement(request: &CreateAppUserLogRequest) -> (r: Statement)
    ensures
        r@ == create_app_user_log_spec(*request),
{
    let mut r = Statement::new(CREATE_APP_USER_LOG);
    r.bind(SqlValue::Integer(request.user_id));
    r.bind(text_value(&request.action_type));
    r.bind(optional_text(&request.details));
    assert(r@.params =~= create_app_user_log_spec(*request).params);
    r
}

/// The latest hundred audit entries of a user, newest first.
pub fn app_user_logs_statement(user_id: i64) -> (r: Statement)
    ensures
        r@ == with_id_spec(APP_USER_LOGS@, user_id),
{
    with_id(APP_USER_LOGS, user_id)
}

pub const COUNT_CONNECTIONS: &'static str = "SELECT COUNT(*) FROM connections WHERE user_id = ?";

pub const COUNT_QUERIES: &'static str = "SELECT COUNT(*) FROM query_history qh \n         JOIN connections c ON qh.connection_id = c.connection_id \n         WHERE c.user_id = ?";

pub const COUNT_SUCCESSFUL_QUERIES: &'static str = "SELECT COUNT(*) FROM query_history qh \n         JOIN connections c ON qh.connection_id = c.connection_id \n         WHERE c.user_id = ? AND qh.status = 'success'";

pub const COUNT_PINNED_QUERIES: &'static str = "SELECT COUNT(*) FROM pinned_queries pq \n         JOIN connections c ON pq.connection_id = c.connection_id \n         WHERE c.user_id = ?";

pub const PREVIOUS_LOGIN: &'static str = "SELECT timestamp FROM app_user_logs WHERE user_id = ? AND action_type = 'LOGIN' ORDER BY timestamp DESC LIMIT 1 OFFSET 1";

pub const USER_CREATED_AT: &'static str = "SELECT created_at FROM app_users WHERE user_id = ?";

/// The reads behind a user's statistics, each bound to the user's id.
#[derive(Debug, Clone, PartialEq, Eq)]
pub struct UserStatisticsStatements {
    pub connections: Statement,
    pub queries: Statement,
    pub successful_queries: Statement,
    pub pinned_queries: Statement,
    pub previous_login: Statement,
    pub created_at: Statement,
}

pub fn user_statistics_statements(user_id: i64) -> (r: UserStatisticsStatements)
    ensures
        r.connections@ == with_id_spec(COUNT_CONNECTIONS@, user_id),
        r.queries@ == with_id_spec(COUNT_QUERIES@, user_id),
        r.successful_queries@ == with_id_spec(COUNT_SUCCESSFUL_QUERIES@, user_id),
        r.pinned_queries@ == with_id_spec(COUNT_PINNED_QUERIES@, user_id),
        r.previous_login@ == with_id_spec(PREVIOUS_LOGIN@, user_id),
        r.created_at@ == with_id_spec(USER_CREATED_AT@, user_id),
{
    UserStatisticsStatements {
        connections: with_id(COUNT_CONNECTIONS, user_id),
        queries: with_id(COUNT_QUERIES, user_id),
        successful_queries: with_id(COUNT_SUCCESSFUL_QUERIES, user_id),
        pinned_queries: with_id(COUNT_PINNED_QUERIES, user_id),
        previous_login: with_id(PREVIOUS_LOGIN, user_id),
        created_at: with_id(USER_CREATED_AT, user_id),
    }
}

/// The queries that did not succeed: all queries less the successful ones,
/// held within the range of `i64`.
pub open spec fn failed_query_count_spec(total: i64, successful: i64) -> int {
    let d = total - successful;
    if d > i64::MAX {
        i64::MAX as int
    } else if d < i64::MIN {
        i64::MIN as int
    } else {
        d
    }
}

pub fn failed_query_count(total: i64, successful: i64) -> (r: i64)
    ensures
        r == failed_query_count_spec(total, successful),
{
    let d = total as i128 - successful as i128;
    if d > i64::MAX as i128 {
        i64::MAX
    } else if d < i64::MIN as i128 {
        i64::MIN
    } else {
        d as i64
    }
}

// ----- application users -----

pub const CREATE_APP_USER: &'static str = "INSERT INTO app_users (username, password_hash, role) VALUES (?, ?, ?) RETURNING user_id";

pub const UPDATE_APP_USER: &'static str = "UPDATE app_users SET username = ?, role = ? WHERE user_id = ?";

pub const UPDATE_APP_USER_WITH_PASSWORD: &'static str = "UPDATE app_users SET username = ?, role = ?, password_hash = ? WHERE user_id = ?";

pub const DELETE_APP_USER: &'static str = "DELETE FROM app_users WHERE user_id = ?";

pub const APP_USER_BY_NAME: &'static str = "SELECT user_id, username, password_hash, role, created_at FROM app_users WHERE username = ?";

pub const REGISTER_ACTION: &'static str = "REGISTER";

pub const LOGIN_ACTION: &'static str = "LOGIN";

pub const USERNAME_LABEL: &'static str = "Username: ";

pub const LOGIN_SUCCESS: &'static str = "Success";

pub open spec fn create_app_user_spec(r: CreateAppUserRequest, password_hash: Seq<char>) -> StatementView {
    StatementView {
        sql: CREATE_APP_USER@,
        params: seq![
            text_param(r.username),
            SqlValueView::Text(password_hash),
            optional_text_view(r.role),
        ],
    }
}

/// Creates a user whose password has been hashed to `password_hash`.
pub fn create_app_user_statement(request: &CreateAppUserRequest, password_hash: &str) -> (r:
    Statement)
    ensures
        r@ == create_app_user_spec(*request, password_hash@),
{
    let mut r = Statement::new(CREATE_APP_USER);
    r.bind(text_value(&request.username));
    r.bind(SqlValue::Text(String::from_str(password_hash)));
    r.bind(optional_text(&request.role));
    assert(r@.params =~= create_app_user_spec(*request, password_hash@).params);
    r
}

/// The audit entry of a new user.
pub fn user_registered_log_statement(user_id: i64, username: &str) -> (r: Statement)
    ensures
        r@ == log_action_spec(user_id, REGISTER_ACTION@, Some(USERNAME_LABEL@ + username@)),
{
    let mut details = String::from_str(USERNAME_LABEL);
    details.append(username);
    log_action_statement(user_id, REGISTER_ACTION, Some(details.as_str()))
}

/// The audit entry of a successful login.
pub fn user_logged_in_log_statement(user_id: i64) -> (r: Statement)
    ensures
        r@ == log_action_spec(user_id, LOGIN_ACTION@, Some(LOGIN_SUCCESS@)),
{
    log_action_statement(user_id, LOGIN_ACTION, Some(LOGIN_SUCCESS))
}

/// Renames a user and sets its role; with `password_hash`, also replaces the
/// password by the one hashed to it.
pub open spec fn update_app_user_spec(r: UpdateAppUserRequest, password_hash: Option<Seq<char>>) -> StatementView {
    match password_hash {
        Some(h) => StatementView {
            sql: UPDATE_APP_USER_WITH_PASSWORD@,
            params: seq![
                text_param(r.username),
                optional_text_view(r.role),
                SqlValueView::Text(h),
                int_param(r.user_id),
            ],
        },
        None => StatementView {
            sql: UPDATE_APP_USER@,
            params: seq![text_param(r.username), optional_text_view(r.role), int_param(r.user_id)],
        },
    }
}

/// Updates a user; `password_hash` is the hash of the new password, if the
/// request carries one.
pub fn update_app_user_statement(request: &UpdateAppUserRequest, password_hash: Option<&str>) -> (r:
    Statement)
    ensures
        r@ == update_app_user_spec(*request, optional_str_view(password_hash)),
{
    let mut r = match password_hash {
        Some(_) => Statement::new(UPDATE_APP_USER_WITH_PASSWORD),
        None => Statement::new(UPDATE_APP_USER),
    };
    r.bind(text_value(&request.username));
    r.bind(optional_text(&request.role));
    if let Some(h) = password_hash {
        r.bind(SqlValue::Text(String::from_str(h)));
    }
    r.bind(SqlValue::Integer(request.user_id));
    assert(r@.params =~= update_app_user_spec(*request, optional_str_view(password_hash)).params);
    r
}

pub fn delete_app_user_statement(user_id: i64) -> (r: Statement)
    ensures
        r@ == with_id_spec(DELETE_APP_USER@, user_id),
{
    with_id(DELETE_APP_USER, user_id)
}

/// Looks a user up by name, for a login.
pub fn app_user_by_name_statement(username: &str) -> (r: Statement)
    ensures
        r@ == (StatementView { sql: APP_USER_BY_NAME@, params: seq![SqlValueView::Text(username@)] }),
{
    let mut r = Statement::new(APP_USER_BY_NAME);
    r.bind(SqlValue::Text(String::from_str(username)));
    assert(r@.params =~= seq![SqlValueView::Text(username@)]);
    r
}

// ----- bookmarks -----

pub const FIND_BOOKMARK: &'static str = "SELECT bookmark_id FROM bookmarks WHERE connection_id = ? AND schema_name = ? AND object_name = ? AND object_type = ?";

pub const INSERT_BOOKMARK: &'static str = "INSERT INTO bookmarks (connection_id, schema_name, object_name, object_type) VALUES (?, ?, ?, ?)";

pub const DELETE_BOOKMARK: &'static str = "DELETE FROM bookmarks WHERE bookmark_id = ?";

pub const USER_BOOKMARKS: &'static str = "SELECT b.* FROM bookmarks b\n         JOIN connections c ON b.connection_id = c.connection_id\n         WHERE c.user_id = ?";

pub open spec fn bookmark_params(r: BookmarkRequest) -> Seq<SqlValueView> {
    seq![
        int_param(r.connection_id),
        text_param(r.schema_name),
        text_param(r.object_name),
        text_param(r.object_type),
    ]
}

fn bind_bookmark(s: &mut Statement, request: &BookmarkRequest)
    ensures
        final(s)@.sql == old(s)@.sql,
        final(s)@.params == old(s)@.params + bookmark_params(*request),
{
    s.bind(SqlValue::Integer(request.connection_id));
    s.bind(text_value(&request.schema_name));
    s.bind(text_value(&request.object_name));
    s.bind(text_value(&request.object_type));
    assert(final(s)@.params =~= old(s)@.params + bookmark_params(*request));
}

/// Finds the bookmark that the request names, if it exists.
pub fn find_bookmark_statement(request: &BookmarkRequest) -> (r: Statement)
    ensures
        r@ == (StatementView { sql: FIND_BOOKMARK@, params: bookmark_params(*request) }),
{
    let mut r = Statement::new(FIND_BOOKMARK);
    bind_bookmark(&mut r, request);
    r
}

/// What toggling a bookmark does, and whether the object is bookmarked after.
#[derive(Debug, Clone, PartialEq, Eq)]
pub struct BookmarkToggle {
    pub statement: Statement,
    pub bookmarked: bool,
}

/// Toggles a bookmark: an existing one (`existing` is its id) is removed,
/// otherwise one is added.
pub fn toggle_bookmark_statement(request: &BookmarkRequest, existing: Option<i64>) -> (r:
    BookmarkToggle)
    ensures
        match existing {
            Some(id) => r.statement@ == with_id_spec(DELETE_BOOKMARK@, id) && !r.bookmarked,
            None => r.statement@ == (StatementView {
                sql: INSERT_BOOKMARK@,
                params: bookmark_params(*request),
            }) && r.bookmarked,
        },
{
    match existing {
        Some(id) => BookmarkToggle { statement: with_id(DELETE_BOOKMARK, id), bookmarked: false },
        None => {
            let mut s = Statement::new(INSERT_BOOKMARK);
            bind_bookmark(&mut s, request);
            BookmarkToggle { statement: s, bookmarked: true }
        },
    }
}

/// The bookmarks on all connections of a user.
pub fn bookmarks_statement(user_id: i64) -> (r: Statement)
    ensures
        r@ == with_id_spec(USER_BOOKMARKS@, user_id),
{
    with_id(USER_BOOKMARKS, user_id)
}

// ----- connection folders -----

pub const CREATE_FOLDER: &'static str = "INSERT INTO connection_folders (user_id, folder_name) VALUES (?, ?) RETURNING folder_id";

pub const RENAME_FOLDER: &'static str = "UPDATE connection_folders SET folder_name = ? WHERE folder_id = ?";

pub const DELETE_FOLDER: &'static str = "DELETE FROM connection_folders WHERE folder_id = ?";

pub const USER_FOLDERS: &'static str = "SELECT * FROM connection_folders WHERE user_id = ?";

pub fn create_connection_folder_statement(request: &CreateFolderRequest) -> (r: Statement)
    ensures
        r@ == (StatementView {
            sql: CREATE_FOLDER@,
            params: seq![int_param(request.user_id), text_param(request.folder_name)],
        }),
{
    let mut r = Statement::new(CREATE_FOLDER);
    r.bind(SqlValue::Integer(request.user_id));
    r.bind(text_value(&request.folder_name));
    assert(r@.params =~= seq![int_param(request.user_id), text_param(request.folder_name)]);
    r
}

pub fn update_connection_folder_statement(request: &UpdateFolderRequest) -> (r: Statement)
    ensures
        r@ == (StatementView {
            sql: RENAME_FOLDER@,
            params: seq![text_param(request.folder_name), int_param(request.folder_id)],
        }),
{
    let mut r = Statement::new(RENAME_FOLDER);
    r.bind(text_value(&request.folder_name));
    r.bind(SqlValue::Integer(request.folder_id));
    assert(r@.params =~= seq![text_param(request.folder_name), int_param(request.folder_id)]);
    r
}

pub fn delete_connection_folder_statement(folder_id: i64) -> (r: Statement)
    ensures
        r@ == with_id_spec(DELETE_FOLDER@, folder_id),
{
    with_id(DELETE_FOLDER, folder_id)
}

pub fn connection_folders_statement(user_id: i64) -> (r: Statement)
    ensures
        r@ == with_id_spec(USER_FOLDERS@, user_id),
{
    with_id(USER_FOLDERS, user_id)
}

// ----- tags and their connections -----

pub const CREATE_TAG: &'static str = "INSERT INTO tags (user_id, tag_name, color_hex) VALUES (?, ?, ?) RETURNING tag_id";

pub const UPDATE_TAG: &'static str = "UPDATE tags SET tag_name = ?, color_hex = ? WHERE tag_id = ?";

pub const UNTAG_ALL_CONNECTIONS: &'static str = "DELETE FROM connection_tags WHERE tag_id = ?";

pub const DELETE_TAG: &'static str = "DELETE FROM tags WHERE tag_id = ?";

pub const USER_TAGS: &'static str = "SELECT * FROM tags WHERE user_id = ?";

pub const ADD_CONNECTION_TAG: &'static str = "INSERT OR IGNORE INTO connection_tags (tag_id, connection_id) VALUES (?, ?)";

pub const REMOVE_CONNECTION_TAG: &'static str = "DELETE FROM connection_tags WHERE tag_id = ? AND connection_id = ?";

pub const TAGS_OF_CONNECTION: &'static str = "SELECT t.* FROM tags t\n         JOIN connection_tags ct ON t.tag_id = ct.tag_id\n         WHERE ct.connection_id = ?";

pub const ALL_CONNECTION_TAGS: &'static str = "SELECT * FROM connection_tags";

pub fn create_tag_statement(request: &CreateTagRequest) -> (r: Statement)
    ensures
        r@ == (StatementView {
            sql: CREATE_TAG@,
            params: seq![
                int_param(request.user_id),
                text_param(request.tag_name),
                optional_text_view(request.color_hex),
            ],
        }),
{
    let mut r = Statement::new(CREATE_TAG);
    r.bind(SqlValue::Integer(request.user_id));
    r.bind(text_value(&request.tag_name));
    r.bind(optional_text(&request.color_hex));
    assert(r@.params =~= seq![
        int_param(request.user_id),
        text_param(request.tag_name),
        optional_text_view(request.color_hex),
    ]);
    r
}

pub fn update_tag_statement(request: &UpdateTagRequest) -> (r: Statement)
    ensures
        r@ == (StatementView {
            sql: UPDATE_TAG@,
            params: seq![
                text_param(request.tag_name),
                optional_text_view(request.color_hex),
                int_param(request.tag_id),
            ],
        }),
{
    let mut r = Statement::new(UPDATE_TAG);
    r.bind(text_value(&request.tag_name));
    r.bind(optional_text(&request.color_hex));
    r.bind(SqlValue::Integer(request.tag_id));
    assert(r@.params =~= seq![
        text_param(request.tag_name),
        optional_text_view(request.color_hex),
        int_param(request.tag_id),
    ]);
    r
}

/// Deleting a tag: first its links to connections, then the tag itself.
pub fn delete_tag_statements(tag_id: i64) -> (r: (Statement, Statement))
    ensures
        r.0@ == with_id_spec(UNTAG_ALL_CONNECTIONS@, tag_id),
        r.1@ == with_id_spec(DELETE_TAG@, tag_id),
{
    (with_id(UNTAG_ALL_CONNECTIONS, tag_id), with_id(DELETE_TAG, tag_id))
}

pub fn tags_statement(user_id: i64) -> (r: Statement)
    ensures
        r@ == with_id_spec(USER_TAGS@, user_id),
{
    with_id(USER_TAGS, user_id)
}

/// Tags a connection; tagging it twice with one tag changes nothing.
pub fn add_connection_tag_statement(request: &AddConnectionTagRequest) -> (r: Statement)
    ensures
        r@ == (StatementView {
            sql: ADD_CONNECTION_TAG@,
            params: seq![int_param(request.tag_id), int_param(request.connection_id)],
        }),
{
    let mut r = Statement::new(ADD_CONNECTION_TAG);
    r.bind(SqlValue::Integer(request.tag_id));
    r.bind(SqlValue::Integer(request.connection_id));
    assert(r@.params =~= seq![int_param(request.tag_id), int_param(request.connection_id)]);
    r
}

pub fn remove_connection_tag_statement(tag_id: i64, connection_id: i64) -> (r: Statement)
    ensures
        r@ == (StatementView {
            sql: REMOVE_CONNECTION_TAG@,
            params: seq![int_param(tag_id), int_param(connection_id)],
        }),
{
    let mut r = Statement::new(REMOVE_CONNECTION_TAG);
    r.bind(SqlValue::Integer(tag_id));
    r.bind(SqlValue::Integer(connection_id));
    assert(r@.params =~= seq![int_param(tag_id), int_param(connection_id)]);
    r
}

pub fn tags_for_connection_statement(connection_id: i64) -> (r: Statement)
    ensures
        r@ == with_id_spec(TAGS_OF_CONNECTION@, connection_id),
{
    with_id(TAGS_OF_CONNECTION, connection_id)
}

pub fn all_connection_tags_statement() -> (r: Statement)
    ensures
        r@ == (StatementView { sql: ALL_CONNECTION_TAGS@, params: Seq::empty() }),
{
    Statement::new(ALL_CONNECTION_TAGS)
}

// ----- connection profiles -----

pub const CONNECTION_BY_ID: &'static str = "SELECT * FROM connections WHERE connection_id = ?";

pub const INSERT_CONNECTION: &'static str = "INSERT INTO connections (user_id, connection_name, host, port, db_name, db_user, db_password_encrypted, ssl_mode, folder_id) VALUES (?, ?, ?, ?, ?, ?, ?, ?, ?) RETURNING connection_id";

pub const UPDATE_CONNECTION: &'static str = "UPDATE connections SET connection_name = ?, host = ?, port = ?, db_name = ?, db_user = ?, ssl_mode = ?, folder_id = ? WHERE connection_id = ? RETURNING user_id";

pub const UPDATE_CONNECTION_WITH_PASSWORD: &'static str = "UPDATE connections SET db_password_encrypted = ?, connection_name = ?, host = ?, port = ?, db_name = ?, db_user = ?, ssl_mode = ?, folder_id = ? WHERE connection_id = ? RETURNING user_id";

pub const DELETE_CONNECTION: &'static str = "DELETE FROM connections WHERE connection_id = ? RETURNING user_id";

pub const CREATE_CONNECTION_ACTION: &'static str = "CREATE_CONNECTION";

pub const UPDATE_CONNECTION_ACTION: &'static str = "UPDATE_CONNECTION";

pub const DELETE_CONNECTION_ACTION: &'static str = "DELETE_CONNECTION";

pub const ID_LABEL: &'static str = "ID: ";

/// The stored profile with the given id.
pub fn connection_by_id_statement(connection_id: i64) -> (r: Statement)
    ensures
        r@ == with_id_spec(CONNECTION_BY_ID@, connection_id),
{
    with_id(CONNECTION_BY_ID, connection_id)
}

/// Stores a new profile whose password has been encrypted to `encrypted`.
pub open spec fn insert_connection_spec(r: CreateConnectionRequest, encrypted: Seq<char>) -> StatementView {
    StatementView {
        sql: INSERT_CONNECTION@,
        params: seq![
            int_param(r.user_id),
            text_param(r.connection_name),
            text_param(r.host),
            optional_integer_view(r.port),
            text_param(r.db_name),
            text_param(r.db_user),
            SqlValueView::Text(encrypted),
            optional_text_view(r.ssl_mode),
            optional_integer_view(r.folder_id),
        ],
    }
}

/// Stores a new profile with the already encrypted password `encrypted_password`.
pub fn insert_connection_statement(request: &CreateConnectionRequest, encrypted_password: &str) -> (r:
    Statement)
    ensures
        r@ == insert_connection_spec(*request, encrypted_password@),
{
    let mut r = Statement::new(INSERT_CONNECTION);
    r.bind(SqlValue::Integer(request.user_id));
    r.bind(text_value(&request.connection_name));
    r.bind(text_value(&request.host));
    r.bind(optional_integer(request.port));
    r.bind(text_value(&request.db_name));
    r.bind(text_value(&request.db_user));
    r.bind(SqlValue::Text(String::from_str(encrypted_password)));
    r.bind(optional_text(&request.ssl_mode));
    r.bind(optional_integer(request.folder_id));
    assert(r@.params =~= insert_connection_spec(*request, encrypted_password@).params);
    r
}

/// Stores a new profile; its password is stored encrypted, never in clear.
pub fn create_connection_statement(request: &CreateConnectionRequest) -> (r: Statement)
    ensures
        r@ == insert_connection_spec(
            *request,
            aes256_base64_encryption(ENCRYPTION_KEY@, request.db_password@),
        ),
{
    let encrypted = encrypt_data(request.db_password.as_str());
    insert_connection_statement(request, encrypted.as_str())
}

pub open spec fn update_connection_tail(r: UpdateConnectionRequest) -> Seq<SqlValueView> {
    seq![
        text_param(r.connection_name),
        text_param(r.host),
        optional_integer_view(r.port),
        text_param(r.db_name),
        text_param(r.db_user),
        optional_text_view(r.ssl_mode),
        optional_integer_view(r.folder_id),
        int_param(r.connection_id),
    ]
}

/// Updates a profile; with `encrypted`, its password is replaced too.
pub open spec fn update_connection_spec(r: UpdateConnectionRequest, encrypted: Option<Seq<char>>) -> StatementView {
    match encrypted {
        Some(e) => StatementView {
            sql: UPDATE_CONNECTION_WITH_PASSWORD@,
            params: seq![SqlValueView::Text(e)] + update_connection_tail(r),
        },
        None => StatementView { sql: UPDATE_CONNECTION@, params: update_connection_tail(r) },
    }
}

/// Updates a profile; `encrypted_password` is the new password, encrypted,
/// if it is to change.
pub fn update_connection_statement_using(
    request: &UpdateConnectionRequest,
    encrypted_password: Option<&str>,
) -> (r: Statement)
    ensures
        r@ == update_connection_spec(*request, optional_str_view(encrypted_password)),
{
    let mut r = match encrypted_password {
        Some(e) => {
            let mut s = Statement::new(UPDATE_CONNECTION_WITH_PASSWORD);
            s.bind(SqlValue::Text(String::from_str(e)));
            s
        },
        None => Statement::new(UPDATE_CONNECTION),
    };
    let ghost head = r@.params;
    r.bind(text_value(&request.connection_name));
    r.bind(text_value(&request.host));
    r.bind(optional_integer(request.port));
    r.bind(text_value(&request.db_name));
    r.bind(text_value(&request.db_user));
    r.bind(optional_text(&request.ssl_mode));
    r.bind(optional_integer(request.folder_id));
    r.bind(SqlValue::Integer(request.connection_id));
    assert(r@.params =~= head + update_connection_tail(*request));
    assert(r@.params =~= update_connection_spec(*request, optional_str_view(encrypted_password)).params);
    r
}

/// Updates a profile. A new password that is given and non-empty replaces
/// the stored one, encrypted; otherwise the stored password is kept.
pub fn update_connection_statement(request: &UpdateConnectionRequest) -> (r: Statement)
    ensures
        r@ == update_connection_spec(
            *request,
            if is_given(request.db_password) {
                Some(aes256_base64_encryption(ENCRYPTION_KEY@, request.db_password->0@))
            } else {
                None
            },
        ),
{
    match &request.db_password {
        Some(p) => {
            if !p.as_str().is_empty() {
                let encrypted = encrypt_data(p.as_str());
                update_connection_statement_using(request, Some(encrypted.as_str()))
            } else {
                update_connection_statement_using(request, None)
            }
        },
        None => update_connection_statement_using(request, None),
    }
}

pub fn delete_connection_statement(connection_id: i64) -> (r: Statement)
    ensures
        r@ == with_id_spec(DELETE_CONNECTION@, connection_id),
{
    with_id(DELETE_CONNECTION, connection_id)
}

/// The audit entry of a created (`CREATE_CONNECTION`) or updated
/// (`UPDATE_CONNECTION`) profile: the profile's name.
pub fn connection_saved_log_statement(user_id: i64, created: bool, connection_name: &str) -> (r:
    Statement)
    ensures
        r@ == log_action_spec(
            user_id,
            if created {
                CREATE_CONNECTION_ACTION@
            } else {
                UPDATE_CONNECTION_ACTION@
            },
            Some(connection_name@),
        ),
{
    if created {
        log_action_statement(user_id, CREATE_CONNECTION_ACTION, Some(connection_name))
    } else {
        log_action_statement(user_id, UPDATE_CONNECTION_ACTION, Some(connection_name))
    }
}

/// The audit entry of a deleted profile: its id.
pub fn connection_deleted_log_statement(user_id: i64, connection_id: i64) -> (r: Statement)
    ensures
        r@ == log_action_spec(
            user_id,
            DELETE_CONNECTION_ACTION@,
            Some(ID_LABEL@ + decimal(connection_id as int)),
        ),
{
    let mut details = String::from_str(ID_LABEL);
    let id = decimal_text(connection_id);
    details.append(id.as_str());
    log_action_statement(user_id, DELETE_CONNECTION_ACTION, Some(details.as_str()))
}

// ----- diagrams -----

pub const CREATE_DIAGRAM: &'static str = "INSERT INTO diagrams (connection_id, diagram_name, definition_json) VALUES (?, ?, ?) RETURNING diagram_id";

pub const UPDATE_DIAGRAM: &'static str = "UPDATE diagrams SET diagram_name = ?, definition_json = ? WHERE diagram_id = ?";

pub const DELETE_DIAGRAM: &'static str = "DELETE FROM diagrams WHERE diagram_id = ?";

pub const USER_DIAGRAMS: &'static str = "SELECT d.* FROM diagrams d\n         JOIN connections c ON d.connection_id = c.connection_id\n         WHERE c.user_id = ?\n         ORDER BY d.created_at DESC";

pub fn create_diagram_statement(request: &CreateDiagramRequest) -> (r: Statement)
    ensures
        r@ == (StatementView {
            sql: CREATE_DIAGRAM@,
            params: seq![
                int_param(request.connection_id),
                text_param(request.diagram_name),
                text_param(request.definition_json),
            ],
        }),
{
    let mut r = Statement::new(CREATE_DIAGRAM);
    r.bind(SqlValue::Integer(request.connection_id));
    r.bind(text_value(&request.diagram_name));
    r.bind(text_value(&request.definition_json));
    assert(r@.params =~= seq![
        int_param(request.connection_id),
        text_param(request.diagram_name),
        text_param(request.definition_json),
    ]);
    r
}

pub fn update_diagram_statement(request: &UpdateDiagramRequest) -> (r: Statement)
    ensures
        r@ == (StatementView {
            sql: UPDATE_DIAGRAM@,
            params: seq![
                text_param(request.diagram_name),
                text_param(request.definition_json),
                int_param(request.diagram_id),
            ],
        }),
{
    let mut r = Statement::new(UPDATE_DIAGRAM);
    r.bind(text_value(&request.diagram_name));
    r.bind(text_value(&request.definition_json));
    r.bind(SqlValue::Integer(request.diagram_id));
    assert(r@.params =~= seq![
        text_param(request.diagram_name),
        text_param(request.definition_json),
        int_param(request.diagram_id),
    ]);
    r
}

pub fn delete_diagram_statement(diagram_id: i64) -> (r: Statement)
    ensures
        r@ == with_id_spec(DELETE_DIAGRAM@, diagram_id),
{
    with_id(DELETE_DIAGRAM, diagram_id)
}

/// The diagrams on all connections of a user, newest first.
pub fn diagrams_statement(user_id: i64) -> (r: Statement)
    ensures
        r@ == with_id_spec(USER_DIAGRAMS@, user_id),
{
    with_id(USER_DIAGRAMS, user_id)
}

// ----- pinned queries -----

pub const CREATE_PINNED_QUERY: &'static str = "INSERT INTO pinned_queries (connection_id, query_name, query_text, description) VALUES (?, ?, ?, ?) RETURNING pinned_query_id";

pub const UPDATE_PINNED_QUERY: &'static str = "UPDATE pinned_queries SET query_name = ?, description = ? WHERE pinned_query_id = ?";

pub const DELETE_PINNED_QUERY: &'static str = "DELETE FROM pinned_queries WHERE pinned_query_id = ?";

pub fn create_pinned_query_statement(request: &CreatePinnedQueryRequest) -> (r: Statement)
    ensures
        r@ == (StatementView {
            sql: CREATE_PINNED_QUERY@,
            params: seq![
                int_param(request.connection_id),
                text_param(request.query_name),
                text_param(request.query_text),
                optional_text_view(request.description),
            ],
        }),
{
    let mut r = Statement::new(CREATE_PINNED_QUERY);
    r.bind(SqlValue::Integer(request.connection_id));
    r.bind(text_value(&request.query_name));
    r.bind(text_value(&request.query_text));
    r.bind(optional_text(&request.description));
    assert(r@.params =~= seq![
        int_param(request.connection_id),
        text_param(request.query_name),
        text_param(request.query_text),
        optional_text_view(request.description),
    ]);
    r
}

pub fn update_pinned_query_statement(request: &UpdatePinnedQueryRequest) -> (r: Statement)
    ensures
        r@ == (StatementView {
            sql: UPDATE_PINNED_QUERY@,
            params: seq![
                text_param(request.query_name),
                optional_text_view(request.description),
                int_param(request.pinned_query_id),
            ],
        }),
{
    let mut r = Statement::new(UPDATE_PINNED_QUERY);
    r.bind(text_value(&request.query_name));
    r.bind(optional_text(&request.description));
    r.bind(SqlValue::Integer(request.pinned_query_id));
    assert(r@.params =~= seq![
        text_param(request.query_name),
        optional_text_view(request.description),
        int_param(request.pinned_query_id),
    ]);
    r
}

pub fn delete_pinned_query_statement(pinned_query_id: i64) -> (r: Statement)
    ensures
        r@ == with_id_spec(DELETE_PINNED_QUERY@, pinned_query_id),
{
    with_id(DELETE_PINNED_QUERY, pinned_query_id)
}

// ----- history rows written by callers -----

pub const ADD_QUERY_HISTORY: &'static str = "INSERT INTO query_history (connection_id, query_text, status, execution_time_ms, error_message) VALUES (?, ?, ?, ?, ?) RETURNING history_id";

pub fn add_query_history_statement(request: &AddQueryHistoryRequest) -> (r: Statement)
    ensures
        r@ == (StatementView {
            sql: ADD_QUERY_HISTORY@,
            params: seq![
                int_param(request.connection_id),
                text_param(request.query_text),
                text_param(request.status),
                optional_integer_view(request.execution_time_ms),
                optional_text_view(request.error_message),
            ],
        }),
{
    let mut r = Statement::new(ADD_QUERY_HISTORY);
    r.bind(SqlValue::Integer(request.connection_id));
    r.bind(text_value(&request.query_text));
    r.bind(text_value(&request.status));
    r.bind(optional_integer(request.execution_time_ms));
    r.bind(optional_text(&request.error_message));
    assert(r@.params =~= seq![
        int_param(request.connection_id),
        text_param(request.query_text),
        text_param(request.status),
        optional_integer_view(request.execution_time_ms),
        optional_text_view(request.error_message),
    ]);
    r
}

} // verus!
