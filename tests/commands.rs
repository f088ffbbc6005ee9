use pgmanager::commands::{
    add_connection_tag_statement, connection_deleted_log_statement, create_connection_statement,
    delete_tag_statements, failed_query_count, toggle_bookmark_statement, user_statistics_statements, update_app_user_statement,
    update_connection_statement, user_registered_log_statement,
};
use pgmanager::requests::{
    AddConnectionTagRequest, BookmarkRequest, CreateConnectionRequest, UpdateAppUserRequest,
    UpdateConnectionRequest,
};
use pgmanager::sql::SqlValue;
use pgmanager::vault::decrypt_data;

fn text(s: &str) -> SqlValue {
    SqlValue::Text(s.to_string())
}

fn update_request(password: Option<&str>) -> UpdateConnectionRequest {
    UpdateConnectionRequest {
        connection_id: 8,
        connection_name: "prod".to_string(),
        host: "h".to_string(),
        port: Some(5433),
        db_name: "d".to_string(),
        db_user: "u".to_string(),
        db_password: password.map(|p| p.to_string()),
        ssl_mode: None,
        folder_id: Some(2),
    }
}

#[test]
fn created_profile_stores_the_password_encrypted() {
    let r = CreateConnectionRequest {
        user_id: 1,
        connection_name: "local".to_string(),
        host: "localhost".to_string(),
        port: None,
        db_name: "db".to_string(),
        db_user: "me".to_string(),
        db_password: "secret".to_string(),
        ssl_mode: Some("disable".to_string()),
        folder_id: None,
    };
    let s = create_connection_statement(&r);
    assert_eq!(s.params.len(), 9);
    assert_eq!(s.params[3], SqlValue::Null);
    match &s.params[6] {
        SqlValue::Text(e) => {
            assert_ne!(e, "secret");
            assert_eq!(decrypt_data(e), Ok("secret".to_string()));
        }
        other => panic!("expected the encrypted password, got {other:?}"),
    }
    assert_eq!(s.params[7], text("disable"));
}

#[test]
fn empty_new_password_keeps_the_stored_one() {
    let s = update_connection_statement(&update_request(Some("")));
    assert!(!s.sql.contains("db_password_encrypted"));
    assert_eq!(s, update_connection_statement(&update_request(None)));
    assert_eq!(s.params.len(), 8);
    assert_eq!(s.params[7], SqlValue::Integer(8));
}

#[test]
fn given_new_password_is_stored_encrypted_first() {
    let s = update_connection_statement(&update_request(Some("new")));
    assert!(s.sql.starts_with("UPDATE connections SET db_password_encrypted = ?,"));
    assert_eq!(s.params.len(), 9);
    match &s.params[0] {
        SqlValue::Text(e) => assert_eq!(decrypt_data(e), Ok("new".to_string())),
        other => panic!("expected the encrypted password, got {other:?}"),
    }
}

#[test]
fn toggling_removes_an_existing_bookmark_and_adds_a_missing_one() {
    let r = BookmarkRequest {
        connection_id: 3,
        schema_name: "public".to_string(),
        object_name: "users".to_string(),
        object_type: "table".to_string(),
    };
    let off = toggle_bookmark_statement(&r, Some(11));
    assert!(!off.bookmarked);
    assert_eq!(off.statement.sql, "DELETE FROM bookmarks WHERE bookmark_id = ?");
    assert_eq!(off.statement.params, vec![SqlValue::Integer(11)]);
    let on = toggle_bookmark_statement(&r, None);
    assert!(on.bookmarked);
    assert_eq!(
        on.statement.params,
        vec![SqlValue::Integer(3), text("public"), text("users"), text("table")]
    );
}

#[test]
fn deleting_a_tag_unlinks_it_first() {
    let (first, second) = delete_tag_statements(4);
    assert_eq!(first.sql, "DELETE FROM connection_tags WHERE tag_id = ?");
    assert_eq!(second.sql, "DELETE FROM tags WHERE tag_id = ?");
    assert_eq!(first.params, vec![SqlValue::Integer(4)]);
}

#[test]
fn audit_details_name_the_object() {
    let d = connection_deleted_log_statement(2, 42);
    assert_eq!(d.params, vec![SqlValue::Integer(2), text("DELETE_CONNECTION"), text("ID: 42")]);
    let u = user_registered_log_statement(9, "ann");
    assert_eq!(u.params, vec![SqlValue::Integer(9), text("REGISTER"), text("Username: ann")]);
}

#[test]
fn user_update_with_and_without_a_new_hash() {
    let r = UpdateAppUserRequest {
        user_id: 5,
        username: "ann".to_string(),
        password: Some("pw".to_string()),
        role: None,
    };
    let with = update_app_user_statement(&r, Some("HASH"));
    assert_eq!(
        with.sql,
        "UPDATE app_users SET username = ?, role = ?, password_hash = ? WHERE user_id = ?"
    );
    assert_eq!(
        with.params,
        vec![text("ann"), SqlValue::Null, text("HASH"), SqlValue::Integer(5)]
    );
    let without = update_app_user_statement(&r, None);
    assert_eq!(without.params, vec![text("ann"), SqlValue::Null, SqlValue::Integer(5)]);
}

#[test]
fn tagging_binds_tag_then_connection() {
    let s = add_connection_tag_statement(&AddConnectionTagRequest {
        tag_id: 1,
        connection_id: 2,
    });
    assert_eq!(
        s.sql,
        "INSERT OR IGNORE INTO connection_tags (tag_id, connection_id) VALUES (?, ?)"
    );
    assert_eq!(s.params, vec![SqlValue::Integer(1), SqlValue::Integer(2)]);
}

#[test]
fn failed_queries_are_all_less_successful() {
    assert_eq!(failed_query_count(10, 7), 3);
    assert_eq!(failed_query_count(0, 0), 0);
    assert_eq!(failed_query_count(i64::MIN, 1), i64::MIN);
    assert_eq!(failed_query_count(i64::MAX, -1), i64::MAX);
}

#[test]
fn statistics_reads_are_bound_to_the_user() {
    let r = user_statistics_statements(6);
    assert_eq!(r.connections.sql, "SELECT COUNT(*) FROM connections WHERE user_id = ?");
    assert!(r.successful_queries.sql.ends_with("AND qh.status = 'success'"));
    for s in [
        &r.connections,
        &r.queries,
        &r.successful_queries,
        &r.pinned_queries,
        &r.previous_login,
        &r.created_at,
    ] {
        assert_eq!(s.params, vec![SqlValue::Integer(6)]);
    }
}
