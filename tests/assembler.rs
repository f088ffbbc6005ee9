use pgmanager::assembler::{
    app_users_statement, connections_statement, pinned_queries_statement, query_history_statement,
};
use pgmanager::requests::GetQueryHistoryRequest;
use pgmanager::sql::{SqlValue, Statement};

const HISTORY_BASE: &str = "SELECT qh.* FROM query_history qh\n         JOIN connections c ON qh.connection_id = c.connection_id\n         WHERE c.user_id = ?";

fn history_request() -> GetQueryHistoryRequest {
    GetQueryHistoryRequest {
        user_id: 7,
        limit: 20,
        offset: 40,
        search_query: None,
        status_filter: None,
        start_date: None,
        end_date: None,
        sort_desc: None,
    }
}

fn placeholders(s: &Statement) -> usize {
    s.sql.chars().filter(|c| *c == '?').count()
}

fn text(s: &str) -> SqlValue {
    SqlValue::Text(s.to_string())
}

#[test]
fn history_without_filters_is_base_order_and_page() {
    let s = query_history_statement(&history_request());
    assert_eq!(
        s.sql,
        format!("{HISTORY_BASE} ORDER BY qh.executed_at DESC LIMIT ? OFFSET ?")
    );
    assert_eq!(
        s.params,
        vec![SqlValue::Integer(7), SqlValue::Integer(20), SqlValue::Integer(40)]
    );
}

#[test]
fn history_search_foo_ascending_ranks_matches_first() {
    let mut r = history_request();
    r.search_query = Some("foo".to_string());
    r.sort_desc = Some(false);
    let s = query_history_statement(&r);
    assert_eq!(
        s.sql,
        format!(
            "{HISTORY_BASE} ORDER BY (qh.query_text LIKE ?) DESC, qh.executed_at ASC LIMIT ? OFFSET ?"
        )
    );
    assert_eq!(
        s.params,
        vec![
            SqlValue::Integer(7),
            text("%foo%"),
            SqlValue::Integer(20),
            SqlValue::Integer(40)
        ]
    );
}

#[test]
fn history_all_filters_bind_in_placeholder_order() {
    let mut r = history_request();
    r.status_filter = Some("error".to_string());
    r.start_date = Some("2024-01-01".to_string());
    r.end_date = Some("2024-12-31".to_string());
    r.search_query = Some("users".to_string());
    r.sort_desc = Some(true);
    let s = query_history_statement(&r);
    assert_eq!(
        s.sql,
        format!(
            "{HISTORY_BASE} AND qh.status = ? AND qh.executed_at >= ? AND qh.executed_at <= ? ORDER BY (qh.query_text LIKE ?) DESC, qh.executed_at DESC LIMIT ? OFFSET ?"
        )
    );
    assert_eq!(
        s.params,
        vec![
            SqlValue::Integer(7),
            text("error"),
            text("2024-01-01"),
            text("2024-12-31"),
            text("%users%"),
            SqlValue::Integer(20),
            SqlValue::Integer(40)
        ]
    );
    assert_eq!(placeholders(&s), s.params.len());
}

#[test]
fn history_absent_and_empty_filters_add_nothing() {
    let plain = query_history_statement(&history_request());
    let mut r = history_request();
    r.status_filter = Some("all".to_string());
    r.search_query = Some(String::new());
    r.start_date = Some(String::new());
    r.end_date = Some(String::new());
    assert_eq!(query_history_statement(&r), plain);
    r.status_filter = Some(String::new());
    assert_eq!(query_history_statement(&r), plain);
    assert!(!plain.sql.contains("AND ("));
    assert!(!plain.sql.contains("AND  "));
}

#[test]
fn history_every_filter_subset_matches_placeholders() {
    for mask in 0u32..16 {
        let mut r = history_request();
        if mask & 1 != 0 {
            r.status_filter = Some("success".to_string());
        }
        if mask & 2 != 0 {
            r.start_date = Some("2024-01-01".to_string());
        }
        if mask & 4 != 0 {
            r.end_date = Some("2024-02-01".to_string());
        }
        if mask & 8 != 0 {
            r.search_query = Some("x".to_string());
        }
        let s = query_history_statement(&r);
        let given = mask.count_ones() as usize;
        assert_eq!(s.params.len(), 3 + given);
        assert_eq!(placeholders(&s), s.params.len());
        let mut expected = HISTORY_BASE.to_string();
        if mask & 1 != 0 {
            expected.push_str(" AND qh.status = ?");
        }
        if mask & 2 != 0 {
            expected.push_str(" AND qh.executed_at >= ?");
        }
        if mask & 4 != 0 {
            expected.push_str(" AND qh.executed_at <= ?");
        }
        expected.push_str(" ORDER BY ");
        if mask & 8 != 0 {
            expected.push_str("(qh.query_text LIKE ?) DESC, ");
        }
        expected.push_str("qh.executed_at DESC LIMIT ? OFFSET ?");
        assert_eq!(s.sql, expected);
    }
}

#[test]
fn history_search_token_is_bound_not_embedded() {
    let mut r = history_request();
    r.search_query = Some("'; DROP TABLE users; --".to_string());
    let s = query_history_statement(&r);
    assert!(!s.sql.contains("DROP TABLE"));
    assert_eq!(s.params[1], text("%'; DROP TABLE users; --%"));
}

#[test]
fn connections_without_tags() {
    let s = connections_statement(3, &None);
    assert_eq!(s.sql, "SELECT * FROM connections WHERE user_id = ?");
    assert_eq!(s.params, vec![SqlValue::Integer(3)]);
    assert_eq!(connections_statement(3, &Some(vec![])), s);
}

#[test]
fn connections_with_tags_one_placeholder_per_tag() {
    let s = connections_statement(3, &Some(vec![10, 20, 30]));
    assert_eq!(
        s.sql,
        "SELECT * FROM connections WHERE user_id = ? AND connection_id IN (SELECT connection_id FROM connection_tags WHERE tag_id IN (?, ?, ?))"
    );
    assert_eq!(
        s.params,
        vec![
            SqlValue::Integer(3),
            SqlValue::Integer(10),
            SqlValue::Integer(20),
            SqlValue::Integer(30)
        ]
    );
    assert_eq!(placeholders(&s), s.params.len());
}

#[test]
fn connections_with_one_tag() {
    let s = connections_statement(1, &Some(vec![5]));
    assert!(s.sql.ends_with("WHERE tag_id IN (?))"));
    assert_eq!(s.params, vec![SqlValue::Integer(1), SqlValue::Integer(5)]);
}

#[test]
fn pinned_default_is_oldest_first_without_search() {
    let s = pinned_queries_statement(9, &None, None);
    assert_eq!(
        s.sql,
        "SELECT pq.* FROM pinned_queries pq\n         JOIN connections c ON pq.connection_id = c.connection_id\n         WHERE c.user_id = ? ORDER BY pq.created_at ASC"
    );
    assert_eq!(s.params, vec![SqlValue::Integer(9)]);
    assert_eq!(pinned_queries_statement(9, &Some(String::new()), None), s);
}

#[test]
fn pinned_search_newest_first() {
    let s = pinned_queries_statement(9, &Some("report".to_string()), Some(false));
    assert!(s
        .sql
        .ends_with(" ORDER BY (pq.query_name LIKE ?) DESC, pq.created_at DESC"));
    assert_eq!(s.params, vec![SqlValue::Integer(9), text("%report%")]);
    assert_eq!(placeholders(&s), s.params.len());
}

#[test]
fn app_users_with_and_without_search() {
    let plain = app_users_statement(&None);
    assert_eq!(plain.sql, "SELECT * FROM app_users ORDER BY username ASC");
    assert!(plain.params.is_empty());
    assert_eq!(app_users_statement(&Some(String::new())), plain);
    let s = app_users_statement(&Some("ann".to_string()));
    assert_eq!(
        s.sql,
        "SELECT * FROM app_users ORDER BY (LOWER(username) LIKE LOWER(?)) DESC, username ASC"
    );
    assert_eq!(s.params, vec![text("%ann%")]);
}
