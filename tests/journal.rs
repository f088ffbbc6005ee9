use pgmanager::coercion::{CanonicalValue, CellProbe};
use pgmanager::journal::{
    build_query_result, history_statement, journal_execution, log_action_statement,
    statement_preview, ExecutionOutcome, RawRow, StatementOutcome,
};
use pgmanager::sql::SqlValue;

fn int_cell(v: i32) -> CellProbe {
    CellProbe {
        as_i32: Some(v),
        as_text: None,
        as_bool: None,
        as_f64_bits: None,
        as_i64: Some(v as i64),
    }
}

fn text(s: &str) -> SqlValue {
    SqlValue::Text(s.to_string())
}

const SUCCESS_SQL: &str = "INSERT INTO query_history (connection_id, query_text, status, execution_time_ms, executed_at) VALUES (?, ?, 'success', ?, ?)";
const ERROR_SQL: &str = "INSERT INTO query_history (connection_id, query_text, status, execution_time_ms, error_message, executed_at) VALUES (?, ?, 'error', ?, ?, ?)";
const LOG_SQL: &str = "INSERT INTO app_user_logs (user_id, action_type, details) VALUES (?, ?, ?)";

#[test]
fn preview_of_51_characters_is_truncated() {
    let q = "a".repeat(51);
    let p = statement_preview(&q);
    assert_eq!(p, format!("{}...", "a".repeat(47)));
    assert_eq!(p.chars().count(), 50);
}

#[test]
fn preview_of_50_characters_is_verbatim() {
    let q = "b".repeat(50);
    assert_eq!(statement_preview(&q), q);
}

#[test]
fn preview_counts_characters_not_bytes() {
    let q = "é".repeat(50);
    assert_eq!(statement_preview(&q), q);
    let long = "é".repeat(60);
    assert_eq!(statement_preview(&long), format!("{}...", "é".repeat(47)));
}

#[test]
fn select_one_gives_one_column_one_row() {
    let rows = vec![RawRow {
        column_names: vec!["?column?".to_string()],
        cells: vec![int_cell(1)],
    }];
    let rec = journal_execution(4, 2, "SELECT 1", &StatementOutcome::Rows(rows), 3, "2024-05-01 10:00:00");
    let result = match rec.outcome {
        ExecutionOutcome::Success(r) => r,
        other => panic!("expected rows, got {other:?}"),
    };
    assert_eq!(result.columns, vec!["?column?".to_string()]);
    assert_eq!(result.rows, vec![vec![CanonicalValue::Integer(1)]]);
    assert_eq!(result.row_count, 1);
    assert_eq!(result.execution_time_ms, 3);
    assert_eq!(rec.history.sql, SUCCESS_SQL);
    assert_eq!(
        rec.history.params,
        vec![
            SqlValue::Integer(4),
            text("SELECT 1"),
            SqlValue::Integer(3),
            text("2024-05-01 10:00:00")
        ]
    );
    assert_eq!(rec.audit.sql, LOG_SQL);
    assert_eq!(
        rec.audit.params,
        vec![SqlValue::Integer(2), text("EXECUTE_QUERY"), text("SELECT 1")]
    );
}

#[test]
fn failing_statement_is_an_outcome_with_one_error_row() {
    let message = "error returned from database: relation \"nonexistent_table\" does not exist";
    let rec = journal_execution(
        4,
        2,
        "SELECT * FROM nonexistent_table",
        &StatementOutcome::Failed(message.to_string()),
        12,
        "2024-05-01 10:00:00",
    );
    assert_eq!(
        rec.outcome,
        ExecutionOutcome::Failure {
            message: message.to_string(),
            duration_ms: 12
        }
    );
    assert_eq!(rec.history.sql, ERROR_SQL);
    assert_eq!(
        rec.history.params,
        vec![
            SqlValue::Integer(4),
            text("SELECT * FROM nonexistent_table"),
            SqlValue::Integer(12),
            text(message),
            text("2024-05-01 10:00:00")
        ]
    );
    assert_eq!(
        rec.audit.params,
        vec![SqlValue::Integer(2), text("QUERY_ERROR"), text(message)]
    );
}

#[test]
fn audit_of_a_long_statement_carries_its_preview() {
    let q = format!("SELECT {} FROM t", "x, ".repeat(30));
    let rec = journal_execution(1, 1, &q, &StatementOutcome::Rows(vec![]), 0, "t");
    assert_eq!(rec.audit.params[2], text(&statement_preview(&q)));
    assert!(rec.audit.params[2] != text(&q));
}

#[test]
fn empty_result_has_no_columns_and_no_rows() {
    let r = build_query_result(&vec![], 5);
    assert!(r.columns.is_empty());
    assert!(r.rows.is_empty());
    assert_eq!(r.row_count, 0);
}

#[test]
fn columns_come_from_the_first_row_only() {
    let rows = vec![
        RawRow {
            column_names: vec!["a".to_string(), "b".to_string()],
            cells: vec![int_cell(1), int_cell(2)],
        },
        RawRow {
            column_names: vec!["other".to_string()],
            cells: vec![CellProbe {
                as_i32: None,
                as_text: None,
                as_bool: None,
                as_f64_bits: None,
                as_i64: None,
            }],
        },
    ];
    let r = build_query_result(&rows, 1);
    assert_eq!(r.columns, vec!["a".to_string(), "b".to_string()]);
    assert_eq!(
        r.rows,
        vec![
            vec![CanonicalValue::Integer(1), CanonicalValue::Integer(2)],
            vec![CanonicalValue::Null]
        ]
    );
    assert_eq!(r.row_count, 2);
}

#[test]
fn history_duration_saturates_at_the_largest_signed_value() {
    let s = history_statement(1, "q", None, u64::MAX, "t");
    assert_eq!(s.params[2], SqlValue::Integer(i64::MAX));
    let e = history_statement(1, "q", Some("boom"), 7, "t");
    assert_eq!(e.params[2], SqlValue::Integer(7));
    assert_eq!(e.params[3], text("boom"));
}

#[test]
fn log_entry_without_details_binds_null() {
    let s = log_action_statement(5, "LOGOUT", None);
    assert_eq!(s.params, vec![SqlValue::Integer(5), text("LOGOUT"), SqlValue::Null]);
}

#[test]
fn every_execution_writes_exactly_one_history_row() {
    let outcomes = vec![
        StatementOutcome::Rows(vec![]),
        StatementOutcome::Failed("boom".to_string()),
    ];
    for o in outcomes {
        let rec = journal_execution(1, 1, "q", &o, 0, "t");
        let is_ok = matches!(rec.outcome, ExecutionOutcome::Success(_));
        assert!(rec.history.sql.starts_with("INSERT INTO query_history"));
        assert_eq!(rec.history.sql.contains("'success'"), is_ok);
        assert_eq!(rec.history.sql.contains("'error'"), !is_ok);
        assert_eq!(
            rec.history.sql.chars().filter(|c| *c == '?').count(),
            rec.history.params.len()
        );
    }
}
