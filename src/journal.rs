//! The record of one statement execution: the caller-visible outcome, the
//! history row that is always written for it, and the audit-log entry.

use vstd::prelude::*;
use vstd::string::*;

use crate::coercion::{coerce, coerce_spec, CanonicalValue, CanonicalView, CellProbe};
use crate::sql::{placeholder_count, placeholders_from, SqlValue, SqlValueView, Statement, StatementView};

verus! {

/// One row as the remote database returned it: the names of its columns and
/// what the probes found in each of its cells.
#[derive(Debug, Clone, PartialEq, Eq)]
pub struct RawRow {
    pub column_names: Vec<String>,
    pub cells: Vec<CellProbe>,
}

/// What the remote database answered to a statement.
#[derive(Debug, Clone, PartialEq, Eq)]
pub enum StatementOutcome {
    Rows(Vec<RawRow>),
    Failed(String),
}

/// The rows of a successful execution in canonical form.
#[derive(Debug, Clone, PartialEq, Eq)]
pub struct QueryResult {
    pub columns: Vec<String>,
    pub rows: Vec<Vec<CanonicalValue>>,
    pub execution_time_ms: u64,
    pub row_count: u64,
}

pub struct QueryResultView {
    pub columns: Seq<Seq<char>>,
    pub rows: Seq<Seq<CanonicalView>>,
    pub execution_time_ms: u64,
    pub row_count: nat,
}

pub open spec fn strings_view(v: Seq<String>) -> Seq<Seq<char>> {
    v.map_values(|s: String| s@)
}

pub open spec fn values_view(v: Seq<CanonicalValue>) -> Seq<CanonicalView> {
    v.map_values(|c: CanonicalValue| c@)
}

impl View for QueryResult {
    type V = QueryResultView;

    open spec fn view(&self) -> QueryResultView {
        QueryResultView {
            columns: strings_view(self.columns@),
            rows: self.rows@.map_values(|r: Vec<CanonicalValue>| values_view(r@)),
            execution_time_ms: self.execution_time_ms,
            row_count: self.row_count as nat,
        }
    }
}

/// The canonical values of one row, cell by cell.
pub open spec fn coerce_row_spec(cells: Seq<CellProbe>) -> Seq<CanonicalView> {
    cells.map_values(|c: CellProbe| coerce_spec(c@))
}

/// Column names come from the first row only; every row is coerced cell by
/// cell; the row count is the number of rows.
pub open spec fn query_result_spec(rows: Seq<RawRow>, duration_ms: u64) -> QueryResultView {
    QueryResultView {
        columns: if rows.len() > 0 {
            strings_view(rows[0].column_names@)
        } else {
            Seq::empty()
        },
        rows: Seq::new(rows.len(), |i: int| coerce_row_spec(rows[i].cells@)),
        execution_time_ms: duration_ms,
        row_count: rows.len(),
    }
}

fn copy_strings(v: &Vec<String>) -> (r: Vec<String>)
    ensures
        strings_view(r@) == strings_view(v@),
{
    let mut r: Vec<String> = Vec::new();
    let mut i: usize = 0;
    while i < v.len()
        invariant
            i <= v.len(),
            strings_view(r@) == strings_view(v@.subrange(0, i as int)),
        decreases v.len() - i,
    {
        let ghost before = r@;
        r.push(v[i].clone());
        assert(strings_view(r@) =~= strings_view(before).push(v@[i as int]@));
        assert(v@.subrange(0, i + 1) =~= v@.subrange(0, i as int).push(v@[i as int]));
        i = i + 1;
    }
    assert(v@.subrange(0, i as int) =~= v@);
    r
}

/// The canonical values of the cells of one row.
pub fn coerce_row(cells: &Vec<CellProbe>) -> (r: Vec<CanonicalValue>)
    ensures
        values_view(r@) == coerce_row_spec(cells@),
{
    let mut r: Vec<CanonicalValue> = Vec::new();
    let mut i: usize = 0;
    while i < cells.len()
        invariant
            i <= cells.len(),
            values_view(r@) == coerce_row_spec(cells@.subrange(0, i as int)),
        decreases cells.len() - i,
    {
        let ghost before = r@;
        let v = coerce(&cells[i]);
        r.push(v);
        assert(values_view(r@) =~= values_view(before).push(v@));
        assert(cells@.subrange(0, i + 1) =~= cells@.subrange(0, i as int).push(cells@[i as int]));
        i = i + 1;
    }
    assert(cells@.subrange(0, i as int) =~= cells@);
    r
}

/// Assembles the result of a successful execution from the rows returned.
pub fn build_query_result(rows: &Vec<RawRow>, duration_ms: u64) -> (r: QueryResult)
    ensures
        r@ == query_result_spec(rows@, duration_ms),
{
    let columns = if rows.len() > 0 {
        copy_strings(&rows[0].column_names)
    } else {
        Vec::new()
    };
    let mut out: Vec<Vec<CanonicalValue>> = Vec::new();
    let mut i: usize = 0;
    while i < rows.len()
        invariant
            i <= rows.len(),
            out@.len() == i,
            forall|k: int|
                0 <= k < i ==> #[trigger] values_view(out@[k]@) == coerce_row_spec(rows@[k].cells@),
        decreases rows.len() - i,
    {
        let row = coerce_row(&rows[i].cells);
        out.push(row);
        i = i + 1;
    }
    let r = QueryResult {
        columns,
        rows: out,
        execution_time_ms: duration_ms,
        row_count: rows.len() as u64,
    };
    assert(r@.rows =~= query_result_spec(rows@, duration_ms).rows);
    assert(r@.columns =~= query_result_spec(rows@, duration_ms).columns);
    r
}

pub const PREVIEW_MAX_CHARS: usize = 50;

pub const PREVIEW_KEPT_CHARS: usize = 47;

pub const ELLIPSIS: &'static str = "...";

/// A statement as the audit log shows it: verbatim up to 50 characters,
/// otherwise its first 47 characters and an ellipsis.
pub open spec fn preview_spec(q: Seq<char>) -> Seq<char> {
    if q.len() > PREVIEW_MAX_CHARS {
        q.subrange(0, PREVIEW_KEPT_CHARS as int) + ELLIPSIS@
    } else {
        q
    }
}

/// The short form of a statement that the audit log records.
pub fn statement_preview(query_text: &str) -> (r: String)
    ensures
        r@ == preview_spec(query_text@),
{
    if query_text.unicode_len() > PREVIEW_MAX_CHARS {
        let mut r = String::from_str(query_text.substring_char(0, PREVIEW_KEPT_CHARS));
        r.append(ELLIPSIS);
        r
    } else {
        String::from_str(query_text)
    }
}

pub const LOG_ACTION_SQL: &'static str = "INSERT INTO app_user_logs (user_id, action_type, details) VALUES (?, ?, ?)";

pub const EXECUTE_QUERY_ACTION: &'static str = "EXECUTE_QUERY";

pub const QUERY_ERROR_ACTION: &'static str = "QUERY_ERROR";

pub open spec fn optional_details_view(details: Option<Seq<char>>) -> SqlValueView {
    match details {
        Some(d) => SqlValueView::Text(d),
        None => SqlValueView::Null,
    }
}

/// The audit-log insert for one action of a user.
pub open spec fn log_action_spec(
    user_id: i64,
    action_type: Seq<char>,
    details: Option<Seq<char>>,
) -> StatementView {
    StatementView {
        sql: LOG_ACTION_SQL@,
        params: seq![
            SqlValueView::Integer(user_id as int),
            SqlValueView::Text(action_type),
            optional_details_view(details),
        ],
    }
}

pub open spec fn optional_str_view(details: Option<&str>) -> Option<Seq<char>> {
    match details {
        Some(d) => Some(d@),
        None => None,
    }
}

/// The statement that appends an entry to a user's audit log.
pub fn log_action_statement(user_id: i64, action_type: &str, details: Option<&str>) -> (r: Statement)
    ensures
        r@ == log_action_spec(user_id, action_type@, optional_str_view(details)),
{
    let mut r = Statement::new(LOG_ACTION_SQL);
    r.bind(SqlValue::Integer(user_id));
    r.bind(SqlValue::Text(String::from_str(action_type)));
    match details {
        Some(d) => r.bind(SqlValue::Text(String::from_str(d))),
        None => r.bind(SqlValue::Null),
    }
    assert(r@.params =~= log_action_spec(user_id, action_type@, optional_str_view(details)).params);
    r
}

pub const SUCCESS_HISTORY_SQL: &'static str = "INSERT INTO query_history (connection_id, query_text, status, execution_time_ms, executed_at) VALUES (?, ?, 'success', ?, ?)";

pub const ERROR_HISTORY_SQL: &'static str = "INSERT INTO query_history (connection_id, query_text, status, execution_time_ms, error_message, executed_at) VALUES (?, ?, 'error', ?, ?, ?)";

/// The duration as the history row stores it: a signed 64-bit count of
/// milliseconds, saturating at its maximum.
pub open spec fn stored_duration(duration_ms: u64) -> int {
    if duration_ms > i64::MAX as u64 {
        i64::MAX as int
    } else {
        duration_ms as int
    }
}

/// The history insert for one execution: tagged `success` when `error` is
/// absent, else `error` with the message.
pub open spec fn history_spec(
    connection_id: i64,
    query_text: Seq<char>,
    error: Option<Seq<char>>,
    duration_ms: u64,
    executed_at: Seq<char>,
) -> StatementView {
    match error {
        None => StatementView {
            sql: SUCCESS_HISTORY_SQL@,
            params: seq![
                SqlValueView::Integer(connection_id as int),
                SqlValueView::Text(query_text),
                SqlValueView::Integer(stored_duration(duration_ms)),
                SqlValueView::Text(executed_at),
            ],
        },
        Some(message) => StatementView {
            sql: ERROR_HISTORY_SQL@,
            params: seq![
                SqlValueView::Integer(connection_id as int),
                SqlValueView::Text(query_text),
                SqlValueView::Integer(stored_duration(duration_ms)),
                SqlValueView::Text(message),
                SqlValueView::Text(executed_at),
            ],
        },
    }
}

fn duration_value(duration_ms: u64) -> (r: SqlValue)
    ensures
        r@ == SqlValueView::Integer(stored_duration(duration_ms)),
{
    if duration_ms > i64::MAX as u64 {
        SqlValue::Integer(i64::MAX)
    } else {
        SqlValue::Integer(duration_ms as i64)
    }
}

/// The statement that records one execution in the query history.
pub fn history_statement(
    connection_id: i64,
    query_text: &str,
    error: Option<&str>,
    duration_ms: u64,
    executed_at: &str,
) -> (r: Statement)
    ensures
        r@ == history_spec(
            connection_id,
            query_text@,
            optional_str_view(error),
            duration_ms,
            executed_at@,
        ),
{
    let mut r = match error {
        None => Statement::new(SUCCESS_HISTORY_SQL),
        Some(_) => Statement::new(ERROR_HISTORY_SQL),
    };
    r.bind(SqlValue::Integer(connection_id));
    r.bind(SqlValue::Text(String::from_str(query_text)));
    r.bind(duration_value(duration_ms));
    if let Some(message) = error {
        r.bind(SqlValue::Text(String::from_str(message)));
    }
    r.bind(SqlValue::Text(String::from_str(executed_at)));
    assert(r@.params =~= history_spec(
        connection_id,
        query_text@,
        optional_str_view(error),
        duration_ms,
        executed_at@,
    ).params);
    r
}

/// The outcome of one execution attempt: the rows in canonical form, or the
/// database's message verbatim; either way, how long the statement took.
#[derive(Debug, Clone, PartialEq, Eq)]
pub enum ExecutionOutcome {
    Success(QueryResult),
    Failure { message: String, duration_ms: u64 },
}

/// One execution as the journal keeps it: the outcome handed to the caller,
/// and the two writes that follow it, made in this order and whose failure
/// never changes the outcome.
#[derive(Debug, PartialEq, Eq)]
pub struct ExecutionRecord {
    pub outcome: ExecutionOutcome,
    pub history: Statement,
    pub audit: Statement,
}

/// Journals one execution of `query_text` on the connection `connection_id`
/// of user `user_id`. A failed statement is an outcome like any other: its
/// message goes verbatim to the caller, the history row and the audit log.
pub fn journal_execution(
    connection_id: i64,
    user_id: i64,
    query_text: &str,
    outcome: &StatementOutcome,
    duration_ms: u64,
    executed_at: &str,
) -> (r: ExecutionRecord)
    ensures
        match outcome {
            StatementOutcome::Rows(rows) => {
                &&& r.outcome matches ExecutionOutcome::Success(q) && q@ == query_result_spec(
                    rows@,
                    duration_ms,
                )
                &&& r.history@ == history_spec(
                    connection_id,
                    query_text@,
                    None,
                    duration_ms,
                    executed_at@,
                )
                &&& r.audit@ == log_action_spec(
                    user_id,
                    EXECUTE_QUERY_ACTION@,
                    Some(preview_spec(query_text@)),
                )
            },
            StatementOutcome::Failed(message) => {
                &&& r.outcome matches ExecutionOutcome::Failure { message: m, duration_ms: d } && m@
                    == message@ && d == duration_ms
                &&& r.history@ == history_spec(
                    connection_id,
                    query_text@,
                    Some(message@),
                    duration_ms,
                    executed_at@,
                )
                &&& r.audit@ == log_action_spec(user_id, QUERY_ERROR_ACTION@, Some(message@))
            },
        },
{
    match outcome {
        StatementOutcome::Rows(rows) => {
            let result = build_query_result(rows, duration_ms);
            let history = history_statement(connection_id, query_text, None, duration_ms, executed_at);
            let preview = statement_preview(query_text);
            let audit = log_action_statement(user_id, EXECUTE_QUERY_ACTION, Some(preview.as_str()));
            ExecutionRecord { outcome: ExecutionOutcome::Success(result), history, audit }
        },
        StatementOutcome::Failed(message) => {
            let history = history_statement(
                connection_id,
                query_text,
                Some(message.as_str()),
                duration_ms,
                executed_at,
            );
            let audit = log_action_statement(user_id, QUERY_ERROR_ACTION, Some(message.as_str()));
            ExecutionRecord {
                outcome: ExecutionOutcome::Failure { message: message.clone(), duration_ms },
                history,
                audit,
            }
        },
    }
}

proof fn lemma_journal_literal_placeholders()
    ensures
        placeholder_count(SUCCESS_HISTORY_SQL@) == 4,
        placeholder_count(ERROR_HISTORY_SQL@) == 5,
        placeholder_count(LOG_ACTION_SQL@) == 3,
{
    reveal_strlit("INSERT INTO query_history (connection_id, query_text, status, execution_time_ms, executed_at) VALUES (?, ?, 'success', ?, ?)");
    reveal_strlit("INSERT INTO query_history (connection_id, query_text, status, execution_time_ms, error_message, executed_at) VALUES (?, ?, 'error', ?, ?, ?)");
    reveal_strlit("INSERT INTO app_user_logs (user_id, action_type, details) VALUES (?, ?, ?)");
    reveal_with_fuel(placeholders_from, 34);
    assert(placeholders_from(SUCCESS_HISTORY_SQL@, 96) == 4);
    assert(placeholders_from(SUCCESS_HISTORY_SQL@, 64) == 4);
    assert(placeholders_from(SUCCESS_HISTORY_SQL@, 32) == 4);
    assert(placeholders_from(SUCCESS_HISTORY_SQL@, 0) == 4);
    assert(placeholders_from(ERROR_HISTORY_SQL@, 128) == 3);
    assert(placeholders_from(ERROR_HISTORY_SQL@, 96) == 5);
    assert(placeholders_from(ERROR_HISTORY_SQL@, 64) == 5);
    assert(placeholders_from(ERROR_HISTORY_SQL@, 32) == 5);
    assert(placeholders_from(ERROR_HISTORY_SQL@, 0) == 5);
    assert(placeholders_from(LOG_ACTION_SQL@, 64) == 3);
    assert(placeholders_from(LOG_ACTION_SQL@, 32) == 3);
    assert(placeholders_from(LOG_ACTION_SQL@, 0) == 3);
}

/// Every execution, whatever its outcome, yields exactly one history row:
/// tagged `success` with no message when the statement ran, tagged `error`
/// with the message when it failed; and the audit entry carries the preview
/// or the message. Each statement binds one value per placeholder.
pub proof fn lemma_one_history_row_per_execution(
    connection_id: i64,
    user_id: i64,
    query_text: Seq<char>,
    error: Option<Seq<char>>,
    duration_ms: u64,
    executed_at: Seq<char>,
)
    ensures
        ({
            let h = history_spec(connection_id, query_text, error, duration_ms, executed_at);
            &&& error is None ==> h.sql == SUCCESS_HISTORY_SQL@ && h.params.len() == 4
            &&& error is Some ==> h.sql == ERROR_HISTORY_SQL@ && h.params.len() == 5
                && h.params[3] == SqlValueView::Text(error->0)
            &&& h.params[2] == SqlValueView::Integer(stored_duration(duration_ms))
            &&& stored_duration(duration_ms) >= 0
            &&& placeholder_count(h.sql) == h.params.len()
        }),
        placeholder_count(log_action_spec(user_id, EXECUTE_QUERY_ACTION@, Some(preview_spec(query_text))).sql)
            == log_action_spec(user_id, EXECUTE_QUERY_ACTION@, Some(preview_spec(query_text))).params.len(),
{
    lemma_journal_literal_placeholders();
}

} // verus!
