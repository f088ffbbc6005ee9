//! Filtered, sorted and paginated list queries over the metadata store.
//!
//! A filter adds its clause, and its bound value, only when it is present
//! (and, for text, non-empty). User text never enters the SQL: it is bound.

use vstd::prelude::*;
use vstd::string::*;

use crate::requests::GetQueryHistoryRequest;
use crate::sql::{
    lemma_placeholder_count_concat, placeholder_count, placeholders_from, SqlValue, SqlValueView,
    Statement, StatementView,
};

verus! {

pub const ORDER_BY: &'static str = " ORDER BY ";

pub const WILDCARD: &'static str = "%";

pub const ALL_STATUSES: &'static str = "all";

pub const HISTORY_BASE: &'static str = "SELECT qh.* FROM query_history qh\n         JOIN connections c ON qh.connection_id = c.connection_id\n         WHERE c.user_id = ?";

pub const HISTORY_STATUS_FILTER: &'static str = " AND qh.status = ?";

pub const HISTORY_FROM_FILTER: &'static str = " AND qh.executed_at >= ?";

pub const HISTORY_UNTIL_FILTER: &'static str = " AND qh.executed_at <= ?";

pub const HISTORY_SEARCH_RANK: &'static str = "(qh.query_text LIKE ?) DESC, ";

pub const HISTORY_NEWEST_FIRST: &'static str = "qh.executed_at DESC";

pub const HISTORY_OLDEST_FIRST: &'static str = "qh.executed_at ASC";

pub const PAGINATION: &'static str = " LIMIT ? OFFSET ?";

/// `text` when `present`, nothing otherwise.
pub open spec fn clause_when(present: bool, text: Seq<char>) -> Seq<char> {
    if present {
        text
    } else {
        Seq::empty()
    }
}

/// `value` when `present`, nothing otherwise.
pub open spec fn param_when(present: bool, value: SqlValueView) -> Seq<SqlValueView> {
    if present {
        seq![value]
    } else {
        Seq::empty()
    }
}

/// A text filter counts as given when it is present and non-empty.
pub open spec fn is_given(v: Option<String>) -> bool {
    v is Some && v->0@.len() > 0
}

/// The text of a filter that is given.
pub open spec fn given_text(v: Option<String>) -> Seq<char> {
    v->0@
}

/// The pattern that matches any text containing `term`.
pub open spec fn like_pattern_spec(term: Seq<char>) -> Seq<char> {
    WILDCARD@ + term + WILDCARD@
}

/// A status filter applies unless it is absent, empty or `all`.
pub open spec fn has_status_filter(r: GetQueryHistoryRequest) -> bool {
    is_given(r.status_filter) && r.status_filter->0@ != ALL_STATUSES@
}

/// History is listed newest first unless the caller asks otherwise.
pub open spec fn history_newest_first(r: GetQueryHistoryRequest) -> bool {
    match r.sort_desc {
        Some(d) => d,
        None => true,
    }
}

pub open spec fn history_where(r: GetQueryHistoryRequest) -> Seq<char> {
    clause_when(has_status_filter(r), HISTORY_STATUS_FILTER@)
        + clause_when(is_given(r.start_date), HISTORY_FROM_FILTER@)
        + clause_when(is_given(r.end_date), HISTORY_UNTIL_FILTER@)
}

pub open spec fn history_order(r: GetQueryHistoryRequest) -> Seq<char> {
    ORDER_BY@ + clause_when(is_given(r.search_query), HISTORY_SEARCH_RANK@) + (if history_newest_first(
        r,
    ) {
        HISTORY_NEWEST_FIRST@
    } else {
        HISTORY_OLDEST_FIRST@
    })
}

/// The history listing: the user's rows, narrowed by the filters given,
/// ranked with search matches first, then by execution time, then paged.
pub open spec fn history_sql(r: GetQueryHistoryRequest) -> Seq<char> {
    HISTORY_BASE@ + history_where(r) + history_order(r) + PAGINATION@
}

/// The values bound to the history listing, in placeholder order.
pub open spec fn history_params(r: GetQueryHistoryRequest) -> Seq<SqlValueView> {
    seq![SqlValueView::Integer(r.user_id as int)]
        + param_when(has_status_filter(r), SqlValueView::Text(given_text(r.status_filter)))
        + param_when(is_given(r.start_date), SqlValueView::Text(given_text(r.start_date)))
        + param_when(is_given(r.end_date), SqlValueView::Text(given_text(r.end_date)))
        + param_when(
        is_given(r.search_query),
        SqlValueView::Text(like_pattern_spec(given_text(r.search_query))),
    ) + seq![SqlValueView::Integer(r.limit as int), SqlValueView::Integer(r.offset as int)]
}

pub open spec fn history_spec(r: GetQueryHistoryRequest) -> StatementView {
    StatementView { sql: history_sql(r), params: history_params(r) }
}

fn given(v: &Option<String>) -> (b: bool)
    ensures
        b == is_given(*v),
{
    match v {
        Some(s) => !s.as_str().is_empty(),
        None => false,
    }
}

fn like_pattern(term: &String) -> (r: String)
    ensures
        r@ == like_pattern_spec(term@),
{
    let mut r = String::from_str(WILDCARD);
    r.append(term.as_str());
    r.append(WILDCARD);
    r
}

fn status_filter_applies(v: &Option<String>) -> (b: bool)
    ensures
        b == (is_given(*v) && v->0@ != ALL_STATUSES@),
{
    match v {
        Some(s) => {
            let all = String::from_str(ALL_STATUSES);
            !s.as_str().is_empty() && !(*s == all)
        },
        None => false,
    }
}

/// Binds the text of `v` when `present`.
fn bind_text_when(r: &mut Statement, present: bool, v: &Option<String>)
    requires
        present ==> v is Some,
    ensures
        final(r)@.sql == old(r)@.sql,
        final(r)@.params == old(r)@.params + param_when(present, SqlValueView::Text(v->0@)),
{
    if present {
        if let Some(s) = v {
            r.bind(SqlValue::Text(s.clone()));
        }
    }
    assert(final(r)@.params =~= old(r)@.params + param_when(present, SqlValueView::Text(v->0@)));
}

/// Binds the search pattern for `v` when `present`.
fn bind_pattern_when(r: &mut Statement, present: bool, v: &Option<String>)
    requires
        present ==> v is Some,
    ensures
        final(r)@.sql == old(r)@.sql,
        final(r)@.params == old(r)@.params + param_when(
            present,
            SqlValueView::Text(like_pattern_spec(v->0@)),
        ),
{
    if present {
        if let Some(s) = v {
            r.bind(SqlValue::Text(like_pattern(s)));
        }
    }
    assert(final(r)@.params =~= old(r)@.params + param_when(
        present,
        SqlValueView::Text(like_pattern_spec(v->0@)),
    ));
}

/// Appends `text` when `present`.
fn push_sql_when(r: &mut Statement, present: bool, text: &str)
    ensures
        final(r)@.sql == old(r)@.sql + clause_when(present, text@),
        final(r)@.params == old(r)@.params,
{
    if present {
        r.push_sql(text);
    }
    assert(final(r)@.sql =~= old(r)@.sql + clause_when(present, text@));
}

fn push_history_where(r: &mut Statement, request: &GetQueryHistoryRequest)
    ensures
        final(r)@.sql == old(r)@.sql + history_where(*request),
        final(r)@.params == old(r)@.params,
{
    push_sql_when(r, status_filter_applies(&request.status_filter), HISTORY_STATUS_FILTER);
    push_sql_when(r, given(&request.start_date), HISTORY_FROM_FILTER);
    push_sql_when(r, given(&request.end_date), HISTORY_UNTIL_FILTER);
    assert(final(r)@.sql =~= old(r)@.sql + history_where(*request));
}

fn push_history_order(r: &mut Statement, request: &GetQueryHistoryRequest)
    ensures
        final(r)@.sql == old(r)@.sql + history_order(*request),
        final(r)@.params == old(r)@.params,
{
    r.push_sql(ORDER_BY);
    push_sql_when(r, given(&request.search_query), HISTORY_SEARCH_RANK);
    let newest_first = match request.sort_desc {
        Some(d) => d,
        None => true,
    };
    if newest_first {
        r.push_sql(HISTORY_NEWEST_FIRST);
    } else {
        r.push_sql(HISTORY_OLDEST_FIRST);
    }
    assert(final(r)@.sql =~= old(r)@.sql + history_order(*request));
}

fn push_history_sql(r: &mut Statement, request: &GetQueryHistoryRequest)
    ensures
        final(r)@.sql == old(r)@.sql + history_where(*request) + history_order(*request)
            + PAGINATION@,
        final(r)@.params == old(r)@.params,
{
    push_history_where(r, request);
    push_history_order(r, request);
    r.push_sql(PAGINATION);
}

fn bind_history_params(r: &mut Statement, request: &GetQueryHistoryRequest)
    ensures
        final(r)@.sql == old(r)@.sql,
        final(r)@.params == old(r)@.params + history_params(*request),
{
    r.bind(SqlValue::Integer(request.user_id));
    bind_text_when(r, status_filter_applies(&request.status_filter), &request.status_filter);
    bind_text_when(r, given(&request.start_date), &request.start_date);
    bind_text_when(r, given(&request.end_date), &request.end_date);
    bind_pattern_when(r, given(&request.search_query), &request.search_query);
    r.bind(SqlValue::Integer(request.limit));
    r.bind(SqlValue::Integer(request.offset));
    assert(final(r)@.params =~= old(r)@.params + history_params(*request));
}

/// The statement that lists one page of a user's query history.
pub fn query_history_statement(request: &GetQueryHistoryRequest) -> (r: Statement)
    ensures
        r@ == history_spec(*request),
{
    let mut r = Statement::new(HISTORY_BASE);
    push_history_sql(&mut r, request);
    bind_history_params(&mut r, request);
    assert(r@.sql =~= history_sql(*request));
    assert(r@.params =~= history_params(*request));
    r
}

pub const PINNED_BASE: &'static str = "SELECT pq.* FROM pinned_queries pq\n         JOIN connections c ON pq.connection_id = c.connection_id\n         WHERE c.user_id = ?";

pub const PINNED_SEARCH_RANK: &'static str = "(pq.query_name LIKE ?) DESC, ";

pub const PINNED_OLDEST_FIRST: &'static str = "pq.created_at ASC";

pub const PINNED_NEWEST_FIRST: &'static str = "pq.created_at DESC";

/// Pinned queries are listed oldest first unless the caller asks otherwise.
pub open spec fn pinned_oldest_first(sort_asc: Option<bool>) -> bool {
    match sort_asc {
        Some(a) => a,
        None => true,
    }
}

/// The pinned queries of a user, those whose name matches the search first,
/// then by creation time.
pub open spec fn pinned_sql(search_query: Option<String>, sort_asc: Option<bool>) -> Seq<char> {
    PINNED_BASE@ + ORDER_BY@ + clause_when(is_given(search_query), PINNED_SEARCH_RANK@) + (
    if pinned_oldest_first(sort_asc) {
        PINNED_OLDEST_FIRST@
    } else {
        PINNED_NEWEST_FIRST@
    })
}

pub open spec fn pinned_params(user_id: i64, search_query: Option<String>) -> Seq<SqlValueView> {
    seq![SqlValueView::Integer(user_id as int)] + param_when(
        is_given(search_query),
        SqlValueView::Text(like_pattern_spec(given_text(search_query))),
    )
}

pub open spec fn pinned_spec(
    user_id: i64,
    search_query: Option<String>,
    sort_asc: Option<bool>,
) -> StatementView {
    StatementView {
        sql: pinned_sql(search_query, sort_asc),
        params: pinned_params(user_id, search_query),
    }
}

/// The statement that lists a user's pinned queries.
pub fn pinned_queries_statement(
    user_id: i64,
    search_query: &Option<String>,
    sort_asc: Option<bool>,
) -> (r: Statement)
    ensures
        r@ == pinned_spec(user_id, *search_query, sort_asc),
{
    let has_search = given(search_query);
    let mut r = Statement::new(PINNED_BASE);
    r.push_sql(ORDER_BY);
    push_sql_when(&mut r, has_search, PINNED_SEARCH_RANK);
    let oldest_first = match sort_asc {
        Some(a) => a,
        None => true,
    };
    if oldest_first {
        r.push_sql(PINNED_OLDEST_FIRST);
    } else {
        r.push_sql(PINNED_NEWEST_FIRST);
    }
    r.bind(SqlValue::Integer(user_id));
    bind_pattern_when(&mut r, has_search, search_query);
    assert(r@.sql =~= pinned_sql(*search_query, sort_asc));
    assert(r@.params =~= pinned_params(user_id, *search_query));
    r
}

pub const CONNECTIONS_BASE: &'static str = "SELECT * FROM connections WHERE user_id = ?";

pub const TAG_FILTER_OPEN: &'static str = " AND connection_id IN (SELECT connection_id FROM connection_tags WHERE tag_id IN (";

pub const TAG_FILTER_CLOSE: &'static str = "))";

pub const FIRST_PLACEHOLDER: &'static str = "?";

pub const NEXT_PLACEHOLDER: &'static str = ", ?";

/// `n` placeholders separated by commas.
pub open spec fn placeholder_list(n: nat) -> Seq<char>
    decreases n,
{
    if n == 0 {
        Seq::empty()
    } else if n == 1 {
        FIRST_PLACEHOLDER@
    } else {
        placeholder_list((n - 1) as nat) + NEXT_PLACEHOLDER@
    }
}

/// A tag filter applies when it is present and names at least one tag.
pub open spec fn has_tag_filter(with_tags: Option<Vec<i64>>) -> bool {
    with_tags is Some && with_tags->0@.len() > 0
}

pub open spec fn tag_ids(with_tags: Option<Vec<i64>>) -> Seq<i64> {
    with_tags->0@
}

/// The connections of a user; with a tag filter, only those carrying at
/// least one of the tags.
pub open spec fn connections_sql(with_tags: Option<Vec<i64>>) -> Seq<char> {
    CONNECTIONS_BASE@ + clause_when(
        has_tag_filter(with_tags),
        TAG_FILTER_OPEN@ + placeholder_list(tag_ids(with_tags).len()) + TAG_FILTER_CLOSE@,
    )
}

pub open spec fn integer_params(ids: Seq<i64>) -> Seq<SqlValueView> {
    ids.map_values(|t: i64| SqlValueView::Integer(t as int))
}

pub open spec fn connections_params(user_id: i64, with_tags: Option<Vec<i64>>) -> Seq<
    SqlValueView,
> {
    seq![SqlValueView::Integer(user_id as int)] + if has_tag_filter(with_tags) {
        integer_params(tag_ids(with_tags))
    } else {
        Seq::empty()
    }
}

pub open spec fn connections_spec(user_id: i64, with_tags: Option<Vec<i64>>) -> StatementView {
    StatementView {
        sql: connections_sql(with_tags),
        params: connections_params(user_id, with_tags),
    }
}

/// Appends one placeholder per tag and binds the tags in the same order.
fn push_tag_list(r: &mut Statement, tags: &Vec<i64>)
    ensures
        final(r)@.sql == old(r)@.sql + placeholder_list(tags@.len()),
        final(r)@.params == old(r)@.params + integer_params(tags@),
{
    let mut i: usize = 0;
    while i < tags.len()
        invariant
            i <= tags.len(),
            r@.sql == old(r)@.sql + placeholder_list(i as nat),
            r@.params == old(r)@.params + integer_params(tags@.subrange(0, i as int)),
        decreases tags.len() - i,
    {
        if i == 0 {
            r.push_sql(FIRST_PLACEHOLDER);
        } else {
            r.push_sql(NEXT_PLACEHOLDER);
        }
        r.bind(SqlValue::Integer(tags[i]));
        assert(tags@.subrange(0, i + 1) =~= tags@.subrange(0, i as int).push(tags@[i as int]));
        assert(integer_params(tags@.subrange(0, i + 1)) =~= integer_params(
            tags@.subrange(0, i as int),
        ).push(SqlValueView::Integer(tags@[i as int] as int)));
        assert(r@.params =~= old(r)@.params + integer_params(tags@.subrange(0, i + 1)));
        assert(r@.sql =~= old(r)@.sql + placeholder_list((i + 1) as nat));
        i = i + 1;
    }
    assert(tags@.subrange(0, i as int) =~= tags@);
}

/// The statement that lists a user's connections, optionally only those
/// tagged with one of `with_tags`.
pub fn connections_statement(user_id: i64, with_tags: &Option<Vec<i64>>) -> (r: Statement)
    ensures
        r@ == connections_spec(user_id, *with_tags),
{
    let mut r = Statement::new(CONNECTIONS_BASE);
    r.bind(SqlValue::Integer(user_id));
    match with_tags {
        Some(tags) => {
            if tags.len() > 0 {
                r.push_sql(TAG_FILTER_OPEN);
                push_tag_list(&mut r, tags);
                r.push_sql(TAG_FILTER_CLOSE);
            }
        },
        None => {},
    }
    assert(r@.sql =~= connections_sql(*with_tags));
    assert(r@.params =~= connections_params(user_id, *with_tags));
    r
}

pub const APP_USERS_BASE: &'static str = "SELECT * FROM app_users";

pub const APP_USERS_SEARCH_RANK: &'static str = "(LOWER(username) LIKE LOWER(?)) DESC, ";

pub const USERNAME_ASC: &'static str = "username ASC";

/// All users by name, those whose name contains the search term first.
pub open spec fn app_users_spec(username_search: Option<String>) -> StatementView {
    StatementView {
        sql: APP_USERS_BASE@ + ORDER_BY@ + clause_when(
            is_given(username_search),
            APP_USERS_SEARCH_RANK@,
        ) + USERNAME_ASC@,
        params: param_when(
            is_given(username_search),
            SqlValueView::Text(like_pattern_spec(given_text(username_search))),
        ),
    }
}

/// The statement that lists the users of the application.
pub fn app_users_statement(username_search: &Option<String>) -> (r: Statement)
    ensures
        r@ == app_users_spec(*username_search),
{
    let has_search = given(username_search);
    let mut r = Statement::new(APP_USERS_BASE);
    r.push_sql(ORDER_BY);
    push_sql_when(&mut r, has_search, APP_USERS_SEARCH_RANK);
    r.push_sql(USERNAME_ASC);
    bind_pattern_when(&mut r, has_search, username_search);
    assert(r@.sql =~= app_users_spec(*username_search).sql);
    assert(r@.params =~= app_users_spec(*username_search).params);
    r
}

proof fn lemma_history_literal_placeholders()
    ensures
        placeholder_count(ORDER_BY@) == 0,
        placeholder_count(HISTORY_BASE@) == 1,
        placeholder_count(HISTORY_STATUS_FILTER@) == 1,
        placeholder_count(HISTORY_FROM_FILTER@) == 1,
        placeholder_count(HISTORY_UNTIL_FILTER@) == 1,
        placeholder_count(HISTORY_SEARCH_RANK@) == 1,
        placeholder_count(HISTORY_NEWEST_FIRST@) == 0,
        placeholder_count(HISTORY_OLDEST_FIRST@) == 0,
        placeholder_count(PAGINATION@) == 2,
{
    reveal_strlit(" ORDER BY ");
    reveal_strlit("SELECT qh.* FROM query_history qh\n         JOIN connections c ON qh.connection_id = c.connection_id\n         WHERE c.user_id = ?");
    reveal_strlit(" AND qh.status = ?");
    reveal_strlit(" AND qh.executed_at >= ?");
    reveal_strlit(" AND qh.executed_at <= ?");
    reveal_strlit("(qh.query_text LIKE ?) DESC, ");
    reveal_strlit("qh.executed_at DESC");
    reveal_strlit("qh.executed_at ASC");
    reveal_strlit(" LIMIT ? OFFSET ?");
    reveal_with_fuel(placeholders_from, 66);
    assert(placeholders_from(ORDER_BY@, 0) == 0);
    assert(placeholders_from(HISTORY_BASE@, 64) == 1);
    assert(placeholders_from(HISTORY_BASE@, 0) == 1);
    assert(placeholders_from(HISTORY_STATUS_FILTER@, 0) == 1);
    assert(placeholders_from(HISTORY_FROM_FILTER@, 0) == 1);
    assert(placeholders_from(HISTORY_UNTIL_FILTER@, 0) == 1);
    assert(placeholders_from(HISTORY_SEARCH_RANK@, 0) == 1);
    assert(placeholders_from(HISTORY_NEWEST_FIRST@, 0) == 0);
    assert(placeholders_from(HISTORY_OLDEST_FIRST@, 0) == 0);
    assert(placeholders_from(PAGINATION@, 0) == 2);
}

proof fn lemma_pinned_literal_placeholders()
    ensures
        placeholder_count(ORDER_BY@) == 0,
        placeholder_count(PINNED_BASE@) == 1,
        placeholder_count(PINNED_SEARCH_RANK@) == 1,
        placeholder_count(PINNED_OLDEST_FIRST@) == 0,
        placeholder_count(PINNED_NEWEST_FIRST@) == 0,
{
    reveal_strlit(" ORDER BY ");
    reveal_strlit("SELECT pq.* FROM pinned_queries pq\n         JOIN connections c ON pq.connection_id = c.connection_id\n         WHERE c.user_id = ?");
    reveal_strlit("(pq.query_name LIKE ?) DESC, ");
    reveal_strlit("pq.created_at ASC");
    reveal_strlit("pq.created_at DESC");
    reveal_with_fuel(placeholders_from, 66);
    assert(placeholders_from(ORDER_BY@, 0) == 0);
    assert(placeholders_from(PINNED_BASE@, 128) == 1);
    assert(placeholders_from(PINNED_BASE@, 64) == 1);
    assert(placeholders_from(PINNED_BASE@, 0) == 1);
    assert(placeholders_from(PINNED_SEARCH_RANK@, 0) == 1);
    assert(placeholders_from(PINNED_OLDEST_FIRST@, 0) == 0);
    assert(placeholders_from(PINNED_NEWEST_FIRST@, 0) == 0);
}

proof fn lemma_connections_literal_placeholders()
    ensures
        placeholder_count(CONNECTIONS_BASE@) == 1,
        placeholder_count(TAG_FILTER_OPEN@) == 0,
        placeholder_count(TAG_FILTER_CLOSE@) == 0,
        placeholder_count(FIRST_PLACEHOLDER@) == 1,
        placeholder_count(NEXT_PLACEHOLDER@) == 1,
{
    reveal_strlit("SELECT * FROM connections WHERE user_id = ?");
    reveal_strlit(" AND connection_id IN (SELECT connection_id FROM connection_tags WHERE tag_id IN (");
    reveal_strlit("))");
    reveal_strlit("?");
    reveal_strlit(", ?");
    reveal_with_fuel(placeholders_from, 66);
    assert(placeholders_from(CONNECTIONS_BASE@, 0) == 1);
    assert(placeholders_from(TAG_FILTER_OPEN@, 64) == 0);
    assert(placeholders_from(TAG_FILTER_OPEN@, 0) == 0);
    assert(placeholders_from(TAG_FILTER_CLOSE@, 0) == 0);
    assert(placeholders_from(FIRST_PLACEHOLDER@, 0) == 1);
    assert(placeholders_from(NEXT_PLACEHOLDER@, 0) == 1);
}

proof fn lemma_app_users_literal_placeholders()
    ensures
        placeholder_count(ORDER_BY@) == 0,
        placeholder_count(APP_USERS_BASE@) == 0,
        placeholder_count(APP_USERS_SEARCH_RANK@) == 1,
        placeholder_count(USERNAME_ASC@) == 0,
{
    reveal_strlit(" ORDER BY ");
    reveal_strlit("SELECT * FROM app_users");
    reveal_strlit("(LOWER(username) LIKE LOWER(?)) DESC, ");
    reveal_strlit("username ASC");
    reveal_with_fuel(placeholders_from, 66);
    assert(placeholders_from(ORDER_BY@, 0) == 0);
    assert(placeholders_from(APP_USERS_BASE@, 0) == 0);
    assert(placeholders_from(APP_USERS_SEARCH_RANK@, 0) == 1);
    assert(placeholders_from(USERNAME_ASC@, 0) == 0);
}

proof fn lemma_clause_when_placeholders(present: bool, text: Seq<char>)
    ensures
        placeholder_count(clause_when(present, text)) == if present {
            placeholder_count(text)
        } else {
            0
        },
{
}

/// Number of history filters that are given.
pub open spec fn history_filter_count(r: GetQueryHistoryRequest) -> nat {
    (if has_status_filter(r) { 1nat } else { 0nat }) + (if is_given(r.start_date) {
        1nat
    } else {
        0nat
    }) + (if is_given(r.end_date) { 1nat } else { 0nat }) + (if is_given(r.search_query) {
        1nat
    } else {
        0nat
    })
}

/// The history listing binds one value per placeholder: the user, one value
/// per filter given, then the page size and offset.
pub proof fn lemma_history_params_match_placeholders(r: GetQueryHistoryRequest)
    ensures
        placeholder_count(history_sql(r)) == history_params(r).len(),
        history_params(r).len() == 3 + history_filter_count(r),
{
    lemma_history_literal_placeholders();
    let w1 = clause_when(has_status_filter(r), HISTORY_STATUS_FILTER@);
    let w2 = clause_when(is_given(r.start_date), HISTORY_FROM_FILTER@);
    let w3 = clause_when(is_given(r.end_date), HISTORY_UNTIL_FILTER@);
    let w4 = clause_when(is_given(r.search_query), HISTORY_SEARCH_RANK@);
    let dir = if history_newest_first(r) {
        HISTORY_NEWEST_FIRST@
    } else {
        HISTORY_OLDEST_FIRST@
    };
    lemma_clause_when_placeholders(has_status_filter(r), HISTORY_STATUS_FILTER@);
    lemma_clause_when_placeholders(is_given(r.start_date), HISTORY_FROM_FILTER@);
    lemma_clause_when_placeholders(is_given(r.end_date), HISTORY_UNTIL_FILTER@);
    lemma_clause_when_placeholders(is_given(r.search_query), HISTORY_SEARCH_RANK@);
    lemma_placeholder_count_concat(w1, w2);
    lemma_placeholder_count_concat(w1 + w2, w3);
    lemma_placeholder_count_concat(ORDER_BY@, w4);
    lemma_placeholder_count_concat(ORDER_BY@ + w4, dir);
    lemma_placeholder_count_concat(HISTORY_BASE@, history_where(r));
    lemma_placeholder_count_concat(HISTORY_BASE@ + history_where(r), history_order(r));
    lemma_placeholder_count_concat(
        HISTORY_BASE@ + history_where(r) + history_order(r),
        PAGINATION@,
    );
}

/// The pinned-query listing binds the user, then the search pattern when a
/// search term is given, one value per placeholder.
pub proof fn lemma_pinned_params_match_placeholders(
    user_id: i64,
    search_query: Option<String>,
    sort_asc: Option<bool>,
)
    ensures
        placeholder_count(pinned_sql(search_query, sort_asc)) == pinned_params(
            user_id,
            search_query,
        ).len(),
        pinned_params(user_id, search_query).len() == 1 + if is_given(search_query) {
            1nat
        } else {
            0nat
        },
{
    lemma_pinned_literal_placeholders();
    let w = clause_when(is_given(search_query), PINNED_SEARCH_RANK@);
    let dir = if pinned_oldest_first(sort_asc) {
        PINNED_OLDEST_FIRST@
    } else {
        PINNED_NEWEST_FIRST@
    };
    lemma_clause_when_placeholders(is_given(search_query), PINNED_SEARCH_RANK@);
    lemma_placeholder_count_concat(PINNED_BASE@, ORDER_BY@);
    lemma_placeholder_count_concat(PINNED_BASE@ + ORDER_BY@, w);
    lemma_placeholder_count_concat(PINNED_BASE@ + ORDER_BY@ + w, dir);
}

proof fn lemma_placeholder_list_count(n: nat)
    ensures
        placeholder_count(placeholder_list(n)) == n,
    decreases n,
{
    lemma_connections_literal_placeholders();
    if n > 1 {
        lemma_placeholder_list_count((n - 1) as nat);
        lemma_placeholder_count_concat(placeholder_list((n - 1) as nat), NEXT_PLACEHOLDER@);
    }
}

/// The connection listing binds the user, then each tag of a tag filter in
/// the order of its placeholders.
pub proof fn lemma_connections_params_match_placeholders(
    user_id: i64,
    with_tags: Option<Vec<i64>>,
)
    ensures
        placeholder_count(connections_sql(with_tags)) == connections_params(
            user_id,
            with_tags,
        ).len(),
        connections_params(user_id, with_tags).len() == 1 + if has_tag_filter(with_tags) {
            tag_ids(with_tags).len()
        } else {
            0
        },
{
    lemma_connections_literal_placeholders();
    let n = tag_ids(with_tags).len();
    let list = TAG_FILTER_OPEN@ + placeholder_list(n) + TAG_FILTER_CLOSE@;
    lemma_placeholder_list_count(n);
    lemma_placeholder_count_concat(TAG_FILTER_OPEN@, placeholder_list(n));
    lemma_placeholder_count_concat(TAG_FILTER_OPEN@ + placeholder_list(n), TAG_FILTER_CLOSE@);
    lemma_clause_when_placeholders(has_tag_filter(with_tags), list);
    lemma_placeholder_count_concat(
        CONNECTIONS_BASE@,
        clause_when(has_tag_filter(with_tags), list),
    );
}

/// The user listing binds the search pattern when, and only when, a search
/// term is given.
pub proof fn lemma_app_users_params_match_placeholders(username_search: Option<String>)
    ensures
        placeholder_count(app_users_spec(username_search).sql) == app_users_spec(
            username_search,
        ).params.len(),
        app_users_spec(username_search).params.len() == if is_given(username_search) {
            1nat
        } else {
            0nat
        },
{
    lemma_app_users_literal_placeholders();
    let w = clause_when(is_given(username_search), APP_USERS_SEARCH_RANK@);
    lemma_clause_when_placeholders(is_given(username_search), APP_USERS_SEARCH_RANK@);
    lemma_placeholder_count_concat(APP_USERS_BASE@, ORDER_BY@);
    lemma_placeholder_count_concat(APP_USERS_BASE@ + ORDER_BY@, w);
    lemma_placeholder_count_concat(APP_USERS_BASE@ + ORDER_BY@ + w, USERNAME_ASC@);
}

/// `s` with `piece` inserted at position `k`.
pub open spec fn inserted_at<A>(s: Seq<A>, k: nat, piece: Seq<A>) -> Seq<A> {
    s.subrange(0, k as int) + piece + s.subrange(k as int, s.len() as int)
}

proof fn lemma_inserted_between<A>(p: Seq<A>, m: Seq<A>, q: Seq<A>)
    ensures
        inserted_at(p + q, p.len(), m) == p + m + q,
{
    assert((p + q).subrange(0, p.len() as int) =~= p);
    assert((p + q).subrange(p.len() as int, (p + q).len() as int) =~= q);
    assert(inserted_at(p + q, p.len(), m) =~= p + m + q);
}

/// The history request without a status filter.
pub open spec fn without_status(r: GetQueryHistoryRequest) -> GetQueryHistoryRequest {
    GetQueryHistoryRequest { status_filter: None, ..r }
}

/// The history request without a lower bound on the execution time.
pub open spec fn without_start(r: GetQueryHistoryRequest) -> GetQueryHistoryRequest {
    GetQueryHistoryRequest { start_date: None, ..r }
}

/// The history request without an upper bound on the execution time.
pub open spec fn without_end(r: GetQueryHistoryRequest) -> GetQueryHistoryRequest {
    GetQueryHistoryRequest { end_date: None, ..r }
}

/// The history request without a search term.
pub open spec fn without_search(r: GetQueryHistoryRequest) -> GetQueryHistoryRequest {
    GetQueryHistoryRequest { search_query: None, ..r }
}

#[verifier::rlimit(40)]
proof fn lemma_history_status_clause(r: GetQueryHistoryRequest)
    ensures
        !has_status_filter(r) ==> history_spec(r) == history_spec(without_status(r)),
        history_sql(r) == inserted_at(
            history_sql(without_status(r)),
            HISTORY_BASE@.len(),
            clause_when(has_status_filter(r), HISTORY_STATUS_FILTER@),
        ),
        history_params(r) == inserted_at(
            history_params(without_status(r)),
            1,
            param_when(has_status_filter(r), SqlValueView::Text(given_text(r.status_filter))),
        ),
{
    let r0 = without_status(r);
    let m = clause_when(has_status_filter(r), HISTORY_STATUS_FILTER@);
    let q = clause_when(is_given(r.start_date), HISTORY_FROM_FILTER@) + clause_when(
        is_given(r.end_date),
        HISTORY_UNTIL_FILTER@,
    ) + history_order(r) + PAGINATION@;
    assert(history_sql(r0) =~= HISTORY_BASE@ + q);
    assert(history_sql(r) =~= HISTORY_BASE@ + m + q);
    lemma_inserted_between(HISTORY_BASE@, m, q);
    let u = seq![SqlValueView::Integer(r.user_id as int)];
    let pm = param_when(has_status_filter(r), SqlValueView::Text(given_text(r.status_filter)));
    let pq = history_params(r0).subrange(1, history_params(r0).len() as int);
    assert(history_params(r0) =~= u + pq);
    assert(history_params(r) =~= u + pm + pq);
    lemma_inserted_between(u, pm, pq);
    if !has_status_filter(r) {
        assert(history_sql(r) =~= history_sql(without_status(r)));
        assert(history_params(r) =~= history_params(without_status(r)));
    }
}

#[verifier::rlimit(40)]
proof fn lemma_history_start_clause(r: GetQueryHistoryRequest)
    ensures
        !is_given(r.start_date) ==> history_spec(r) == history_spec(without_start(r)),
        history_sql(r) == inserted_at(
            history_sql(without_start(r)),
            HISTORY_BASE@.len() + clause_when(has_status_filter(r), HISTORY_STATUS_FILTER@).len(),
            clause_when(is_given(r.start_date), HISTORY_FROM_FILTER@),
        ),
        history_params(r) == inserted_at(
            history_params(without_start(r)),
            1 + param_when(
                has_status_filter(r),
                SqlValueView::Text(given_text(r.status_filter)),
            ).len(),
            param_when(is_given(r.start_date), SqlValueView::Text(given_text(r.start_date))),
        ),
{
    let r0 = without_start(r);
    let p = HISTORY_BASE@ + clause_when(has_status_filter(r), HISTORY_STATUS_FILTER@);
    let m = clause_when(is_given(r.start_date), HISTORY_FROM_FILTER@);
    let q = clause_when(is_given(r.end_date), HISTORY_UNTIL_FILTER@) + history_order(r)
        + PAGINATION@;
    assert(history_sql(r0) =~= p + q);
    assert(history_sql(r) =~= p + m + q);
    lemma_inserted_between(p, m, q);
    let pp = seq![SqlValueView::Integer(r.user_id as int)] + param_when(
        has_status_filter(r),
        SqlValueView::Text(given_text(r.status_filter)),
    );
    let pm = param_when(is_given(r.start_date), SqlValueView::Text(given_text(r.start_date)));
    let pq = history_params(r0).subrange(pp.len() as int, history_params(r0).len() as int);
    assert(history_params(r0) =~= pp + pq);
    assert(history_params(r) =~= pp + pm + pq);
    lemma_inserted_between(pp, pm, pq);
    if !is_given(r.start_date) {
        assert(history_sql(r) =~= history_sql(without_start(r)));
        assert(history_params(r) =~= history_params(without_start(r)));
    }
}

#[verifier::rlimit(40)]
proof fn lemma_history_end_clause(r: GetQueryHistoryRequest)
    ensures
        !is_given(r.end_date) ==> history_spec(r) == history_spec(without_end(r)),
        history_sql(r) == inserted_at(
            history_sql(without_end(r)),
            HISTORY_BASE@.len() + clause_when(has_status_filter(r), HISTORY_STATUS_FILTER@).len()
                + clause_when(is_given(r.start_date), HISTORY_FROM_FILTER@).len(),
            clause_when(is_given(r.end_date), HISTORY_UNTIL_FILTER@),
        ),
        history_params(r) == inserted_at(
            history_params(without_end(r)),
            1 + param_when(
                has_status_filter(r),
                SqlValueView::Text(given_text(r.status_filter)),
            ).len() + param_when(
                is_given(r.start_date),
                SqlValueView::Text(given_text(r.start_date)),
            ).len(),
            param_when(is_given(r.end_date), SqlValueView::Text(given_text(r.end_date))),
        ),
{
    let r0 = without_end(r);
    let p = HISTORY_BASE@ + clause_when(has_status_filter(r), HISTORY_STATUS_FILTER@)
        + clause_when(is_given(r.start_date), HISTORY_FROM_FILTER@);
    let m = clause_when(is_given(r.end_date), HISTORY_UNTIL_FILTER@);
    let q = history_order(r) + PAGINATION@;
    assert(history_sql(r0) =~= p + q);
    assert(history_sql(r) =~= p + m + q);
    lemma_inserted_between(p, m, q);
    let pp = seq![SqlValueView::Integer(r.user_id as int)] + param_when(
        has_status_filter(r),
        SqlValueView::Text(given_text(r.status_filter)),
    ) + param_when(is_given(r.start_date), SqlValueView::Text(given_text(r.start_date)));
    let pm = param_when(is_given(r.end_date), SqlValueView::Text(given_text(r.end_date)));
    let pq = history_params(r0).subrange(pp.len() as int, history_params(r0).len() as int);
    assert(history_params(r0) =~= pp + pq);
    assert(history_params(r) =~= pp + pm + pq);
    lemma_inserted_between(pp, pm, pq);
    if !is_given(r.end_date) {
        assert(history_sql(r) =~= history_sql(without_end(r)));
        assert(history_params(r) =~= history_params(without_end(r)));
    }
}

#[verifier::rlimit(40)]
proof fn lemma_history_search_clause(r: GetQueryHistoryRequest)
    ensures
        !is_given(r.search_query) ==> history_spec(r) == history_spec(without_search(r)),
        history_sql(r) == inserted_at(
            history_sql(without_search(r)),
            HISTORY_BASE@.len() + history_where(r).len() + ORDER_BY@.len(),
            clause_when(is_given(r.search_query), HISTORY_SEARCH_RANK@),
        ),
        history_params(r) == inserted_at(
            history_params(without_search(r)),
            (history_params(without_search(r)).len() - 2) as nat,
            param_when(
                is_given(r.search_query),
                SqlValueView::Text(like_pattern_spec(given_text(r.search_query))),
            ),
        ),
{
    let r0 = without_search(r);
    let p = HISTORY_BASE@ + history_where(r) + ORDER_BY@;
    let m = clause_when(is_given(r.search_query), HISTORY_SEARCH_RANK@);
    let dir = if history_newest_first(r) {
        HISTORY_NEWEST_FIRST@
    } else {
        HISTORY_OLDEST_FIRST@
    };
    let q = dir + PAGINATION@;
    assert(history_where(r0) == history_where(r));
    assert(history_sql(r0) =~= p + q);
    assert(history_sql(r) =~= p + m + q);
    lemma_inserted_between(p, m, q);
    let pq = seq![SqlValueView::Integer(r.limit as int), SqlValueView::Integer(r.offset as int)];
    let pp = history_params(r0).subrange(0, history_params(r0).len() - 2);
    let pm = param_when(
        is_given(r.search_query),
        SqlValueView::Text(like_pattern_spec(given_text(r.search_query))),
    );
    assert(history_params(r0) =~= pp + pq);
    assert(history_params(r) =~= pp + pm + pq);
    lemma_inserted_between(pp, pm, pq);
    if !is_given(r.search_query) {
        assert(history_sql(r) =~= history_sql(without_search(r)));
        assert(history_params(r) =~= history_params(without_search(r)));
    }
}

/// Each optional history filter contributes its clause and its bound value,
/// at a fixed place, and nothing else: a filter that is absent, empty (or,
/// for the status, `all`) gives exactly the statement of the request
/// without that field, with no leftover fragment.
pub proof fn lemma_history_filters_add_only_their_clause(r: GetQueryHistoryRequest)
    ensures
        !has_status_filter(r) ==> history_spec(r) == history_spec(without_status(r)),
        !is_given(r.start_date) ==> history_spec(r) == history_spec(without_start(r)),
        !is_given(r.end_date) ==> history_spec(r) == history_spec(without_end(r)),
        !is_given(r.search_query) ==> history_spec(r) == history_spec(without_search(r)),
        history_sql(r) == inserted_at(
            history_sql(without_status(r)),
            HISTORY_BASE@.len(),
            clause_when(has_status_filter(r), HISTORY_STATUS_FILTER@),
        ),
        history_sql(r) == inserted_at(
            history_sql(without_start(r)),
            HISTORY_BASE@.len() + clause_when(has_status_filter(r), HISTORY_STATUS_FILTER@).len(),
            clause_when(is_given(r.start_date), HISTORY_FROM_FILTER@),
        ),
        history_sql(r) == inserted_at(
            history_sql(without_end(r)),
            HISTORY_BASE@.len() + clause_when(has_status_filter(r), HISTORY_STATUS_FILTER@).len()
                + clause_when(is_given(r.start_date), HISTORY_FROM_FILTER@).len(),
            clause_when(is_given(r.end_date), HISTORY_UNTIL_FILTER@),
        ),
        history_sql(r) == inserted_at(
            history_sql(without_search(r)),
            HISTORY_BASE@.len() + history_where(r).len() + ORDER_BY@.len(),
            clause_when(is_given(r.search_query), HISTORY_SEARCH_RANK@),
        ),
        history_params(r) == inserted_at(
            history_params(without_status(r)),
            1,
            param_when(has_status_filter(r), SqlValueView::Text(given_text(r.status_filter))),
        ),
        history_params(r) == inserted_at(
            history_params(without_start(r)),
            1 + param_when(
                has_status_filter(r),
                SqlValueView::Text(given_text(r.status_filter)),
            ).len(),
            param_when(is_given(r.start_date), SqlValueView::Text(given_text(r.start_date))),
        ),
        history_params(r) == inserted_at(
            history_params(without_end(r)),
            1 + param_when(
                has_status_filter(r),
                SqlValueView::Text(given_text(r.status_filter)),
            ).len() + param_when(
                is_given(r.start_date),
                SqlValueView::Text(given_text(r.start_date)),
            ).len(),
            param_when(is_given(r.end_date), SqlValueView::Text(given_text(r.end_date))),
        ),
        history_params(r) == inserted_at(
            history_params(without_search(r)),
            (history_params(without_search(r)).len() - 2) as nat,
            param_when(
                is_given(r.search_query),
                SqlValueView::Text(like_pattern_spec(given_text(r.search_query))),
            ),
        ),
{
    lemma_history_status_clause(r);
    lemma_history_start_clause(r);
    lemma_history_end_clause(r);
    lemma_history_search_clause(r);
}

/// A search term that is absent or empty leaves the pinned-query statement
/// as it is without one; a given term inserts only its ranking clause and its
/// pattern.
pub proof fn lemma_pinned_search_adds_only_its_clause(
    user_id: i64,
    search_query: Option<String>,
    sort_asc: Option<bool>,
)
    ensures
        !is_given(search_query) ==> pinned_spec(user_id, search_query, sort_asc) == pinned_spec(
            user_id,
            None,
            sort_asc,
        ),
        pinned_sql(search_query, sort_asc) == inserted_at(
            pinned_sql(None, sort_asc),
            PINNED_BASE@.len() + ORDER_BY@.len(),
            clause_when(is_given(search_query), PINNED_SEARCH_RANK@),
        ),
        pinned_params(user_id, search_query) == inserted_at(
            pinned_params(user_id, None),
            1,
            param_when(
                is_given(search_query),
                SqlValueView::Text(like_pattern_spec(given_text(search_query))),
            ),
        ),
{
    let p = PINNED_BASE@ + ORDER_BY@;
    let m = clause_when(is_given(search_query), PINNED_SEARCH_RANK@);
    let q = if pinned_oldest_first(sort_asc) {
        PINNED_OLDEST_FIRST@
    } else {
        PINNED_NEWEST_FIRST@
    };
    assert(pinned_sql(None, sort_asc) =~= p + q);
    assert(pinned_sql(search_query, sort_asc) =~= p + m + q);
    lemma_inserted_between(p, m, q);
    let u = seq![SqlValueView::Integer(user_id as int)];
    let pm = param_when(
        is_given(search_query),
        SqlValueView::Text(like_pattern_spec(given_text(search_query))),
    );
    assert(pinned_params(user_id, None) =~= u + Seq::empty());
    assert(pinned_params(user_id, search_query) =~= u + pm + Seq::empty());
    lemma_inserted_between(u, pm, Seq::empty());
    if !is_given(search_query) {
        assert(pinned_sql(search_query, sort_asc) =~= pinned_sql(None, sort_asc));
        assert(pinned_params(user_id, search_query) =~= pinned_params(user_id, None));
    }
}

/// A tag filter that is absent or empty leaves the connection statement as
/// it is without one; a given one inserts only its membership clause and
/// the tags.
pub proof fn lemma_tag_filter_adds_only_its_clause(user_id: i64, with_tags: Option<Vec<i64>>)
    ensures
        !has_tag_filter(with_tags) ==> connections_spec(user_id, with_tags) == connections_spec(
            user_id,
            None,
        ),
        connections_sql(with_tags) == inserted_at(
            connections_sql(None),
            CONNECTIONS_BASE@.len(),
            clause_when(
                has_tag_filter(with_tags),
                TAG_FILTER_OPEN@ + placeholder_list(tag_ids(with_tags).len()) + TAG_FILTER_CLOSE@,
            ),
        ),
        connections_params(user_id, with_tags) == inserted_at(
            connections_params(user_id, None),
            1,
            if has_tag_filter(with_tags) {
                integer_params(tag_ids(with_tags))
            } else {
                Seq::empty()
            },
        ),
{
    let m = clause_when(
        has_tag_filter(with_tags),
        TAG_FILTER_OPEN@ + placeholder_list(tag_ids(with_tags).len()) + TAG_FILTER_CLOSE@,
    );
    let e: Seq<char> = Seq::empty();
    assert(connections_sql(None) =~= CONNECTIONS_BASE@ + e);
    assert(connections_sql(with_tags) =~= CONNECTIONS_BASE@ + m + e);
    lemma_inserted_between(CONNECTIONS_BASE@, m, e);
    let u = seq![SqlValueView::Integer(user_id as int)];
    let pm = if has_tag_filter(with_tags) {
        integer_params(tag_ids(with_tags))
    } else {
        Seq::empty()
    };
    let pe: Seq<SqlValueView> = Seq::empty();
    assert(connections_params(user_id, None) =~= u + pe);
    assert(connections_params(user_id, with_tags) =~= u + pm + pe);
    lemma_inserted_between(u, pm, pe);
    if !has_tag_filter(with_tags) {
        assert(connections_sql(with_tags) =~= connections_sql(None));
        assert(connections_params(user_id, with_tags) =~= connections_params(user_id, None));
    }
}

/// A user search term that is absent or empty leaves the statement as it is
/// without one; a given term inserts only its ranking clause and pattern.
pub proof fn lemma_user_search_adds_only_its_clause(username_search: Option<String>)
    ensures
        !is_given(username_search) ==> app_users_spec(username_search) == app_users_spec(None),
        app_users_spec(username_search).sql == inserted_at(
            app_users_spec(None).sql,
            APP_USERS_BASE@.len() + ORDER_BY@.len(),
            clause_when(is_given(username_search), APP_USERS_SEARCH_RANK@),
        ),
{
    let p = APP_USERS_BASE@ + ORDER_BY@;
    let m = clause_when(is_given(username_search), APP_USERS_SEARCH_RANK@);
    assert(app_users_spec(None).sql =~= p + USERNAME_ASC@);
    assert(app_users_spec(username_search).sql =~= p + m + USERNAME_ASC@);
    lemma_inserted_between(p, m, USERNAME_ASC@);
    if !is_given(username_search) {
        assert(app_users_spec(username_search).sql =~= app_users_spec(None).sql);
        assert(app_users_spec(username_search).params =~= app_users_spec(None).params);
    }
}

} // verus!
