//! Parameterised SQL statements: text with `?` placeholders and the values
//! bound to them, in placeholder order.

use vstd::prelude::*;
use vstd::string::*;

verus! {

/// A value bound to one `?` placeholder.
#[derive(Debug, Clone, PartialEq, Eq)]
pub enum SqlValue {
    Integer(i64),
    Text(String),
    Null,
}

/// What a bound value stands for.
pub enum SqlValueView {
    Integer(int),
    Text(Seq<char>),
    Null,
}

impl View for SqlValue {
    type V = SqlValueView;

    open spec fn view(&self) -> SqlValueView {
        match self {
            SqlValue::Integer(n) => SqlValueView::Integer(*n as int),
            SqlValue::Text(s) => SqlValueView::Text(s@),
            SqlValue::Null => SqlValueView::Null,
        }
    }
}

/// The view of an optional text column value: `NULL` when absent.
pub open spec fn optional_text_view(v: Option<String>) -> SqlValueView {
    match v {
        Some(s) => SqlValueView::Text(s@),
        None => SqlValueView::Null,
    }
}

/// The view of an optional integer column value: `NULL` when absent.
pub open spec fn optional_integer_view(v: Option<i64>) -> SqlValueView {
    match v {
        Some(n) => SqlValueView::Integer(n as int),
        None => SqlValueView::Null,
    }
}

/// Binds an optional text value, `NULL` when absent.
pub fn optional_text(v: &Option<String>) -> (r: SqlValue)
    ensures
        r@ == optional_text_view(*v),
{
    match v {
        Some(s) => SqlValue::Text(s.clone()),
        None => SqlValue::Null,
    }
}

/// Binds an optional integer value, `NULL` when absent.
pub fn optional_integer(v: Option<i64>) -> (r: SqlValue)
    ensures
        r@ == optional_integer_view(v),
{
    match v {
        Some(n) => SqlValue::Integer(n),
        None => SqlValue::Null,
    }
}

/// SQL text together with the values for its placeholders.
#[derive(Debug, Clone, PartialEq, Eq)]
pub struct Statement {
    pub sql: String,
    pub params: Vec<SqlValue>,
}

pub struct StatementView {
    pub sql: Seq<char>,
    pub params: Seq<SqlValueView>,
}

pub open spec fn params_view(params: Seq<SqlValue>) -> Seq<SqlValueView> {
    params.map_values(|p: SqlValue| p@)
}

impl View for Statement {
    type V = StatementView;

    open spec fn view(&self) -> StatementView {
        StatementView { sql: self.sql@, params: params_view(self.params@) }
    }
}

impl Statement {
    /// A statement holding `text` and no bound value yet.
    pub fn new(text: &str) -> (r: Statement)
        ensures
            r@.sql == text@,
            r@.params == Seq::<SqlValueView>::empty(),
    {
        let r = Statement { sql: String::from_str(text), params: Vec::new() };
        assert(params_view(r.params@) =~= Seq::<SqlValueView>::empty());
        r
    }

    /// Appends `text` to the SQL; the bound values stay as they are.
    pub fn push_sql(&mut self, text: &str)
        ensures
            final(self)@.sql == old(self)@.sql + text@,
            final(self)@.params == old(self)@.params,
    {
        self.sql.append(text);
    }

    /// Binds `value` after the values bound so far; the SQL stays as it is.
    pub fn bind(&mut self, value: SqlValue)
        ensures
            final(self)@.sql == old(self)@.sql,
            final(self)@.params == old(self)@.params.push(value@),
    {
        let ghost before = self.params@;
        self.params.push(value);
        assert(params_view(self.params@) =~= params_view(before).push(value@));
    }
}

/// Number of `?` placeholders in `s` from position `i` on.
pub open spec fn placeholders_from(s: Seq<char>, i: int) -> nat
    decreases s.len() - i,
{
    if i < 0 || i >= s.len() {
        0
    } else {
        (if s[i] == '?' { 1nat } else { 0nat }) + placeholders_from(s, i + 1)
    }
}

/// Number of `?` placeholders in `s`.
pub open spec fn placeholder_count(s: Seq<char>) -> nat {
    placeholders_from(s, 0)
}

proof fn lemma_placeholders_shift(a: Seq<char>, b: Seq<char>, j: int)
    requires
        0 <= j <= b.len(),
    ensures
        placeholders_from(a + b, a.len() + j) == placeholders_from(b, j),
    decreases b.len() - j,
{
    if j < b.len() {
        assert((a + b)[a.len() + j] == b[j]);
        lemma_placeholders_shift(a, b, j + 1);
    }
}

proof fn lemma_placeholders_concat_from(a: Seq<char>, b: Seq<char>, i: int)
    requires
        0 <= i <= a.len(),
    ensures
        placeholders_from(a + b, i) == placeholders_from(a, i) + placeholder_count(b),
    decreases a.len() - i,
{
    if i == a.len() {
        lemma_placeholders_shift(a, b, 0);
    } else {
        assert((a + b)[i] == a[i]);
        lemma_placeholders_concat_from(a, b, i + 1);
    }
}

/// Placeholders of a concatenation are those of its parts.
pub proof fn lemma_placeholder_count_concat(a: Seq<char>, b: Seq<char>)
    ensures
        placeholder_count(a + b) == placeholder_count(a) + placeholder_count(b),
{
    lemma_placeholders_concat_from(a, b, 0);
}

} // verus!
