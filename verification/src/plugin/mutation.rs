//! Changes to a writable table: what osquery asks for and how it is answered.

use crate::error;
use crate::error::Error;
use crate::json;
use crate::json::{JsonKind, JsonValue};
use crate::number;
use crate::plugin::constraint;
use crate::plugin::constraint::QueryContext;
use crate::row;
use crate::row::{PluginRequest, PluginResponse};
use crate::text;
use vstd::prelude::*;
use vstd::string::*;

verus! {

broadcast use vstd::string::group_string_axioms;

/// The values of a row, in the order of the columns; `None` is SQL's `NULL`.
pub type ColumnValues = Vec<Option<String>>;

/// [`ColumnValues`] in terms of their characters.
pub type ValuesView = Seq<Option<Seq<char>>>;

/// A request to delete a row.
#[derive(Debug)]
pub struct DeleteRequest {
    /// The row to delete.
    pub row_id: i64,
    /// The constraints of the statement.
    pub context: QueryContext,
}

/// A request to insert a row.
#[derive(Debug)]
pub struct InsertRequest {
    /// The values, in the order of the columns.
    pub values: ColumnValues,
    /// Whether osquery chose the row id by itself.
    pub auto_rowid: bool,
    /// The row id that osquery suggests, where it does.
    pub row_id: Option<i64>,
    /// The constraints of the statement.
    pub context: QueryContext,
}

/// A request to change a row.
#[derive(Debug)]
pub struct UpdateRequest {
    /// The row to change.
    pub row_id: i64,
    /// Its new row id, where that changes.
    pub new_row_id: Option<i64>,
    /// The new values, in the order of the columns.
    pub values: ColumnValues,
    /// The constraints of the statement.
    pub context: QueryContext,
}

/// How a change went. Each outcome stands for a result code of SQLite.
#[derive(Debug, Eq, PartialEq)]
pub enum MutationResult {
    /// The change was made.
    Success {
        /// The row id that was assigned, mostly for an insertion.
        row_id: Option<i64>,
    },
    /// The table does not take this change.
    ReadOnly,
    /// The change failed, for this reason.
    Failure(String),
    /// The change would break a constraint of the table.
    Constraint,
}

/// A [`DeleteRequest`] in terms of its characters.
pub struct DeleteView {
    pub row_id: i64,
    pub context: constraint::ContextView,
}

/// An [`InsertRequest`] in terms of its characters.
pub struct InsertView {
    pub values: ValuesView,
    pub auto_rowid: bool,
    pub row_id: Option<i64>,
    pub context: constraint::ContextView,
}

/// An [`UpdateRequest`] in terms of its characters.
pub struct UpdateView {
    pub row_id: i64,
    pub new_row_id: Option<i64>,
    pub values: ValuesView,
    pub context: constraint::ContextView,
}

/// A [`MutationResult`] in terms of its characters.
pub enum MutationView {
    Success { row_id: Option<i64> },
    ReadOnly,
    Failure(Seq<char>),
    Constraint,
}

impl DeepView for DeleteRequest {
    type V = DeleteView;

    open spec fn deep_view(&self) -> DeleteView {
        DeleteView { row_id: self.row_id, context: self.context.deep_view() }
    }
}

impl DeepView for InsertRequest {
    type V = InsertView;

    open spec fn deep_view(&self) -> InsertView {
        InsertView {
            values: self.values.deep_view(),
            auto_rowid: self.auto_rowid,
            row_id: self.row_id,
            context: self.context.deep_view(),
        }
    }
}

impl DeepView for UpdateRequest {
    type V = UpdateView;

    open spec fn deep_view(&self) -> UpdateView {
        UpdateView {
            row_id: self.row_id,
            new_row_id: self.new_row_id,
            values: self.values.deep_view(),
            context: self.context.deep_view(),
        }
    }
}

impl DeepView for MutationResult {
    type V = MutationView;

    open spec fn deep_view(&self) -> MutationView {
        match self {
            MutationResult::Success { row_id } => MutationView::Success { row_id: *row_id },
            MutationResult::ReadOnly => MutationView::ReadOnly,
            MutationResult::Failure(m) => MutationView::Failure(m@),
            MutationResult::Constraint => MutationView::Constraint,
        }
    }
}

fn copy_values(values: &ColumnValues) -> (r: ColumnValues)
    ensures
        r.deep_view() == values.deep_view(),
{
    let mut r: ColumnValues = Vec::new();
    let mut i: usize = 0;
    while i < values.len()
        invariant
            i <= values@.len(),
            r@.len() == i,
            forall|j: int| 0 <= j < i ==> (#[trigger] r@[j]).deep_view() == values@[j].deep_view(),
        decreases values@.len() - i,
    {
        let value: Option<String> = match &values[i] {
            Some(s) => Some(s.clone()),
            None => None,
        };
        r.push(value);
        i += 1;
    }
    r
}

impl Clone for DeleteRequest {
    fn clone(&self) -> (r: Self)
        ensures
            r.deep_view() == self.deep_view(),
    {
        DeleteRequest { row_id: self.row_id, context: self.context.clone() }
    }
}

impl Clone for InsertRequest {
    fn clone(&self) -> (r: Self)
        ensures
            r.deep_view() == self.deep_view(),
    {
        InsertRequest {
            values: copy_values(&self.values),
            auto_rowid: self.auto_rowid,
            row_id: self.row_id,
            context: self.context.clone(),
        }
    }
}

impl Clone for UpdateRequest {
    fn clone(&self) -> (r: Self)
        ensures
            r.deep_view() == self.deep_view(),
    {
        UpdateRequest {
            row_id: self.row_id,
            new_row_id: self.new_row_id,
            values: copy_values(&self.values),
            context: self.context.clone(),
        }
    }
}

impl Clone for MutationResult {
    fn clone(&self) -> (r: Self)
        ensures
            r.deep_view() == self.deep_view(),
    {
        match self {
            MutationResult::Success { row_id } => MutationResult::Success { row_id: *row_id },
            MutationResult::ReadOnly => MutationResult::ReadOnly,
            MutationResult::Failure(m) => MutationResult::Failure(m.clone()),
            MutationResult::Constraint => MutationResult::Constraint,
        }
    }
}

/// The row that tells osquery of a change's outcome.
pub open spec fn mutation_row(r: MutationView) -> row::RowView {
    let bare = Map::<Seq<char>, Seq<char>>::empty();
    match r {
        MutationView::Success { row_id: None } => bare.insert("status"@, "success"@),
        MutationView::Success { row_id: Some(id) } => bare.insert("status"@, "success"@).insert(
            "id"@,
            number::int_text(id as int),
        ),
        MutationView::ReadOnly => bare.insert("status"@, "readonly"@),
        MutationView::Failure(m) => if m.len() == 0 {
            bare.insert("status"@, "failure"@)
        } else {
            bare.insert("status"@, "failure"@).insert("message"@, m)
        },
        MutationView::Constraint => bare.insert("status"@, "constraint"@),
    }
}

/// The answer to a change: one row that tells its outcome.
pub fn mutation_rows(result: MutationResult) -> (r: PluginResponse)
    ensures
        r.deep_view() == seq![mutation_row(result.deep_view())],
{
    let mut row = row::empty_row();
    match result {
        MutationResult::Success { row_id } => {
            row::set_field(&mut row, "status", "success".to_string());
            if let Some(id) = row_id {
                row::set_field(&mut row, "id", number::i64_text(id));
            }
        },
        MutationResult::ReadOnly => {
            row::set_field(&mut row, "status", "readonly".to_string());
        },
        MutationResult::Failure(message) => {
            row::set_field(&mut row, "status", "failure".to_string());
            if !message.as_str().is_empty() {
                row::set_field(&mut row, "message", message);
            }
        },
        MutationResult::Constraint => {
            row::set_field(&mut row, "status", "constraint".to_string());
        },
    }
    one_row(row)
}

/// An answer of one row.
pub(crate) fn one_row(row: crate::text_map::TextMap<String>) -> (r: PluginResponse)
    ensures
        r.deep_view() == seq![row.deep_view()],
{
    let mut r: PluginResponse = Vec::new();
    r.push(row);
    r
}

/// The row id that a request gives at `key`.
pub open spec fn row_id_in(request: row::RowView, key: Seq<char>) -> Result<i64, error::ErrorView> {
    match row::at(request, key) {
        None => Err(error::ErrorView::Other("missing "@ + key)),
        Some(s) => match number::int_of(s) {
            Ok(n) => Ok(n),
            Err(e) => Err(
                error::ErrorView::Other("invalid "@ + key + ": "@ + number::int_error_text(e)),
            ),
        },
    }
}

/// Reads the row id that a request gives at `key`.
pub fn parse_row_id(request: &PluginRequest, key: &str) -> (r: Result<i64, Error>)
    ensures
        error::outcome(r) == row_id_in(request.deep_view(), key@),
{
    match row::field(request, key) {
        None => Err(Error::Other(text::concat("missing ", key))),
        Some(s) => match number::parse_i64(s) {
            Ok(n) => Ok(n),
            Err(e) => {
                let head = text::concat("invalid ", key);
                let head = text::concat(head.as_str(), ": ");
                let tail = e.to_string();
                Err(Error::Other(text::concat(head.as_str(), tail.as_str())))
            },
        },
    }
}

/// The integer that a request gives at `key`, where it gives one.
pub open spec fn number_in(request: row::RowView, key: Seq<char>) -> Option<i64> {
    match row::at(request, key) {
        None => None,
        Some(s) => match number::int_of(s) {
            Ok(n) => Some(n),
            Err(_) => None,
        },
    }
}

/// Reads the integer that a request gives at `key`, where it gives one.
pub(crate) fn parse_number(request: &PluginRequest, key: &str) -> (r: Option<i64>)
    ensures
        r == number_in(request.deep_view(), key@),
{
    match row::field(request, key) {
        None => None,
        Some(s) => match number::parse_i64(s) {
            Ok(n) => Some(n),
            Err(_) => None,
        },
    }
}

/// The column value that a JSON value writes: nothing for `null`, the text of
/// a string, and the JSON of anything else.
pub open spec fn column_value(v: json::JsonView) -> Option<Seq<char>> {
    match v.kind {
        json::JsonKindView::Null => None,
        json::JsonKindView::Str(s) => Some(s),
        _ => Some(v.text),
    }
}

/// The column values of `items`.
pub open spec fn column_values(items: Seq<json::JsonView>) -> ValuesView {
    items.map_values(|v: json::JsonView| column_value(v))
}

/// Turns JSON values into column values.
pub fn values_from_json(items: &Vec<JsonValue>) -> (r: ColumnValues)
    ensures
        r.deep_view() == column_values(items.deep_view()),
{
    let mut values: ColumnValues = Vec::new();
    let mut i: usize = 0;
    while i < items.len()
        invariant
            i <= items@.len(),
            values@.len() == i,
            forall|j: int|
                0 <= j < i ==> (#[trigger] values@[j]).deep_view() == column_value(
                    items@[j].deep_view(),
                ),
        decreases items@.len() - i,
    {
        let value: Option<String> = match &items[i].kind {
            JsonKind::Null => None,
            JsonKind::Str(s) => Some(s.clone()),
            _ => Some(items[i].text.clone()),
        };
        values.push(value);
        i += 1;
    }
    values
}

/// The column values that a JSON text lists.
pub open spec fn values_in(text: Seq<char>) -> Result<ValuesView, error::ErrorView> {
    match json::json_items(text) {
        Err(e) => Err(error::ErrorView::Other("invalid json_value_array: "@ + e)),
        Ok(items) => Ok(column_values(items)),
    }
}

/// Reads the column values that a JSON text lists.
pub fn parse_json_value_array(text: &str) -> (r: Result<ColumnValues, Error>)
    ensures
        error::outcome(r) == values_in(text@),
{
    match json::read_items(text) {
        Err(e) => Err(Error::Other(text::concat("invalid json_value_array: ", e.as_str()))),
        Ok(items) => Ok(values_from_json(&items)),
    }
}

/// The context of a request to change a row: empty where there is none or it
/// cannot be read.
pub open spec fn mutation_context(request: row::RowView) -> constraint::ContextView {
    match row::at(request, "context"@) {
        None => Map::empty(),
        Some(s) => match constraint::context_in(s) {
            Ok(context) => context,
            Err(_) => Map::empty(),
        },
    }
}

/// Reads the context of a request to change a row.
pub fn parse_mutation_context(request: &PluginRequest) -> (r: QueryContext)
    ensures
        r.deep_view() == mutation_context(request.deep_view()),
{
    match row::field(request, "context") {
        None => QueryContext::default(),
        Some(s) => match QueryContext::parse(s) {
            Ok(context) => context,
            Err(_) => QueryContext::default(),
        },
    }
}

/// The answer that a change failed, for this reason.
pub open spec fn failed(reason: Seq<char>) -> Seq<row::RowView> {
    seq![mutation_row(MutationView::Failure(reason))]
}

/// The values of a request to change a row, or the answer that there are
/// none.
pub open spec fn values_asked(request: row::RowView, action: Seq<char>) -> Result<
    ValuesView,
    Seq<row::RowView>,
> {
    match row::at(request, "json_value_array"@) {
        None => Err(failed("missing json_value_array"@)),
        Some(s) => match values_in(s) {
            Ok(values) => Ok(values),
            Err(e) => Err(failed(action + ": "@ + e.text())),
        },
    }
}

/// Reads the values of a request to change a row.
pub fn extract_column_values(request: &PluginRequest, action: &str) -> (r: Result<
    ColumnValues,
    PluginResponse,
>)
    ensures
        match r {
            Ok(values) => values_asked(request.deep_view(), action@) == Ok::<
                ValuesView,
                Seq<row::RowView>,
            >(values.deep_view()),
            Err(rows) => values_asked(request.deep_view(), action@) == Err::<
                ValuesView,
                Seq<row::RowView>,
            >(rows.deep_view()),
        },
{
    match row::field(request, "json_value_array") {
        None => Err(mutation_rows(MutationResult::Failure("missing json_value_array".to_string()))),
        Some(s) => match parse_json_value_array(s) {
            Ok(values) => Ok(values),
            Err(e) => {
                let head = text::concat(action, ": ");
                let tail = e.to_string();
                Err(
                    mutation_rows(
                        MutationResult::Failure(text::concat(head.as_str(), tail.as_str())),
                    ),
                )
            },
        },
    }
}

/// The answer to a change that the table was asked for: its outcome, or the
/// failure that its error tells.
pub open spec fn mutation_reply(
    action: Seq<char>,
    result: Result<MutationView, error::ErrorView>,
) -> Seq<row::RowView> {
    match result {
        Ok(r) => seq![mutation_row(r)],
        Err(e) => failed(action + " failed: "@ + e.text()),
    }
}

/// Turns what a table made of a change into the answer to osquery.
pub fn dispatch_mutation(action: &str, result: Result<MutationResult, Error>) -> (r: PluginResponse)
    ensures
        r.deep_view() == mutation_reply(action@, error::outcome(result)),
{
    match result {
        Ok(r) => mutation_rows(r),
        Err(e) => {
            let head = text::concat(action, " failed: ");
            let tail = e.to_string();
            mutation_rows(MutationResult::Failure(text::concat(head.as_str(), tail.as_str())))
        },
    }
}

/// Every outcome is told in one row whose status says which it is: no two
/// kinds of outcome share a status.
pub proof fn outcomes_have_their_own_status(a: MutationView, b: MutationView)
    ensures
        mutation_row(a).contains_key("status"@),
        mutation_row(a)["status"@] == mutation_row(b)["status"@] ==> {
            &&& a is Success <==> b is Success
            &&& a is ReadOnly <==> b is ReadOnly
            &&& a is Failure <==> b is Failure
            &&& a is Constraint <==> b is Constraint
        },
{
    reveal_strlit("status");
    reveal_strlit("id");
    reveal_strlit("message");
    reveal_strlit("success");
    reveal_strlit("readonly");
    reveal_strlit("failure");
    reveal_strlit("constraint");
    assert("status"@.len() != "message"@.len());
    assert("readonly"@[0] == 'r');
    assert("failure"@[0] == 'f');
    assert("constraint"@[0] == 'c');
}

/// The view of a request or an outcome shows each of its parts.
pub proof fn changes_show_their_parts(
    insert: InsertRequest,
    update: UpdateRequest,
    delete: DeleteRequest,
    words: String,
    id: Option<i64>,
)
    ensures
        insert.deep_view().values == insert.values.deep_view(),
        insert.deep_view().auto_rowid == insert.auto_rowid,
        insert.deep_view().row_id == insert.row_id,
        insert.deep_view().context == insert.context.deep_view(),
        update.deep_view().row_id == update.row_id,
        update.deep_view().new_row_id == update.new_row_id,
        update.deep_view().values == update.values.deep_view(),
        update.deep_view().context == update.context.deep_view(),
        delete.deep_view().row_id == delete.row_id,
        delete.deep_view().context == delete.context.deep_view(),
        (MutationResult::Success { row_id: id }).deep_view() == (MutationView::Success {
            row_id: id,
        }),
        MutationResult::ReadOnly.deep_view() is ReadOnly,
        MutationResult::Failure(words).deep_view() == MutationView::Failure(words@),
        MutationResult::Constraint.deep_view() is Constraint,
{
}

/// osquery is told the status of a change; the row id, exactly where one was
/// assigned; the reason, exactly where a change failed for one; and nothing
/// else.
pub proof fn outcomes_are_told_in_full(outcome: MutationView, key: Seq<char>)
    ensures
        outcome is Success ==> row::at(mutation_row(outcome), "status"@) == Some("success"@),
        outcome is ReadOnly ==> row::at(mutation_row(outcome), "status"@) == Some("readonly"@),
        outcome is Failure ==> row::at(mutation_row(outcome), "status"@) == Some("failure"@),
        outcome is Constraint ==> row::at(mutation_row(outcome), "status"@) == Some(
            "constraint"@,
        ),
        outcome is Success && outcome->row_id is Some ==> row::at(mutation_row(outcome), "id"@)
            == Some(number::int_text(outcome->row_id->0 as int)),
        !(outcome is Success && outcome->row_id is Some) ==> row::at(
            mutation_row(outcome),
            "id"@,
        ) is None,
        outcome is Failure && outcome->Failure_0.len() > 0 ==> row::at(
            mutation_row(outcome),
            "message"@,
        ) == Some(outcome->Failure_0),
        !(outcome is Failure && outcome->Failure_0.len() > 0) ==> row::at(
            mutation_row(outcome),
            "message"@,
        ) is None,
        key != "status"@ && key != "id"@ && key != "message"@ ==> row::at(
            mutation_row(outcome),
            key,
        ) is None,
{
    reveal_strlit("status");
    reveal_strlit("id");
    reveal_strlit("message");
    assert("status"@.len() == 6);
    assert("id"@.len() == 2);
    assert("message"@.len() == 7);
}

/// The answer to a change is one row: its outcome, or, where the table had an
/// error, a failure that says which change failed and why.
pub proof fn replies_tell_the_outcome(
    action: Seq<char>,
    outcome: MutationView,
    e: error::ErrorView,
    reason: Seq<char>,
)
    ensures
        mutation_reply(action, Ok(outcome)) == seq![mutation_row(outcome)],
        mutation_reply(action, Err(e)) == seq![mutation_row(
            MutationView::Failure(action + " failed: "@ + e.text()),
        )],
        failed(reason) == seq![mutation_row(MutationView::Failure(reason))],
{
}

/// A number that a request gives at a key, in decimal, is read as that number.
/// A key that is missing gives none, and neither does what is no number; where
/// a number is owed, the error names the key and says why.
pub proof fn numbers_are_read_from_requests(request: row::RowView, key: Seq<char>, n: i64)
    ensures
        row::at(request, key) == Some(number::int_text(n as int)) ==> number_in(request, key)
            == Some(n) && row_id_in(request, key) == Ok::<_, error::ErrorView>(n),
        row::at(request, key) is None ==> number_in(request, key) is None && row_id_in(
            request,
            key,
        ) == Err::<i64, _>(error::ErrorView::Other("missing "@ + key)),
        row::at(request, key) matches Some(s) && number::int_of(s) is Err ==> number_in(
            request,
            key,
        ) is None,
        row::at(request, key) is Some ==> (number::int_of(row::at(request, key)->0) matches Err(e)
            ==> row_id_in(request, key) == Err::<i64, _>(
            error::ErrorView::Other("invalid "@ + key + ": "@ + number::int_error_text(e)),
        )),
        number_in(request, key) matches Some(m) ==> row_id_in(request, key) == Ok::<
            _,
            error::ErrorView,
        >(m),
{
    number::read_back(n);
}

/// Each item of a list of values becomes one value, in order: nothing for
/// `null`, its text for a string, and its JSON for anything else.
pub proof fn values_come_item_by_item(items: Seq<json::JsonView>, i: int)
    requires
        0 <= i < items.len(),
    ensures
        column_values(items).len() == items.len(),
        items[i].kind is Null <==> column_values(items)[i] is None,
        items[i].kind matches json::JsonKindView::Str(s) ==> column_values(items)[i] == Some(s),
        !(items[i].kind is Null) && !(items[i].kind is Str) ==> column_values(items)[i] == Some(
            items[i].text,
        ),
{
}

/// A request's values are those of the list that it gives. Where there is no
/// list, or none that can be read, the request is answered with a failure that
/// says so.
pub proof fn values_are_read_from_requests(
    request: row::RowView,
    action: Seq<char>,
    text: Seq<char>,
)
    ensures
        row::at(request, "json_value_array"@) is None ==> values_asked(request, action) == Err::<
            ValuesView,
            _,
        >(seq![mutation_row(MutationView::Failure("missing json_value_array"@))]),
        row::at(request, "json_value_array"@) == Some(text) ==> match json::json_items(text) {
            Ok(items) => values_asked(request, action) == Ok::<_, Seq<row::RowView>>(
                column_values(items),
            ) && values_in(text) == Ok::<_, error::ErrorView>(column_values(items)),
            Err(e) => values_asked(request, action) == Err::<ValuesView, _>(
                seq![mutation_row(
                    MutationView::Failure(action + ": "@ + ("invalid json_value_array: "@ + e)),
                )],
            ) && values_in(text) == Err::<ValuesView, _>(
                error::ErrorView::Other("invalid json_value_array: "@ + e),
            ),
        },
{
}

/// A change comes with the constraints that its request gives, and with none
/// where it gives none that can be read.
pub proof fn contexts_are_read_from_changes(request: row::RowView, text: Seq<char>)
    ensures
        row::at(request, "context"@) is None ==> mutation_context(request).dom() == Set::<
            Seq<char>,
        >::empty(),
        row::at(request, "context"@) == Some(text) ==> match constraint::context_in(text) {
            Ok(context) => mutation_context(request) == context,
            Err(_) => mutation_context(request).dom() == Set::<Seq<char>>::empty(),
        },
{
}

} // verus!
