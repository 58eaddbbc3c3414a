//! The constraints of a query: operators, expressions and the context that
//! osquery sends with a request for rows.

use crate::json;
use crate::json::{JsonKind, JsonValue};
use crate::number;
use crate::plugin::column;
use crate::plugin::column::ColumnType;
use crate::row;
use crate::text;
use crate::text_map;
use crate::text_map::TextMap;
use vstd::prelude::*;
use vstd::string::*;

verus! {

broadcast use vstd::string::group_string_axioms;

/// An operator of a `WHERE` clause, with osquery's number for it.
#[derive(Clone, Copy, Debug, Eq, Hash, PartialEq, Structural)]
#[non_exhaustive]
pub enum Operator {
    Equals,
    GreaterThan,
    LessThanOrEquals,
    LessThan,
    GreaterThanOrEquals,
    Match,
    Like,
    Glob,
    Regexp,
    Unique,
    In,
    NotEquals,
    IsNot,
    IsNotNull,
    IsNull,
    Is,
    Limit,
    Offset,
}

/// A number that is no operator's.
#[derive(Clone, Copy, Debug, Eq, PartialEq, Structural)]
pub struct InvalidOperator(pub i64);

impl DeepView for Operator {
    type V = Operator;

    open spec fn deep_view(&self) -> Operator {
        *self
    }
}

impl Operator {
    /// osquery's number for the operator.
    pub open spec fn code(self) -> i64 {
        match self {
            Operator::Equals => 2,
            Operator::GreaterThan => 4,
            Operator::LessThanOrEquals => 8,
            Operator::LessThan => 16,
            Operator::GreaterThanOrEquals => 32,
            Operator::Match => 64,
            Operator::Like => 65,
            Operator::Glob => 66,
            Operator::Regexp => 67,
            Operator::Unique => 1,
            Operator::In => 3,
            Operator::NotEquals => 68,
            Operator::IsNot => 69,
            Operator::IsNotNull => 70,
            Operator::IsNull => 71,
            Operator::Is => 72,
            Operator::Limit => 73,
            Operator::Offset => 74,
        }
    }

    /// How SQL writes the operator.
    pub open spec fn symbol(self) -> Seq<char> {
        match self {
            Operator::Equals => "="@,
            Operator::GreaterThan => ">"@,
            Operator::LessThanOrEquals => "<="@,
            Operator::LessThan => "<"@,
            Operator::GreaterThanOrEquals => ">="@,
            Operator::Match => "MATCH"@,
            Operator::Like => "LIKE"@,
            Operator::Glob => "GLOB"@,
            Operator::Regexp => "REGEXP"@,
            Operator::Unique => "UNIQUE"@,
            Operator::In => "IN"@,
            Operator::NotEquals => "!="@,
            Operator::IsNot => "IS NOT"@,
            Operator::IsNotNull => "IS NOT NULL"@,
            Operator::IsNull => "IS NULL"@,
            Operator::Is => "IS"@,
            Operator::Limit => "LIMIT"@,
            Operator::Offset => "OFFSET"@,
        }
    }

    /// osquery's number for the operator.
    pub fn number(&self) -> (r: i64)
        ensures
            r == self.code(),
    {
        match self {
            Operator::Equals => 2,
            Operator::GreaterThan => 4,
            Operator::LessThanOrEquals => 8,
            Operator::LessThan => 16,
            Operator::GreaterThanOrEquals => 32,
            Operator::Match => 64,
            Operator::Like => 65,
            Operator::Glob => 66,
            Operator::Regexp => 67,
            Operator::Unique => 1,
            Operator::In => 3,
            Operator::NotEquals => 68,
            Operator::IsNot => 69,
            Operator::IsNotNull => 70,
            Operator::IsNull => 71,
            Operator::Is => 72,
            Operator::Limit => 73,
            Operator::Offset => 74,
        }
    }

    /// How SQL writes the operator.
    pub fn to_string(&self) -> (r: String)
        ensures
            r@ == self.symbol(),
    {
        match self {
            Operator::Equals => "=".to_string(),
            Operator::GreaterThan => ">".to_string(),
            Operator::LessThanOrEquals => "<=".to_string(),
            Operator::LessThan => "<".to_string(),
            Operator::GreaterThanOrEquals => ">=".to_string(),
            Operator::Match => "MATCH".to_string(),
            Operator::Like => "LIKE".to_string(),
            Operator::Glob => "GLOB".to_string(),
            Operator::Regexp => "REGEXP".to_string(),
            Operator::Unique => "UNIQUE".to_string(),
            Operator::In => "IN".to_string(),
            Operator::NotEquals => "!=".to_string(),
            Operator::IsNot => "IS NOT".to_string(),
            Operator::IsNotNull => "IS NOT NULL".to_string(),
            Operator::IsNull => "IS NULL".to_string(),
            Operator::Is => "IS".to_string(),
            Operator::Limit => "LIMIT".to_string(),
            Operator::Offset => "OFFSET".to_string(),
        }
    }
}

/// What is said of a number that is no operator's.
pub open spec fn invalid_operator_text(n: i64) -> Seq<char> {
    "invalid operator value: "@ + number::int_text(n as int)
}

impl InvalidOperator {
    /// The error in words.
    pub fn to_string(&self) -> (r: String)
        ensures
            r@ == invalid_operator_text(self.0),
    {
        let n = number::i64_text(self.0);
        text::concat("invalid operator value: ", n.as_str())
    }
}

/// The operator with number `n`, or the number where there is none.
pub open spec fn operator_at(n: i64) -> Result<Operator, InvalidOperator> {
    if n == 2 {
        Ok(Operator::Equals)
    } else if n == 4 {
        Ok(Operator::GreaterThan)
    } else if n == 8 {
        Ok(Operator::LessThanOrEquals)
    } else if n == 16 {
        Ok(Operator::LessThan)
    } else if n == 32 {
        Ok(Operator::GreaterThanOrEquals)
    } else if n == 64 {
        Ok(Operator::Match)
    } else if n == 65 {
        Ok(Operator::Like)
    } else if n == 66 {
        Ok(Operator::Glob)
    } else if n == 67 {
        Ok(Operator::Regexp)
    } else if n == 1 {
        Ok(Operator::Unique)
    } else if n == 3 {
        Ok(Operator::In)
    } else if n == 68 {
        Ok(Operator::NotEquals)
    } else if n == 69 {
        Ok(Operator::IsNot)
    } else if n == 70 {
        Ok(Operator::IsNotNull)
    } else if n == 71 {
        Ok(Operator::IsNull)
    } else if n == 72 {
        Ok(Operator::Is)
    } else if n == 73 {
        Ok(Operator::Limit)
    } else if n == 74 {
        Ok(Operator::Offset)
    } else {
        Err(InvalidOperator(n))
    }
}

impl TryFrom<i64> for Operator {
    type Error = InvalidOperator;

    fn try_from(value: i64) -> (r: Result<Self, InvalidOperator>) {
        match value {
            2 => Ok(Operator::Equals),
            4 => Ok(Operator::GreaterThan),
            8 => Ok(Operator::LessThanOrEquals),
            16 => Ok(Operator::LessThan),
            32 => Ok(Operator::GreaterThanOrEquals),
            64 => Ok(Operator::Match),
            65 => Ok(Operator::Like),
            66 => Ok(Operator::Glob),
            67 => Ok(Operator::Regexp),
            1 => Ok(Operator::Unique),
            3 => Ok(Operator::In),
            68 => Ok(Operator::NotEquals),
            69 => Ok(Operator::IsNot),
            70 => Ok(Operator::IsNotNull),
            71 => Ok(Operator::IsNull),
            72 => Ok(Operator::Is),
            73 => Ok(Operator::Limit),
            74 => Ok(Operator::Offset),
            _ => Err(InvalidOperator(value)),
        }
    }
}

impl vstd::std_specs::convert::TryFromSpecImpl<i64> for Operator {
    open spec fn obeys_try_from_spec() -> bool {
        true
    }

    open spec fn try_from_spec(v: i64) -> Result<Self, InvalidOperator> {
        operator_at(v)
    }
}

/// The number of an operator leads back to it, and no other number does.
pub proof fn operator_numbers_read_back(op: Operator, n: i64)
    ensures
        operator_at(op.code()) == Ok::<Operator, InvalidOperator>(op),
        operator_at(n) == Ok::<Operator, InvalidOperator>(op) ==> n == op.code(),
{
}

/// The operator with number `n`, or what is said where there is none.
pub open spec fn operator_or_text(n: i64) -> Result<Operator, Seq<char>> {
    match operator_at(n) {
        Ok(op) => Ok(op),
        Err(_) => Err(invalid_operator_text(n)),
    }
}

/// The operator that a JSON value writes: its number, as an integer or as the
/// text of one.
pub open spec fn operator_of(v: json::JsonView) -> Result<Operator, Seq<char>> {
    let refused = Err("invalid value "@ + v.text + ", expected int"@);
    match v.kind {
        json::JsonKindView::Str(s) => if s.len() == 0 {
            refused
        } else {
            match number::int_of(s) {
                Ok(n) => operator_or_text(n),
                Err(e) => Err(number::int_error_text(e)),
            }
        },
        json::JsonKindView::Number { integer: Some(n), .. } => operator_or_text(n),
        _ => refused,
    }
}

/// `head`, the JSON of `value`, and `tail`.
fn refuse(head: &str, value: &str, tail: &str) -> (r: String)
    ensures
        r@ == head@ + value@ + tail@,
{
    let start = text::concat(head, value);
    text::concat(start.as_str(), tail)
}

fn operator_by_number(n: i64) -> (r: Result<Operator, String>)
    ensures
        json::told(r) == operator_or_text(n),
{
    match Operator::try_from(n) {
        Ok(op) => Ok(op),
        Err(e) => Err(e.to_string()),
    }
}

impl Operator {
    /// Reads the operator from a JSON value.
    pub fn from_json(value: &JsonValue) -> (r: Result<Operator, String>)
        ensures
            json::told(r) == operator_of(value.deep_view()),
    {
        match &value.kind {
            JsonKind::Str(s) => {
                if s.as_str().is_empty() {
                    return Err(refuse("invalid value ", value.text.as_str(), ", expected int"));
                }
                match number::parse_i64(s.as_str()) {
                    Ok(n) => operator_by_number(n),
                    Err(e) => Err(e.to_string()),
                }
            },
            JsonKind::Number { integer: Some(n), .. } => operator_by_number(*n),
            _ => Err(refuse("invalid value ", value.text.as_str(), ", expected int")),
        }
    }
}

/// One condition on a column: an operator and the text to compare with.
#[derive(Debug, PartialEq, Eq)]
pub struct Constraint {
    pub operator: Operator,
    pub expression: String,
}

/// A [`Constraint`] in terms of its characters.
pub struct ConstraintView {
    pub operator: Operator,
    pub expression: Seq<char>,
}

impl DeepView for Constraint {
    type V = ConstraintView;

    open spec fn deep_view(&self) -> ConstraintView {
        ConstraintView { operator: self.operator, expression: self.expression@ }
    }
}

impl Clone for Constraint {
    fn clone(&self) -> (r: Self)
        ensures
            r.deep_view() == self.deep_view(),
    {
        Constraint { operator: self.operator, expression: self.expression.clone() }
    }
}

/// The constraint of an operator and an expression, both as JSON values.
pub open spec fn constraint_from(op: json::JsonView, expr: json::JsonView) -> Option<
    ConstraintView,
> {
    match (operator_of(op), expr.kind) {
        (Ok(operator), json::JsonKindView::Str(expression)) => Some(
            ConstraintView { operator, expression },
        ),
        _ => None,
    }
}

/// The constraint that a JSON value writes: an object with members `op` and
/// `expr`, or an array of the two.
pub open spec fn constraint_of(v: json::JsonView) -> Option<ConstraintView> {
    match v.kind {
        json::JsonKindView::Object(_) => match (v.member("op"@), v.member("expr"@)) {
            (Some(op), Some(expr)) => constraint_from(op, expr),
            _ => None,
        },
        json::JsonKindView::Array(items) => if items.len() == 2 {
            constraint_from(items[0], items[1])
        } else {
            None
        },
        _ => None,
    }
}

fn read_constraint(op: &JsonValue, expr: &JsonValue) -> (r: Option<Constraint>)
    ensures
        r.deep_view() == constraint_from(op.deep_view(), expr.deep_view()),
{
    match Operator::from_json(op) {
        Ok(operator) => match &expr.kind {
            JsonKind::Str(s) => Some(Constraint { operator, expression: s.clone() }),
            _ => None,
        },
        Err(_) => None,
    }
}

impl Constraint {
    /// The operator.
    #[must_use]
    pub fn operator(&self) -> (r: &Operator)
        ensures
            *r == self.operator,
    {
        &self.operator
    }

    /// The text to compare with.
    #[must_use]
    pub fn expression(&self) -> (r: &str)
        ensures
            r@ == self.expression@,
    {
        self.expression.as_str()
    }

    /// Reads the constraint from a JSON value, where it writes one.
    pub fn from_json(value: &JsonValue) -> (r: Option<Constraint>)
        ensures
            r.deep_view() == constraint_of(value.deep_view()),
    {
        match &value.kind {
            JsonKind::Object(_) => match (value.member("op"), value.member("expr")) {
                (Some(op), Some(expr)) => read_constraint(op, expr),
                _ => None,
            },
            JsonKind::Array(items) => if items.len() == 2 {
                read_constraint(&items[0], &items[1])
            } else {
                None
            },
            _ => None,
        }
    }
}

/// The constraints on one column, with the type by which they compare.
#[derive(Debug, PartialEq, Eq)]
pub struct ConstraintList {
    pub affinity: ColumnType,
    pub constraints: Vec<Constraint>,
}

/// A [`ConstraintList`] in terms of its characters.
pub struct ConstraintListView {
    pub affinity: ColumnType,
    pub constraints: Seq<ConstraintView>,
}

impl DeepView for ConstraintList {
    type V = ConstraintListView;

    open spec fn deep_view(&self) -> ConstraintListView {
        ConstraintListView {
            affinity: self.affinity,
            constraints: self.constraints.deep_view(),
        }
    }
}

impl Clone for ConstraintList {
    fn clone(&self) -> (r: Self)
        ensures
            r.deep_view() == self.deep_view(),
    {
        let mut constraints: Vec<Constraint> = Vec::new();
        let mut i: usize = 0;
        while i < self.constraints.len()
            invariant
                i <= self.constraints@.len(),
                constraints@.len() == i,
                forall|j: int|
                    0 <= j < i ==> (#[trigger] constraints@[j]).deep_view()
                        == self.constraints@[j].deep_view(),
            decreases self.constraints@.len() - i,
        {
            constraints.push(self.constraints[i].clone());
            i += 1;
        }
        assert(constraints.deep_view() =~= self.constraints.deep_view());
        ConstraintList { affinity: self.affinity, constraints }
    }
}

/// The constraints among `items`, in order. What is no constraint is left
/// out: osquery applies the `WHERE` clause again, so a lost hint does no harm.
pub open spec fn constraints_among(items: Seq<json::JsonView>) -> Seq<ConstraintView>
    decreases items.len(),
{
    if items.len() == 0 {
        Seq::empty()
    } else {
        let before = constraints_among(items.drop_last());
        match constraint_of(items.last()) {
            Some(c) => before.push(c),
            None => before,
        }
    }
}

/// The constraints that a JSON value lists: an array, or the empty string.
pub open spec fn constraints_of(v: json::JsonView) -> Result<Seq<ConstraintView>, Seq<char>> {
    let refused = Err("unexpected context list: invalid value "@ + v.text + ", expected array"@);
    match v.kind {
        json::JsonKindView::Str(s) => if s.len() == 0 {
            Ok(Seq::empty())
        } else {
            refused
        },
        json::JsonKindView::Array(items) => Ok(constraints_among(items)),
        _ => refused,
    }
}

/// [`constraints_of`] a value, or nothing where there is no value.
pub open spec fn constraints_if_any(v: Option<json::JsonView>) -> Result<
    Seq<ConstraintView>,
    Seq<char>,
> {
    match v {
        Some(v) => constraints_of(v),
        None => Ok(Seq::empty()),
    }
}

/// The list that a JSON value writes: an object with a member `affinity` and
/// perhaps a member `list`, or an array of these. The affinity is read first;
/// that it is missing shows only after the list was read.
pub open spec fn list_of(v: json::JsonView) -> Result<ConstraintListView, Seq<char>> {
    match v.kind {
        json::JsonKindView::Object(_) => match v.member("affinity"@) {
            Some(a) => match column::type_of(a) {
                Err(e) => Err(e),
                Ok(affinity) => match constraints_if_any(v.member("list"@)) {
                    Err(e) => Err(e),
                    Ok(constraints) => Ok(ConstraintListView { affinity, constraints }),
                },
            },
            None => match constraints_if_any(v.member("list"@)) {
                Err(e) => Err(e),
                Ok(_) => Err("missing field `affinity`"@),
            },
        },
        json::JsonKindView::Array(items) => if items.len() == 0 {
            Err("invalid length 0, expected struct ConstraintList with 2 elements"@)
        } else {
            match column::type_of(items[0]) {
                Err(e) => Err(e),
                Ok(affinity) => match constraints_if_any(
                    if items.len() > 1 {
                        Some(items[1])
                    } else {
                        None
                    },
                ) {
                    Err(e) => Err(e),
                    Ok(constraints) => if items.len() > 2 {
                        Err(
                            "invalid length "@ + number::int_text(items.len() as int)
                                + ", expected fewer elements in array"@,
                        )
                    } else {
                        Ok(ConstraintListView { affinity, constraints })
                    },
                },
            }
        },
        _ => Err("invalid type: "@ + v.described() + ", expected struct ConstraintList"@),
    }
}

fn read_constraints(value: &JsonValue) -> (r: Result<Vec<Constraint>, String>)
    ensures
        json::told(r) == constraints_of(value.deep_view()),
{
    match &value.kind {
        JsonKind::Str(s) => {
            if s.as_str().is_empty() {
                let none: Vec<Constraint> = Vec::new();
                assert(none.deep_view() =~= Seq::<ConstraintView>::empty());
                return Ok(none);
            }
        },
        JsonKind::Array(items) => {
            let ghost all = value.deep_view().kind->Array_0;
            let mut list: Vec<Constraint> = Vec::new();
            let mut i: usize = 0;
            while i < items.len()
                invariant
                    value.kind == JsonKind::Array(*items),
                    all == value.deep_view().kind->Array_0,
                    all.len() == items@.len(),
                    i <= items@.len(),
                    list.deep_view() == constraints_among(all.take(i as int)),
                decreases items@.len() - i,
            {
                assert(all.take(i + 1).drop_last() =~= all.take(i as int));
                if let Some(c) = Constraint::from_json(&items[i]) {
                    list.push(c);
                }
                i += 1;
            }
            assert(all.take(all.len() as int) =~= all);
            return Ok(list);
        },
        _ => {},
    }
    Err(
        refuse(
            "unexpected context list: invalid value ",
            value.text.as_str(),
            ", expected array",
        ),
    )
}

fn read_constraints_if_any(value: Option<&JsonValue>) -> (r: Result<Vec<Constraint>, String>)
    ensures
        json::told(r) == constraints_if_any(value.deep_view()),
{
    match value {
        Some(v) => read_constraints(v),
        None => {
            let none: Vec<Constraint> = Vec::new();
            assert(none.deep_view() =~= Seq::<ConstraintView>::empty());
            Ok(none)
        },
    }
}

impl ConstraintList {
    /// The type by which the constraints compare.
    #[must_use]
    pub fn affinity(&self) -> (r: &ColumnType)
        ensures
            *r == self.affinity,
    {
        &self.affinity
    }

    /// The constraints, in order.
    #[must_use]
    pub fn constraints(&self) -> (r: &[Constraint])
        ensures
            r@ == self.constraints@,
    {
        self.constraints.as_slice()
    }

    /// Reads the list from a JSON value.
    pub fn from_json(value: &JsonValue) -> (r: Result<ConstraintList, String>)
        ensures
            json::told(r) == list_of(value.deep_view()),
    {
        match &value.kind {
            JsonKind::Object(_) => {
                let affinity: Option<ColumnType> = match value.member("affinity") {
                    Some(a) => match ColumnType::from_json(a) {
                        Err(e) => return Err(e),
                        Ok(t) => Some(t),
                    },
                    None => None,
                };
                match read_constraints_if_any(value.member("list")) {
                    Err(e) => Err(e),
                    Ok(constraints) => match affinity {
                        Some(affinity) => Ok(ConstraintList { affinity, constraints }),
                        None => Err("missing field `affinity`".to_string()),
                    },
                }
            },
            JsonKind::Array(items) => {
                if items.len() == 0 {
                    return Err(
                        "invalid length 0, expected struct ConstraintList with 2 elements".to_string(),
                    );
                }
                let affinity: ColumnType = match ColumnType::from_json(&items[0]) {
                    Err(e) => return Err(e),
                    Ok(t) => t,
                };
                let list: Option<&JsonValue> = if items.len() > 1 {
                    Some(&items[1])
                } else {
                    None
                };
                match read_constraints_if_any(list) {
                    Err(e) => Err(e),
                    Ok(constraints) => {
                        if items.len() > 2 {
                            let n = number::u64_text(items.len() as u64);
                            return Err(
                                refuse(
                                    "invalid length ",
                                    n.as_str(),
                                    ", expected fewer elements in array",
                                ),
                            );
                        }
                        Ok(ConstraintList { affinity, constraints })
                    },
                }
            },
            _ => Err(column::complain("invalid type: ", value, ", expected struct ConstraintList")),
        }
    }
}

/// The constraints of a query, by column.
///
/// They are hints: osquery filters the rows again, so a table need not heed
/// them.
#[derive(Debug, PartialEq, Eq)]
pub struct QueryContext {
    lists: TextMap<ConstraintList>,
}

/// A [`QueryContext`] in terms of its characters.
pub type ContextView = Map<Seq<char>, ConstraintListView>;

impl View for QueryContext {
    type V = Map<Seq<char>, ConstraintList>;

    closed spec fn view(&self) -> Map<Seq<char>, ConstraintList> {
        self.lists@
    }
}

impl DeepView for QueryContext {
    type V = Map<Seq<char>, ConstraintListView>;

    open spec fn deep_view(&self) -> Map<Seq<char>, ConstraintListView> {
        self@.map_values(|l: ConstraintList| l.deep_view())
    }
}

/// The column that a JSON value constrains, with its list.
pub open spec fn named_list_of(v: json::JsonView) -> Result<
    (Seq<char>, ConstraintListView),
    Seq<char>,
> {
    match v.member("name"@) {
        Some(n) => match n.kind {
            json::JsonKindView::Str(name) => match list_of(v) {
                Ok(list) => Ok((name, list)),
                Err(e) => Err(e),
            },
            _ => Err("name: invalid value "@ + n.text + ", expected string"@),
        },
        None => Err("name: invalid value null, expected string"@),
    }
}

/// The context that `items` write: a later item replaces an earlier one of
/// the same column, and the first item that is refused decides the error.
pub open spec fn context_among(items: Seq<json::JsonView>) -> Result<ContextView, Seq<char>>
    decreases items.len(),
{
    if items.len() == 0 {
        Ok(Map::empty())
    } else {
        match context_among(items.drop_last()) {
            Err(e) => Err(e),
            Ok(before) => match named_list_of(items.last()) {
                Err(e) => Err(e),
                Ok(named) => Ok(before.insert(named.0, named.1)),
            },
        }
    }
}

/// The context that a JSON value writes in its member `constraints`. It is
/// empty where there is no such member or it is `null`.
pub open spec fn context_of(v: json::JsonView) -> Result<ContextView, Seq<char>> {
    match v.member("constraints"@) {
        None => Ok(Map::empty()),
        Some(c) => match c.kind {
            json::JsonKindView::Null => Ok(Map::empty()),
            json::JsonKindView::Array(items) => context_among(items),
            _ => Err("constraints: invalid value "@ + c.text + ", expected array"@),
        },
    }
}

/// The context that a JSON text writes. What stands behind the value is
/// looked at last.
pub open spec fn context_in(text: Seq<char>) -> Result<ContextView, Seq<char>> {
    match json::first_json(text) {
        Err(e) => Err(e),
        Ok(v) => match context_of(v) {
            Err(e) => Err(e),
            Ok(context) => match json::whole_json(text) {
                Err(e) => Err(e),
                Ok(_) => Ok(context),
            },
        },
    }
}

impl Default for QueryContext {
    /// The context without constraints.
    fn default() -> (r: Self)
        ensures
            r@ == Map::<Seq<char>, ConstraintList>::empty(),
            r.deep_view() == Map::<Seq<char>, ConstraintListView>::empty(),
    {
        QueryContext { lists: TextMap::new() }
    }
}

impl Clone for QueryContext {
    fn clone(&self) -> (r: Self)
        ensures
            r.deep_view() == self.deep_view(),
    {
        QueryContext { lists: self.lists.clone() }
    }
}

impl QueryContext {
    /// The constraints on `column`, where there are any.
    #[must_use]
    pub fn get(&self, column: &str) -> (r: Option<&ConstraintList>)
        ensures
            match r {
                Some(list) => self@.contains_key(column@) && *list == self@[column@],
                None => !self@.contains_key(column@),
            },
            r.deep_view() == row::at(self.deep_view(), column@),
    {
        self.lists.get(column)
    }

    /// Whether there are constraints on `column`.
    #[must_use]
    pub fn contains_key(&self, column: &str) -> (r: bool)
        ensures
            r == self@.contains_key(column@),
    {
        self.lists.contains_key(column)
    }

    /// The number of columns with constraints.
    #[must_use]
    pub fn len(&self) -> (r: usize)
        ensures
            r == self@.len(),
            self@.dom().finite(),
    {
        self.lists.len()
    }

    /// Whether no column has constraints.
    #[must_use]
    pub fn is_empty(&self) -> (r: bool)
        ensures
            r == (self@.len() == 0),
            self@.dom().finite(),
    {
        self.lists.is_empty()
    }

    /// The columns with their constraints, in text order of the columns.
    pub fn iter(&self) -> (r: Vec<(&String, &ConstraintList)>)
        ensures
            text_map::lists(self@, r@),
            self@.dom().finite(),
    {
        self.lists.iter()
    }

    /// The constraints on `column`, to be changed in place. Where there are
    /// none, `fallback` is put there first.
    pub fn entry(&mut self, column: String, fallback: ConstraintList) -> (r: &mut ConstraintList)
        ensures
            *r == if old(self)@.contains_key(column@) {
                old(self)@[column@]
            } else {
                fallback
            },
            final(self)@ == old(self)@.insert(column@, *final(r)),
    {
        self.lists.entry(column, fallback)
    }

    /// Sets the constraints on `column` and gives back those that stood there.
    pub fn insert(&mut self, column: String, list: ConstraintList) -> (r: Option<ConstraintList>)
        ensures
            final(self)@ == old(self)@.insert(column@, list),
            final(self).deep_view() == old(self).deep_view().insert(column@, list.deep_view()),
            final(self)@.len() == old(self)@.len() + if r is None {
                1int
            } else {
                0int
            },
            match r {
                Some(l) => old(self)@.contains_key(column@) && l == old(self)@[column@],
                None => !old(self)@.contains_key(column@),
            },
    {
        proof {
            row::lemma_deep_insert(self@, column@, list);
        }
        self.lists.insert(column, list)
    }

    /// Reads the context from a JSON value.
    pub fn from_json(value: &JsonValue) -> (r: Result<QueryContext, String>)
        ensures
            json::told(r) == context_of(value.deep_view()),
    {
        let c = match value.member("constraints") {
            None => return Ok(QueryContext::default()),
            Some(c) => c,
        };
        match &c.kind {
            JsonKind::Null => Ok(QueryContext::default()),
            JsonKind::Array(items) => {
                let ghost all = c.deep_view().kind->Array_0;
                let mut context = QueryContext::default();
                let mut i: usize = 0;
                while i < items.len()
                    invariant
                        value.deep_view().member("constraints"@) == Some(c.deep_view()),
                        c.kind == JsonKind::Array(*items),
                        all == c.deep_view().kind->Array_0,
                        all.len() == items@.len(),
                        i <= items@.len(),
                        context_among(all.take(i as int)) == Ok::<ContextView, Seq<char>>(
                            context.deep_view(),
                        ),
                    decreases items@.len() - i,
                {
                    assert(all.take(i + 1).drop_last() =~= all.take(i as int));
                    match read_named_list(&items[i]) {
                        Err(e) => {
                            proof {
                                lemma_refused_item(all, i + 1);
                            }
                            return Err(e);
                        },
                        Ok((name, list)) => {
                            context.insert(name, list);
                        },
                    }
                    i += 1;
                }
                assert(all.take(all.len() as int) =~= all);
                Ok(context)
            },
            _ => Err(refuse("constraints: invalid value ", c.text.as_str(), ", expected array")),
        }
    }

    /// Reads the context from a JSON text.
    pub fn parse(text: &str) -> (r: Result<QueryContext, String>)
        ensures
            json::told(r) == context_in(text@),
    {
        let value = match json::read_first(text) {
            Err(e) => return Err(e),
            Ok(value) => value,
        };
        let context = match QueryContext::from_json(&value) {
            Err(e) => return Err(e),
            Ok(context) => context,
        };
        match json::read_whole(text) {
            Err(e) => Err(e),
            Ok(_) => Ok(context),
        }
    }
}

/// Once an item is refused, what follows it does not matter.
proof fn lemma_refused_item(items: Seq<json::JsonView>, n: int)
    requires
        0 <= n <= items.len(),
        context_among(items.take(n)) is Err,
    ensures
        context_among(items) == context_among(items.take(n)),
    decreases items.len(),
{
    if n < items.len() {
        let rest = items.drop_last();
        assert(rest.take(n) =~= items.take(n));
        lemma_refused_item(rest, n);
    } else {
        assert(items.take(n) =~= items);
    }
}

fn read_named_list(value: &JsonValue) -> (r: Result<(String, ConstraintList), String>)
    ensures
        json::told(r) == named_list_of(value.deep_view()),
{
    match value.member("name") {
        Some(n) => match &n.kind {
            JsonKind::Str(name) => match ConstraintList::from_json(value) {
                Ok(list) => Ok((name.clone(), list)),
                Err(e) => Err(e),
            },
            _ => Err(refuse("name: invalid value ", n.text.as_str(), ", expected string")),
        },
        None => Err("name: invalid value null, expected string".to_string()),
    }
}

/// A context constrains finitely many columns.
pub proof fn contexts_are_finite(context: QueryContext)
    ensures
        context@.dom().finite(),
{
    text_map::lemma_map_of_keys(context.lists.pairs());
}

/// What was set for a column is what is found there, and other columns keep
/// what they had. A column that had no constraints makes one more, and after
/// that there are some.
pub proof fn insert_then_get(
    before: QueryContext,
    after: QueryContext,
    column: Seq<char>,
    list: ConstraintList,
    other: Seq<char>,
)
    requires
        after@ == before@.insert(column, list),
    ensures
        row::at(after@, column) == Some(list),
        other != column ==> row::at(after@, other) == row::at(before@, other),
        after@.len() == before@.len() + if row::at(before@, column) is None {
            1int
        } else {
            0int
        },
        after@.len() > 0,
{
    contexts_are_finite(before);
    if before@.contains_key(column) {
        assert(after@.dom() =~= before@.dom());
        assert(before@.dom().contains(column));
        vstd::set_lib::lemma_set_empty_equivalency_len(before@.dom());
    }
}

/// A column has constraints exactly where it is listed, with the constraints
/// that are found there, and nothing is listed exactly where there is nothing.
pub proof fn columns_are_found_where_they_are_listed(
    context: QueryContext,
    listed: Seq<(&String, &ConstraintList)>,
    column: Seq<char>,
)
    requires
        text_map::lists(context@, listed),
    ensures
        context@.contains_key(column) <==> exists|i: int|
            0 <= i < listed.len() && #[trigger] listed[i].0@ == column,
        forall|i: int|
            0 <= i < listed.len() && #[trigger] listed[i].0@ == column ==> row::at(context@, column)
                == Some(*listed[i].1),
        listed.len() == 0 <==> context@ == Map::<Seq<char>, ConstraintList>::empty(),
        listed.len() == context@.len(),
{
    contexts_are_finite(context);
    if listed.len() == 0 {
        assert(context@ =~= Map::<Seq<char>, ConstraintList>::empty());
    }
}

/// Constraints that cannot be read change nothing: the rest of the list is
/// read as if they were not there.
pub proof fn unreadable_constraints_are_skipped(
    before: Seq<json::JsonView>,
    bad: json::JsonView,
    after: Seq<json::JsonView>,
)
    requires
        constraint_of(bad) is None,
    ensures
        constraints_among(before.push(bad) + after) == constraints_among(before + after),
    decreases after.len(),
{
    if after.len() == 0 {
        assert(before.push(bad).drop_last() =~= before);
    } else {
        let head = after.drop_last();
        unreadable_constraints_are_skipped(before, bad, head);
        assert((before.push(bad) + after).drop_last() =~= before.push(bad) + head);
        assert((before + after).drop_last() =~= before + head);
    }
}

/// An operator written as text, as old versions of osquery do it, is the
/// operator written as a number.
pub proof fn text_and_number_operators_agree(n: i64, as_text: json::JsonView, as_number: json::JsonView)
    requires
        as_text.kind == json::JsonKindView::Str(number::int_text(n as int)),
        as_number.kind matches json::JsonKindView::Number { integer, .. } && integer == Some(n),
    ensures
        operator_of(as_text) == operator_of(as_number),
{
    number::read_back(n);
}

/// The empty string, as old versions of osquery send it, is the empty list.
pub proof fn empty_text_is_the_empty_list(as_text: json::JsonView, as_list: json::JsonView)
    requires
        as_text.kind == json::JsonKindView::Str(Seq::empty()),
        as_list.kind == json::JsonKindView::Array(Seq::empty()),
    ensures
        constraints_of(as_text) == constraints_of(as_list),
        constraints_of(as_list) == Ok::<_, Seq<char>>(Seq::<ConstraintView>::empty()),
{
}

/// The view of a constraint, a list or a context shows each of its parts.
pub proof fn constraints_show_their_parts(
    c: Constraint,
    list: ConstraintList,
    i: int,
    context: QueryContext,
    column: Seq<char>,
)
    ensures
        c.deep_view().operator == c.operator,
        c.deep_view().expression == c.expression@,
        list.deep_view().affinity == list.affinity,
        list.deep_view().constraints.len() == list.constraints@.len(),
        0 <= i < list.constraints@.len() ==> list.deep_view().constraints[i]
            == list.constraints@[i].deep_view(),
        context.deep_view().contains_key(column) <==> context@.contains_key(column),
        context@.contains_key(column) ==> context.deep_view()[column]
            == context@[column].deep_view(),
{
}

/// An operator is read from its number, given as an integer or as the text of
/// one.
pub proof fn operators_read_as_written(v: json::JsonView, operator: Operator)
    ensures
        v.kind is Number && v.kind->integer == Some(operator.code()) ==> operator_of(v) == Ok::<
            _,
            Seq<char>,
        >(operator),
        v.kind == json::JsonKindView::Str(number::int_text(operator.code() as int)) ==> operator_of(
            v,
        ) == Ok::<_, Seq<char>>(operator),
{
    number::read_back(operator.code());
    operator_numbers_read_back(operator, operator.code());
    assert(number::int_of(Seq::empty()) is Err);
}

/// A number that is no operator's is refused by name, and so is what is no
/// integer.
pub proof fn other_operators_are_refused(v: json::JsonView, n: i64)
    requires
        forall|operator: Operator| #[trigger] operator.code() != n,
    ensures
        v.kind is Number && v.kind->integer == Some(n) ==> operator_of(v) == Err::<Operator, _>(
            "invalid operator value: "@ + number::int_text(n as int),
        ),
        v.kind == json::JsonKindView::Str(number::int_text(n as int)) ==> operator_of(v) == Err::<
            Operator,
            _,
        >("invalid operator value: "@ + number::int_text(n as int)),
        !(v.kind is Str) && !(v.kind is Number && v.kind->integer is Some) ==> operator_of(v)
            == Err::<Operator, _>("invalid value "@ + v.text + ", expected int"@),
{
    number::read_back(n);
    assert(number::int_of(Seq::empty()) is Err);
    if operator_at(n) is Ok {
        let operator = operator_at(n)->Ok_0;
        operator_numbers_read_back(operator, n);
        assert(operator.code() == n);
    }
}

/// An operator that is written as text is the one of the number that the text
/// reads as. A text that is no number is refused with the reason.
pub proof fn operator_texts_are_read_as_numbers(v: json::JsonView, s: Seq<char>)
    requires
        v.kind == json::JsonKindView::Str(s),
    ensures
        s.len() == 0 ==> operator_of(v) == Err::<Operator, _>(
            "invalid value "@ + v.text + ", expected int"@,
        ),
        number::int_of(s) matches Ok(n) ==> {
            &&& operator_at(n) is Ok ==> operator_of(v) == Ok::<_, Seq<char>>(operator_at(n)->Ok_0)
            &&& operator_at(n) is Err ==> operator_of(v) == Err::<Operator, _>(
                "invalid operator value: "@ + number::int_text(n as int),
            )
        },
        s.len() > 0 && number::int_of(s) is Err ==> operator_of(v) == Err::<Operator, _>(
            number::int_error_text(number::int_of(s)->Err_0),
        ),
{
}

/// A constraint is read with the operator whose number stands at `op`, or
/// first in an array, and the text that stands at `expr`, or second.
pub proof fn constraints_read_as_written(
    v: json::JsonView,
    op: json::JsonView,
    expr: json::JsonView,
    operator: Operator,
    expression: Seq<char>,
)
    requires
        (v.kind is Object && v.member("op"@) == Some(op) && v.member("expr"@) == Some(expr))
            || v.kind == json::JsonKindView::Array(seq![op, expr]),
        (op.kind is Number && op.kind->integer == Some(operator.code())) || op.kind
            == json::JsonKindView::Str(number::int_text(operator.code() as int)),
        expr.kind == json::JsonKindView::Str(expression),
    ensures
        constraint_of(v) is Some,
        constraint_of(v)->0.operator == operator,
        constraint_of(v)->0.expression == expression,
{
    operators_read_as_written(op, operator);
}

/// What is read as a constraint has an operator that can be read and a text;
/// where either is missing, it is no constraint.
pub proof fn constraints_need_both_parts(v: json::JsonView)
    ensures
        v.kind is Object && v.member("op"@) is None ==> constraint_of(v) is None,
        v.kind is Object && v.member("expr"@) is None ==> constraint_of(v) is None,
        v.kind is Object && v.member("op"@) is Some && operator_of(v.member("op"@)->0) is Err
            ==> constraint_of(v) is None,
        v.kind is Object && v.member("expr"@) is Some && !(v.member("expr"@)->0.kind is Str)
            ==> constraint_of(v) is None,
        v.kind is Array && v.kind->Array_0.len() != 2 ==> constraint_of(v) is None,
        v.kind is Array && v.kind->Array_0.len() == 2 && operator_of(v.kind->Array_0[0]) is Err
            ==> constraint_of(v) is None,
        v.kind is Array && v.kind->Array_0.len() == 2 && !(v.kind->Array_0[1].kind is Str)
            ==> constraint_of(v) is None,
        !(v.kind is Object) && !(v.kind is Array) ==> constraint_of(v) is None,
{
}

/// Constraints that can all be read are read one by one, in order.
pub proof fn readable_constraints_are_all_read(items: Seq<json::JsonView>, i: int)
    requires
        forall|k: int| 0 <= k < items.len() ==> constraint_of(#[trigger] items[k]) is Some,
    ensures
        constraints_among(items).len() == items.len(),
        0 <= i < items.len() ==> Some(constraints_among(items)[i]) == constraint_of(items[i]),
    decreases items.len(),
{
    if items.len() > 0 {
        let rest = items.drop_last();
        assert forall|k: int| 0 <= k < rest.len() implies constraint_of(
            #[trigger] rest[k],
        ) is Some by {
            assert(rest[k] == items[k]);
        }
        readable_constraints_are_all_read(rest, i);
        if 0 <= i < rest.len() {
            assert(rest[i] == items[i]);
        }
    }
}

/// A list is read with the type that stands at `affinity`, or first in an
/// array, and with the constraints that stand at `list`, or second. Where
/// there are none, it has none.
pub proof fn lists_read_as_written(
    v: json::JsonView,
    affinity: ColumnType,
    named: json::JsonView,
    list: json::JsonView,
    items: Seq<json::JsonView>,
    none: json::JsonView,
)
    requires
        named.kind == json::JsonKindView::Str(affinity.sql_name()),
        list.kind == json::JsonKindView::Array(items),
        none.kind == json::JsonKindView::Str(Seq::empty()),
    ensures
        v.kind is Object && v.member("affinity"@) == Some(named) && v.member("list"@) == Some(list)
            ==> list_of(v) == Ok::<_, Seq<char>>(
            ConstraintListView { affinity, constraints: constraints_among(items) },
        ),
        v.kind is Object && v.member("affinity"@) == Some(named) && v.member("list"@) is None
            ==> list_of(v) == Ok::<_, Seq<char>>(
            ConstraintListView { affinity, constraints: Seq::empty() },
        ),
        v.kind is Object && v.member("affinity"@) == Some(named) && v.member("list"@) == Some(none)
            ==> list_of(v) == Ok::<_, Seq<char>>(
            ConstraintListView { affinity, constraints: Seq::empty() },
        ),
        v.kind == json::JsonKindView::Array(seq![named, list]) ==> list_of(v) == Ok::<_, Seq<char>>(
            ConstraintListView { affinity, constraints: constraints_among(items) },
        ),
        v.kind == json::JsonKindView::Array(seq![named]) ==> list_of(v) == Ok::<_, Seq<char>>(
            ConstraintListView { affinity, constraints: Seq::empty() },
        ),
{
    column::type_names_read_back(affinity);
}

/// A list object is refused where it has no type, or a type that cannot be
/// read, or constraints that cannot. The type is looked at first, except that
/// a missing one shows only after the constraints.
pub proof fn list_objects_need_a_type(v: json::JsonView, list: json::JsonView)
    requires
        v.kind is Object,
    ensures
        v.member("affinity"@) is None && v.member("list"@) is None ==> list_of(v) == Err::<
            ConstraintListView,
            _,
        >("missing field `affinity`"@),
        v.member("affinity"@) is None && v.member("list"@) == Some(list) && list.kind is Array
            ==> list_of(v) == Err::<ConstraintListView, _>("missing field `affinity`"@),
        v.member("affinity"@) is Some && column::type_of(v.member("affinity"@)->0) is Err
            ==> list_of(v) == Err::<ConstraintListView, _>(
            column::type_of(v.member("affinity"@)->0)->Err_0,
        ),
        (v.member("affinity"@) is None || column::type_of(v.member("affinity"@)->0) is Ok)
            && v.member("list"@) == Some(list) && !(list.kind is Array) && !(list.kind
            == json::JsonKindView::Str(Seq::empty())) ==> list_of(v) == Err::<
            ConstraintListView,
            _,
        >("unexpected context list: invalid value "@ + list.text + ", expected array"@),
{
    if list.kind is Str && list.kind->Str_0.len() == 0 {
        assert(list.kind->Str_0 =~= Seq::<char>::empty());
    }
}

/// A list array is refused where it is empty or has more than two items, and
/// where its first item is no type or its second no constraints. A value that
/// is neither object nor array is no list.
pub proof fn list_arrays_have_two_items(v: json::JsonView, items: Seq<json::JsonView>)
    ensures
        v.kind == json::JsonKindView::Array(items) && items.len() == 0 ==> list_of(v) == Err::<
            ConstraintListView,
            _,
        >("invalid length 0, expected struct ConstraintList with 2 elements"@),
        v.kind == json::JsonKindView::Array(items) && items.len() > 0 && column::type_of(
            items[0],
        ) is Err ==> list_of(v) == Err::<ConstraintListView, _>(column::type_of(items[0])->Err_0),
        v.kind == json::JsonKindView::Array(items) && items.len() > 1 && column::type_of(
            items[0],
        ) is Ok && !(items[1].kind is Array) && !(items[1].kind is Str) ==> list_of(v) == Err::<
            ConstraintListView,
            _,
        >("unexpected context list: invalid value "@ + items[1].text + ", expected array"@),
        v.kind == json::JsonKindView::Array(items) && items.len() > 2 && column::type_of(
            items[0],
        ) is Ok && items[1].kind is Array ==> list_of(v) == Err::<ConstraintListView, _>(
            "invalid length "@ + number::int_text(items.len() as int)
                + ", expected fewer elements in array"@,
        ),
        !(v.kind is Object) && !(v.kind is Array) ==> list_of(v) == Err::<ConstraintListView, _>(
            "invalid type: "@ + v.described() + ", expected struct ConstraintList"@,
        ),
{
}

/// Constraints are listed in an array; the empty string is a list of none, and
/// anything else is refused.
pub proof fn constraints_are_listed(list: json::JsonView)
    ensures
        list.kind matches json::JsonKindView::Array(items) ==> constraints_of(list) == Ok::<
            _,
            Seq<char>,
        >(constraints_among(items)),
        list.kind == json::JsonKindView::Str(Seq::empty()) ==> constraints_of(list) == Ok::<
            _,
            Seq<char>,
        >(Seq::<ConstraintView>::empty()),
        !(list.kind is Array) && !(list.kind == json::JsonKindView::Str(Seq::empty()))
            ==> constraints_of(list) == Err::<Seq<ConstraintView>, _>(
            "unexpected context list: invalid value "@ + list.text + ", expected array"@,
        ),
{
    if list.kind is Str && list.kind->Str_0.len() == 0 {
        assert(list.kind->Str_0 =~= Seq::<char>::empty());
    }
}

/// An item of a context constrains the column that it names by the list that
/// it writes.
pub proof fn items_name_their_column(
    v: json::JsonView,
    name: json::JsonView,
    column: Seq<char>,
    list: ConstraintListView,
)
    ensures
        v.member("name"@) == Some(name) && name.kind == json::JsonKindView::Str(column) && list_of(v)
            == Ok::<_, Seq<char>>(list) ==> named_list_of(v) == Ok::<_, Seq<char>>((column, list)),
        v.member("name"@) == Some(name) && name.kind == json::JsonKindView::Str(column) && list_of(
            v,
        ) is Err ==> named_list_of(v) == Err::<(Seq<char>, ConstraintListView), _>(
            list_of(v)->Err_0,
        ),
        v.member("name"@) == Some(name) && !(name.kind is Str) ==> named_list_of(v) == Err::<
            (Seq<char>, ConstraintListView),
            _,
        >("name: invalid value "@ + name.text + ", expected string"@),
        v.member("name"@) is None ==> named_list_of(v) == Err::<
            (Seq<char>, ConstraintListView),
            _,
        >("name: invalid value null, expected string"@),
{
}

/// A context whose items can all be read constrains the columns that they
/// name, each by the last item that names it, and no others.
pub proof fn contexts_read_as_written(items: Seq<json::JsonView>, i: int, column: Seq<char>)
    requires
        forall|k: int| 0 <= k < items.len() ==> named_list_of(#[trigger] items[k]) is Ok,
    ensures
        context_among(items) is Ok,
        context_among(items)->Ok_0.contains_key(column) <==> exists|k: int|
            0 <= k < items.len() && named_list_of(#[trigger] items[k])->Ok_0.0 == column,
        0 <= i < items.len() && named_list_of(items[i])->Ok_0.0 == column && (forall|k: int|
            i < k < items.len() ==> named_list_of(#[trigger] items[k])->Ok_0.0 != column)
            ==> context_among(items)->Ok_0[column] == named_list_of(items[i])->Ok_0.1,
    decreases items.len(),
{
    if items.len() > 0 {
        let rest = items.drop_last();
        let last = items.len() - 1;
        assert forall|k: int| 0 <= k < rest.len() implies named_list_of(
            #[trigger] rest[k],
        ) is Ok by {
            assert(rest[k] == items[k]);
        }
        contexts_read_as_written(rest, i, column);
        assert(named_list_of(items[last]) is Ok);
        if context_among(rest)->Ok_0.contains_key(column) {
            let k = choose|k: int|
                0 <= k < rest.len() && named_list_of(#[trigger] rest[k])->Ok_0.0 == column;
            assert(items[k] == rest[k]);
        }
        if exists|k: int|
            0 <= k < items.len() && named_list_of(#[trigger] items[k])->Ok_0.0 == column {
            let k = choose|k: int|
                0 <= k < items.len() && named_list_of(#[trigger] items[k])->Ok_0.0 == column;
            if k < last {
                assert(rest[k] == items[k]);
            }
        }
        if 0 <= i < last && (forall|k: int|
            i < k < items.len() ==> named_list_of(#[trigger] items[k])->Ok_0.0 != column) {
            assert(rest[i] == items[i]);
            assert(named_list_of(items[last])->Ok_0.0 != column);
            assert forall|k: int| i < k < rest.len() implies named_list_of(#[trigger] rest[k])->Ok_0.0
                != column by {
                assert(rest[k] == items[k]);
            }
        }
    }
}

/// The first item that cannot be read decides the error of a context.
pub proof fn the_first_bad_item_decides(items: Seq<json::JsonView>, i: int)
    requires
        0 <= i < items.len(),
        named_list_of(items[i]) is Err,
        forall|k: int| 0 <= k < i ==> named_list_of(#[trigger] items[k]) is Ok,
    ensures
        context_among(items) == Err::<ContextView, _>(named_list_of(items[i])->Err_0),
    decreases items.len(),
{
    let rest = items.drop_last();
    if i < items.len() - 1 {
        assert(rest[i] == items[i]);
        assert forall|k: int| 0 <= k < i implies named_list_of(#[trigger] rest[k]) is Ok by {
            assert(rest[k] == items[k]);
        }
        the_first_bad_item_decides(rest, i);
    } else {
        assert forall|k: int| 0 <= k < rest.len() implies named_list_of(
            #[trigger] rest[k],
        ) is Ok by {
            assert(rest[k] == items[k]);
        }
        contexts_read_as_written(rest, 0, Seq::empty());
    }
}

/// A context is the items of its member `constraints`: none, where that is
/// missing or `null`, and an error, where it is anything but an array.
pub proof fn contexts_are_their_constraints(v: json::JsonView, c: json::JsonView)
    ensures
        v.member("constraints"@) is None ==> context_of(v) == Ok::<_, Seq<char>>(
            Map::<Seq<char>, ConstraintListView>::empty(),
        ),
        v.member("constraints"@) == Some(c) && c.kind is Null ==> context_of(v) == Ok::<
            _,
            Seq<char>,
        >(Map::<Seq<char>, ConstraintListView>::empty()),
        v.member("constraints"@) == Some(c) && c.kind is Array ==> context_of(v) == context_among(
            c.kind->Array_0,
        ),
        v.member("constraints"@) == Some(c) && !(c.kind is Null) && !(c.kind is Array)
            ==> context_of(v) == Err::<ContextView, _>(
            "constraints: invalid value "@ + c.text + ", expected array"@,
        ),
{
}

/// A text is read as the context that its one value writes. It is refused
/// where it does not start with a value, where that value writes no context,
/// and where anything stands behind the value.
pub proof fn texts_are_read_as_contexts(text: Seq<char>, v: json::JsonView, context: ContextView)
    ensures
        json::first_json(text) == Ok::<_, Seq<char>>(v) && context_of(v) == Ok::<_, Seq<char>>(
            context,
        ) && json::whole_json(text) is Ok ==> context_in(text) == Ok::<_, Seq<char>>(context),
        json::first_json(text) is Err ==> context_in(text) == Err::<ContextView, _>(
            json::first_json(text)->Err_0,
        ),
        json::first_json(text) == Ok::<_, Seq<char>>(v) && context_of(v) is Err ==> context_in(text)
            == Err::<ContextView, _>(context_of(v)->Err_0),
        json::whole_json(text) is Err ==> context_in(text) is Err,
        json::first_json(text) == Ok::<_, Seq<char>>(v) && context_of(v) is Ok && json::whole_json(
            text,
        ) is Err ==> context_in(text) == Err::<ContextView, _>(json::whole_json(text)->Err_0),
{
}

/// osquery's numbers for the operators.
pub proof fn operators_have_their_numbers()
    ensures
        Operator::Equals.code() == 2,
        Operator::GreaterThan.code() == 4,
        Operator::LessThanOrEquals.code() == 8,
        Operator::LessThan.code() == 16,
        Operator::GreaterThanOrEquals.code() == 32,
        Operator::Match.code() == 64,
        Operator::Like.code() == 65,
        Operator::Glob.code() == 66,
        Operator::Regexp.code() == 67,
        Operator::Unique.code() == 1,
        Operator::In.code() == 3,
        Operator::NotEquals.code() == 68,
        Operator::IsNot.code() == 69,
        Operator::IsNotNull.code() == 70,
        Operator::IsNull.code() == 71,
        Operator::Is.code() == 72,
        Operator::Limit.code() == 73,
        Operator::Offset.code() == 74,
{
}

/// How SQL writes the operators.
pub proof fn operators_are_written_as_in_sql()
    ensures
        Operator::Equals.symbol() == "="@,
        Operator::GreaterThan.symbol() == ">"@,
        Operator::LessThanOrEquals.symbol() == "<="@,
        Operator::LessThan.symbol() == "<"@,
        Operator::GreaterThanOrEquals.symbol() == ">="@,
        Operator::Match.symbol() == "MATCH"@,
        Operator::Like.symbol() == "LIKE"@,
        Operator::Glob.symbol() == "GLOB"@,
        Operator::Regexp.symbol() == "REGEXP"@,
        Operator::Unique.symbol() == "UNIQUE"@,
        Operator::In.symbol() == "IN"@,
        Operator::NotEquals.symbol() == "!="@,
        Operator::IsNot.symbol() == "IS NOT"@,
        Operator::IsNotNull.symbol() == "IS NOT NULL"@,
        Operator::IsNull.symbol() == "IS NULL"@,
        Operator::Is.symbol() == "IS"@,
        Operator::Limit.symbol() == "LIMIT"@,
        Operator::Offset.symbol() == "OFFSET"@,
{
}

/// A number that is no operator's is named in what is said of it.
pub proof fn unknown_numbers_are_named(n: i64)
    ensures
        invalid_operator_text(n) == "invalid operator value: "@ + number::int_text(n as int),
        (forall|operator: Operator| #[trigger] operator.code() != n) ==> operator_at(n) == Err::<
            Operator,
            _,
        >(InvalidOperator(n)),
{
    if operator_at(n) is Ok {
        operator_numbers_read_back(operator_at(n)->Ok_0, n);
        assert(operator_at(n)->Ok_0.code() == n);
    }
}

} // verus!
