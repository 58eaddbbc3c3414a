//! Columns of a table: their types, options and JSON descriptions.

use crate::json;
use crate::json::{JsonKind, JsonValue};
use crate::text;
use vstd::prelude::*;
use vstd::string::*;

verus! {

broadcast use vstd::string::group_string_axioms;

/// The data type of a column.
#[derive(Clone, Copy, Debug, Eq, Hash, PartialEq, Structural)]
#[non_exhaustive]
pub enum ColumnType {
    Unknown,
    Text,
    Integer,
    BigInt,
    UnsignedBigInt,
    Double,
    Blob,
}

impl DeepView for ColumnType {
    type V = ColumnType;

    open spec fn deep_view(&self) -> ColumnType {
        *self
    }
}

impl ColumnType {
    /// osquery's name for the type.
    pub open spec fn sql_name(self) -> Seq<char> {
        match self {
            ColumnType::Unknown => "UNKNOWN"@,
            ColumnType::Text => "TEXT"@,
            ColumnType::Integer => "INTEGER"@,
            ColumnType::BigInt => "BIGINT"@,
            ColumnType::UnsignedBigInt => "UNSIGNED BIGINT"@,
            ColumnType::Double => "DOUBLE"@,
            ColumnType::Blob => "BLOB"@,
        }
    }

    /// The name of the type in a table description.
    pub open spec fn spec_name(self) -> Seq<char> {
        match self {
            ColumnType::Unknown => "unknown"@,
            ColumnType::Text => "text"@,
            ColumnType::Integer => "integer"@,
            ColumnType::BigInt => "bigint"@,
            ColumnType::UnsignedBigInt => "unsigned_bigint"@,
            ColumnType::Double => "double"@,
            ColumnType::Blob => "blob"@,
        }
    }

    /// osquery's name for the type.
    pub fn to_string(&self) -> (r: String)
        ensures
            r@ == self.sql_name(),
    {
        match self {
            ColumnType::Unknown => "UNKNOWN".to_string(),
            ColumnType::Text => "TEXT".to_string(),
            ColumnType::Integer => "INTEGER".to_string(),
            ColumnType::BigInt => "BIGINT".to_string(),
            ColumnType::UnsignedBigInt => "UNSIGNED BIGINT".to_string(),
            ColumnType::Double => "DOUBLE".to_string(),
            ColumnType::Blob => "BLOB".to_string(),
        }
    }

    /// The type in a table description, as JSON: its lowercase name, with
    /// underscores.
    pub fn to_json(&self) -> (r: String)
        ensures
            r@ == json::quoted(self.spec_name()),
    {
        let name = match self {
            ColumnType::Unknown => "unknown",
            ColumnType::Text => "text",
            ColumnType::Integer => "integer",
            ColumnType::BigInt => "bigint",
            ColumnType::UnsignedBigInt => "unsigned_bigint",
            ColumnType::Double => "double",
            ColumnType::Blob => "blob",
        };
        json::quote(name)
    }
}

/// The type that osquery names `name`, where there is one.
pub open spec fn type_named(name: Seq<char>) -> Option<ColumnType> {
    if name == "UNKNOWN"@ {
        Some(ColumnType::Unknown)
    } else if name == "TEXT"@ {
        Some(ColumnType::Text)
    } else if name == "INTEGER"@ {
        Some(ColumnType::Integer)
    } else if name == "BIGINT"@ {
        Some(ColumnType::BigInt)
    } else if name == "UNSIGNED BIGINT"@ {
        Some(ColumnType::UnsignedBigInt)
    } else if name == "DOUBLE"@ {
        Some(ColumnType::Double)
    } else if name == "BLOB"@ {
        Some(ColumnType::Blob)
    } else {
        None
    }
}

/// What is said of a name that is no type's.
pub open spec fn unknown_type(name: Seq<char>) -> Seq<char> {
    "unknown variant `"@ + name
        + "`, expected one of `UNKNOWN`, `TEXT`, `INTEGER`, `BIGINT`, `UNSIGNED BIGINT`, `DOUBLE`, `BLOB`"@
}

/// The type named `name`, or what is said where there is none.
pub open spec fn named_type(name: Seq<char>) -> Result<ColumnType, Seq<char>> {
    match type_named(name) {
        Some(t) => Ok(t),
        None => Err(unknown_type(name)),
    }
}

/// The type that a JSON value writes: its name as a string, or an object
/// whose one member has that name and is `null`.
pub open spec fn type_of(v: json::JsonView) -> Result<ColumnType, Seq<char>> {
    match v.kind {
        json::JsonKindView::Str(name) => named_type(name),
        json::JsonKindView::Object(members) => if members.len() != 1 {
            Err("invalid value: map, expected map with a single key"@)
        } else {
            match named_type(members[0].0) {
                Err(e) => Err(e),
                Ok(t) => if members[0].1.kind is Null {
                    Ok(t)
                } else {
                    Err("invalid type: "@ + members[0].1.described() + ", expected unit"@)
                },
            }
        },
        _ => Err("invalid type: "@ + v.described() + ", expected string or map"@),
    }
}

fn find_type(name: &str) -> (r: Result<ColumnType, String>)
    ensures
        json::told(r) == named_type(name@),
{
    if text::text_eq(name, "UNKNOWN") {
        Ok(ColumnType::Unknown)
    } else if text::text_eq(name, "TEXT") {
        Ok(ColumnType::Text)
    } else if text::text_eq(name, "INTEGER") {
        Ok(ColumnType::Integer)
    } else if text::text_eq(name, "BIGINT") {
        Ok(ColumnType::BigInt)
    } else if text::text_eq(name, "UNSIGNED BIGINT") {
        Ok(ColumnType::UnsignedBigInt)
    } else if text::text_eq(name, "DOUBLE") {
        Ok(ColumnType::Double)
    } else if text::text_eq(name, "BLOB") {
        Ok(ColumnType::Blob)
    } else {
        let head = text::concat("unknown variant `", name);
        Err(
            text::concat(
                head.as_str(),
                "`, expected one of `UNKNOWN`, `TEXT`, `INTEGER`, `BIGINT`, `UNSIGNED BIGINT`, `DOUBLE`, `BLOB`",
            ),
        )
    }
}

/// `head`, what is said of `value`, and `tail`.
pub(crate) fn complain(head: &str, value: &JsonValue, tail: &str) -> (r: String)
    ensures
        r@ == head@ + value.deep_view().described() + tail@,
{
    let described = value.describe();
    let start = text::concat(head, described.as_str());
    text::concat(start.as_str(), tail)
}

impl ColumnType {
    /// Reads the type from a JSON value.
    pub fn from_json(value: &JsonValue) -> (r: Result<ColumnType, String>)
        ensures
            json::told(r) == type_of(value.deep_view()),
    {
        match &value.kind {
            JsonKind::Str(name) => find_type(name.as_str()),
            JsonKind::Object(members) => {
                if members.len() != 1 {
                    return Err("invalid value: map, expected map with a single key".to_string());
                }
                assert(members@[0].1.deep_view().kind is Null <==> members@[0].1.kind is Null);
                match find_type(members[0].0.as_str()) {
                    Err(e) => Err(e),
                    Ok(t) => match &members[0].1.kind {
                        JsonKind::Null => Ok(t),
                        _ => Err(complain("invalid type: ", &members[0].1, ", expected unit")),
                    },
                }
            },
            _ => Err(complain("invalid type: ", value, ", expected string or map")),
        }
    }
}

/// Reading a type's name gives the type back.
pub proof fn type_names_read_back(t: ColumnType)
    ensures
        type_named(t.sql_name()) == Some(t),
{
    reveal_strlit("UNKNOWN");
    reveal_strlit("TEXT");
    reveal_strlit("INTEGER");
    reveal_strlit("BIGINT");
    reveal_strlit("UNSIGNED BIGINT");
    reveal_strlit("DOUBLE");
    reveal_strlit("BLOB");
    let name = t.sql_name();
    match t {
        ColumnType::Unknown => {},
        ColumnType::Text => {
            assert(name[0] == 'T');
        },
        ColumnType::Integer => {
            assert(name[0] == 'I');
        },
        ColumnType::BigInt => {
            assert(name[0] == 'B');
        },
        ColumnType::UnsignedBigInt => {
            assert(name.len() == 15);
        },
        ColumnType::Double => {
            assert(name[0] == 'D');
        },
        ColumnType::Blob => {
            assert(name.len() == 4 && name[0] == 'B');
        },
    }
}

/// A column of a table.
///
/// Made by [`ColumnDefinition::new`] or one of the functions named after a
/// type, then refined by the methods that take and return it.
#[derive(Debug)]
pub struct ColumnDefinition {
    pub name: String,
    pub col_type: ColumnType,
    pub description: String,
    pub notes: String,
    pub index: bool,
    pub required: bool,
    pub additional: bool,
    pub optimized: bool,
    pub hidden: bool,
}

/// A [`ColumnDefinition`] in terms of its characters.
pub struct ColumnView {
    pub name: Seq<char>,
    pub col_type: ColumnType,
    pub description: Seq<char>,
    pub notes: Seq<char>,
    pub index: bool,
    pub required: bool,
    pub additional: bool,
    pub optimized: bool,
    pub hidden: bool,
}

impl DeepView for ColumnDefinition {
    type V = ColumnView;

    open spec fn deep_view(&self) -> ColumnView {
        ColumnView {
            name: self.name@,
            col_type: self.col_type,
            description: self.description@,
            notes: self.notes@,
            index: self.index,
            required: self.required,
            additional: self.additional,
            optimized: self.optimized,
            hidden: self.hidden,
        }
    }
}

/// The column `name` of type `t` with nothing else said of it.
pub open spec fn plain_column(name: Seq<char>, t: ColumnType) -> ColumnView {
    ColumnView {
        name,
        col_type: t,
        description: Seq::empty(),
        notes: Seq::empty(),
        index: false,
        required: false,
        additional: false,
        optimized: false,
        hidden: false,
    }
}

/// `n` where `b` holds, and 0 elsewhere.
pub open spec fn weight(b: bool, n: int) -> int {
    if b {
        n
    } else {
        0
    }
}

/// A member of a JSON object: a comma, the quoted name, a colon and the value.
pub open spec fn json_member(name: Seq<char>, value: Seq<char>) -> Seq<char> {
    ",\""@ + name + "\":"@ + value
}

/// A member that is left out where its text is empty.
pub open spec fn json_text_member(name: Seq<char>, value: Seq<char>) -> Seq<char> {
    if value.len() == 0 {
        Seq::empty()
    } else {
        json_member(name, json::quoted(value))
    }
}

/// The JSON of a truth value.
pub open spec fn json_bool(b: bool) -> Seq<char> {
    if b {
        "true"@
    } else {
        "false"@
    }
}

impl ColumnView {
    /// The options as osquery's bit mask: index 1, required 2, additional 4,
    /// optimized 8, hidden 16.
    pub open spec fn mask(self) -> int {
        weight(self.index, 1) + weight(self.required, 2) + weight(self.additional, 4) + weight(
            self.optimized,
            8,
        ) + weight(self.hidden, 16)
    }

    /// The column as an object of a table description.
    pub open spec fn json(self) -> Seq<char> {
        "{\"name\":"@ + json::quoted(self.name) + json_member(
            "type"@,
            json::quoted(self.col_type.spec_name()),
        ) + json_text_member("description"@, self.description) + json_text_member(
            "notes"@,
            self.notes,
        ) + json_member("index"@, json_bool(self.index)) + json_member(
            "required"@,
            json_bool(self.required),
        ) + json_member("additional"@, json_bool(self.additional)) + json_member(
            "optimized"@,
            json_bool(self.optimized),
        ) + json_member("hidden"@, json_bool(self.hidden)) + "}"@
    }
}

/// Adds a member to the text of a JSON object.
pub(crate) fn add_member(out: &mut String, name: &str, value: &str)
    ensures
        final(out)@ == old(out)@ + json_member(name@, value@),
{
    out.append(",\"");
    out.append(name);
    out.append("\":");
    out.append(value);
}

/// Adds a text member to a JSON object, unless the text is empty.
pub(crate) fn add_text_member(out: &mut String, name: &str, value: &str)
    ensures
        final(out)@ == old(out)@ + json_text_member(name@, value@),
{
    if !value.is_empty() {
        let quoted = json::quote(value);
        add_member(out, name, quoted.as_str());
    }
}

/// The JSON of a truth value.
pub(crate) fn bool_json(b: bool) -> (r: &'static str)
    ensures
        r@ == json_bool(b),
{
    if b {
        "true"
    } else {
        "false"
    }
}

impl Clone for ColumnDefinition {
    fn clone(&self) -> (r: Self)
        ensures
            r.deep_view() == self.deep_view(),
    {
        ColumnDefinition {
            name: self.name.clone(),
            col_type: self.col_type,
            description: self.description.clone(),
            notes: self.notes.clone(),
            index: self.index,
            required: self.required,
            additional: self.additional,
            optimized: self.optimized,
            hidden: self.hidden,
        }
    }
}

impl Default for ColumnDefinition {
    /// A text column without a name.
    fn default() -> (r: Self)
        ensures
            r.deep_view() == plain_column(Seq::empty(), ColumnType::Text),
    {
        proof {
            reveal_strlit("");
            assert(""@ =~= Seq::<char>::empty());
        }
        ColumnDefinition::new("", ColumnType::Text)
    }
}

impl ColumnDefinition {
    /// The column `name` of type `col_type`.
    #[must_use]
    pub fn new(name: &str, col_type: ColumnType) -> (r: Self)
        ensures
            r.deep_view() == plain_column(name@, col_type),
    {
        ColumnDefinition {
            name: name.to_string(),
            col_type,
            description: String::new(),
            notes: String::new(),
            index: false,
            required: false,
            additional: false,
            optimized: false,
            hidden: false,
        }
    }

    /// A `TEXT` column.
    #[must_use]
    pub fn text(name: &str) -> (r: Self)
        ensures
            r.deep_view() == plain_column(name@, ColumnType::Text),
    {
        Self::new(name, ColumnType::Text)
    }

    /// An `INTEGER` column.
    #[must_use]
    pub fn integer(name: &str) -> (r: Self)
        ensures
            r.deep_view() == plain_column(name@, ColumnType::Integer),
    {
        Self::new(name, ColumnType::Integer)
    }

    /// A `BIGINT` column.
    #[must_use]
    pub fn big_int(name: &str) -> (r: Self)
        ensures
            r.deep_view() == plain_column(name@, ColumnType::BigInt),
    {
        Self::new(name, ColumnType::BigInt)
    }

    /// An `UNSIGNED BIGINT` column.
    #[must_use]
    pub fn unsigned_big_int(name: &str) -> (r: Self)
        ensures
            r.deep_view() == plain_column(name@, ColumnType::UnsignedBigInt),
    {
        Self::new(name, ColumnType::UnsignedBigInt)
    }

    /// A `DOUBLE` column.
    #[must_use]
    pub fn double(name: &str) -> (r: Self)
        ensures
            r.deep_view() == plain_column(name@, ColumnType::Double),
    {
        Self::new(name, ColumnType::Double)
    }

    /// A `BLOB` column.
    #[must_use]
    pub fn blob(name: &str) -> (r: Self)
        ensures
            r.deep_view() == plain_column(name@, ColumnType::Blob),
    {
        Self::new(name, ColumnType::Blob)
    }

    /// Marks the column as an index. This can change a query's speed a lot.
    #[must_use]
    pub fn index(self) -> (r: Self)
        ensures
            r.deep_view() == (ColumnView { index: true, ..self.deep_view() }),
    {
        ColumnDefinition { index: true, ..self }
    }

    /// Marks the column as required: a query that does not constrain it is
    /// refused.
    #[must_use]
    pub fn required(self) -> (r: Self)
        ensures
            r.deep_view() == (ColumnView { required: true, ..self.deep_view() }),
    {
        ColumnDefinition { required: true, ..self }
    }

    /// Marks the column as additional.
    #[must_use]
    pub fn additional(self) -> (r: Self)
        ensures
            r.deep_view() == (ColumnView { additional: true, ..self.deep_view() }),
    {
        ColumnDefinition { additional: true, ..self }
    }

    /// Marks the column as optimized.
    #[must_use]
    pub fn optimized(self) -> (r: Self)
        ensures
            r.deep_view() == (ColumnView { optimized: true, ..self.deep_view() }),
    {
        ColumnDefinition { optimized: true, ..self }
    }

    /// Hides the column from `SELECT *`.
    #[must_use]
    pub fn hidden(self) -> (r: Self)
        ensures
            r.deep_view() == (ColumnView { hidden: true, ..self.deep_view() }),
    {
        ColumnDefinition { hidden: true, ..self }
    }

    /// The options as osquery's bit mask.
    #[must_use]
    pub fn options(&self) -> (r: u8)
        ensures
            r == self.deep_view().mask(),
    {
        let mut mask: u8 = 0;
        if self.index {
            mask |= 1;
        }
        assert(0u8 | 1u8 == 1u8) by (bit_vector);
        let low: u8 = mask;
        if self.required {
            mask |= 2;
        }
        assert(low < 2 ==> low | 2u8 == low + 2) by (bit_vector);
        let low: u8 = mask;
        if self.additional {
            mask |= 4;
        }
        assert(low < 4 ==> low | 4u8 == low + 4) by (bit_vector);
        let low: u8 = mask;
        if self.optimized {
            mask |= 8;
        }
        assert(low < 8 ==> low | 8u8 == low + 8) by (bit_vector);
        let low: u8 = mask;
        if self.hidden {
            mask |= 16;
        }
        assert(low < 16 ==> low | 16u8 == low + 16) by (bit_vector);
        mask
    }

    /// Sets the description.
    #[must_use]
    pub fn with_description(self, desc: &str) -> (r: Self)
        ensures
            r.deep_view() == (ColumnView { description: desc@, ..self.deep_view() }),
    {
        ColumnDefinition { description: desc.to_string(), ..self }
    }

    /// Sets the notes.
    #[must_use]
    pub fn with_notes(self, notes: &str) -> (r: Self)
        ensures
            r.deep_view() == (ColumnView { notes: notes@, ..self.deep_view() }),
    {
        ColumnDefinition { notes: notes.to_string(), ..self }
    }

    /// The column as an object of a table description, in compact JSON.
    pub fn to_json(&self) -> (r: String)
        ensures
            r@ == self.deep_view().json(),
    {
        let name = json::quote(self.name.as_str());
        let mut out = text::concat("{\"name\":", name.as_str());
        let col_type = self.col_type.to_json();
        add_member(&mut out, "type", col_type.as_str());
        add_text_member(&mut out, "description", self.description.as_str());
        add_text_member(&mut out, "notes", self.notes.as_str());
        add_member(&mut out, "index", bool_json(self.index));
        add_member(&mut out, "required", bool_json(self.required));
        add_member(&mut out, "additional", bool_json(self.additional));
        add_member(&mut out, "optimized", bool_json(self.optimized));
        add_member(&mut out, "hidden", bool_json(self.hidden));
        out.append("}");
        out
    }
}

/// Each option has its own bit of the mask, and nothing else is in it.
pub proof fn mask_shows_options(c: ColumnView, mask: u8)
    requires
        mask == c.mask(),
    ensures
        mask & 1 != 0 <==> c.index,
        mask & 2 != 0 <==> c.required,
        mask & 4 != 0 <==> c.additional,
        mask & 8 != 0 <==> c.optimized,
        mask & 16 != 0 <==> c.hidden,
        mask < 32,
{
    let index = c.index;
    let required = c.required;
    let additional = c.additional;
    let optimized = c.optimized;
    let hidden = c.hidden;
    let a: u8 = if index { 1 } else { 0 };
    let b: u8 = if required { 2 } else { 0 };
    let d: u8 = if additional { 4 } else { 0 };
    let e: u8 = if optimized { 8 } else { 0 };
    let f: u8 = if hidden { 16 } else { 0 };
    assert((mask & 1 != 0 <==> a == 1) && (mask & 2 != 0 <==> b == 2) && (mask & 4 != 0 <==> d
        == 4) && (mask & 8 != 0 <==> e == 8) && (mask & 16 != 0 <==> f == 16)) by (bit_vector)
        requires
            mask == a + b + d + e + f,
            a == 0 || a == 1,
            b == 0 || b == 2,
            d == 0 || d == 4,
            e == 0 || e == 8,
            f == 0 || f == 16,
    ;
}

/// A type is read from its name, given as a string or as the name of the one
/// member of an object, which is `null`. Nothing else names a type.
pub proof fn types_read_as_written(v: json::JsonView, t: ColumnType, name: Seq<char>)
    ensures
        v.kind == json::JsonKindView::Str(t.sql_name()) ==> type_of(v) == Ok::<_, Seq<char>>(t),
        v.kind is Object && v.kind->Object_0.len() == 1 && v.kind->Object_0[0].0 == t.sql_name()
            && v.kind->Object_0[0].1.kind is Null ==> type_of(v) == Ok::<_, Seq<char>>(t),
        type_named(name) == Some(t) ==> name == t.sql_name(),
        v.kind == json::JsonKindView::Str(name) && type_named(name) is None ==> type_of(v) == Err::<
            ColumnType,
            _,
        >(unknown_type(name)),
        v.kind is Object && v.kind->Object_0.len() != 1 ==> type_of(v) is Err,
        !(v.kind is Str) && !(v.kind is Object) ==> type_of(v) == Err::<ColumnType, _>(
            "invalid type: "@ + v.described() + ", expected string or map"@,
        ),
{
    type_names_read_back(t);
}

/// The view of a column shows each of its parts.
pub proof fn columns_show_their_parts(c: ColumnDefinition)
    ensures
        c.deep_view().name == c.name@,
        c.deep_view().col_type == c.col_type,
        c.deep_view().description == c.description@,
        c.deep_view().notes == c.notes@,
        c.deep_view().index == c.index,
        c.deep_view().required == c.required,
        c.deep_view().additional == c.additional,
        c.deep_view().optimized == c.optimized,
        c.deep_view().hidden == c.hidden,
{
}

/// A column of which nothing else is said has its name and its type, and none
/// of the options.
pub proof fn plain_columns_are_plain(name: Seq<char>, t: ColumnType)
    ensures
        plain_column(name, t).name == name,
        plain_column(name, t).col_type == t,
        plain_column(name, t).description.len() == 0,
        plain_column(name, t).notes.len() == 0,
        plain_column(name, t).mask() == 0,
{
}

/// Whether `before` and `after` differ in one place, where `before` has `this`
/// and `after` has `that`.
pub open spec fn one_change(
    before: Seq<char>,
    this: Seq<char>,
    that: Seq<char>,
    after: Seq<char>,
) -> bool {
    exists|head: Seq<char>, tail: Seq<char>|
        before == #[trigger] (head + this + tail) && after == head + that + tail
}

pub(crate) proof fn lemma_one_change(
    before: Seq<char>,
    this: Seq<char>,
    that: Seq<char>,
    after: Seq<char>,
    head: Seq<char>,
    tail: Seq<char>,
)
    requires
        before == head + this + tail,
        after == head + that + tail,
    ensures
        one_change(before, this, that, after),
{
    assert(before == head + this + tail);
}

/// The JSON of a plain column has its name, its type and every option, each
/// `false`.
pub proof fn plain_columns_in_json(name: Seq<char>, t: ColumnType)
    ensures
        plain_column(name, t).json() == "{\"name\":"@ + json::quoted(name) + ",\"type\":"@
            + json::quoted(t.spec_name())
            + ",\"index\":false,\"required\":false,\"additional\":false,\"optimized\":false,\"hidden\":false}"@,
{
    let c = plain_column(name, t);
    reveal_strlit(",\"");
    reveal_strlit("\":");
    reveal_strlit("type");
    reveal_strlit("index");
    reveal_strlit("required");
    reveal_strlit("additional");
    reveal_strlit("optimized");
    reveal_strlit("hidden");
    reveal_strlit("false");
    reveal_strlit("}");
    reveal_strlit(",\"type\":");
    reveal_strlit(
        ",\"index\":false,\"required\":false,\"additional\":false,\"optimized\":false,\"hidden\":false}",
    );
    assert(json_member("type"@, json::quoted(t.spec_name())) =~= ",\"type\":"@ + json::quoted(
        t.spec_name(),
    ));
    let options = json_member("index"@, "false"@) + json_member("required"@, "false"@)
        + json_member("additional"@, "false"@) + json_member("optimized"@, "false"@) + json_member(
        "hidden"@,
        "false"@,
    ) + "}"@;
    assert(options
        =~= ",\"index\":false,\"required\":false,\"additional\":false,\"optimized\":false,\"hidden\":false}"@);
    let head = "{\"name\":"@ + json::quoted(name) + json_member(
        "type"@,
        json::quoted(t.spec_name()),
    );
    assert(c.json() =~= head + options);
    assert(head + options =~= "{\"name\":"@ + json::quoted(name) + ",\"type\":"@ + json::quoted(
        t.spec_name(),
    ) + options);
}

pub(crate) proof fn lemma_regrouped(
    a: Seq<char>,
    b: Seq<char>,
    c: Seq<char>,
    d: Seq<char>,
    e: Seq<char>,
    f: Seq<char>,
    g: Seq<char>,
)
    ensures
        a + b + c + d + e + f + g == a + b + (c + d + e + f + g),
        a + b + c + d + e + f + g == a + b + c + (d + e + f + g),
        a + b + c + d + e + f + g == a + b + c + d + (e + f + g),
        a + b + c + d + e + f + g == a + b + c + d + e + (f + g),
{
    assert(a + b + c + d + e + f + g =~= a + b + (c + d + e + f + g));
    assert(a + b + c + d + e + f + g =~= a + b + c + (d + e + f + g));
    assert(a + b + c + d + e + f + g =~= a + b + c + d + (e + f + g));
    assert(a + b + c + d + e + f + g =~= a + b + c + d + e + (f + g));
}

/// A description is one member more in the JSON of a column, and so are notes.
pub proof fn texts_of_columns_in_json(c: ColumnView)
    ensures
        c.description.len() > 0 ==> one_change(
            (ColumnView { description: Seq::empty(), ..c }).json(),
            Seq::empty(),
            ",\"description\":"@ + json::quoted(c.description),
            c.json(),
        ),
        c.notes.len() > 0 ==> one_change(
            (ColumnView { notes: Seq::empty(), ..c }).json(),
            Seq::empty(),
            ",\"notes\":"@ + json::quoted(c.notes),
            c.json(),
        ),
{
    assert(json_member("description"@, json::quoted(c.description)) == ",\"description\":"@
        + json::quoted(c.description) && json_member("notes"@, json::quoted(c.notes))
        == ",\"notes\":"@ + json::quoted(c.notes)) by {
        lemma_texts_written(json::quoted(c.description), json::quoted(c.notes));
    }
    let none = Seq::<char>::empty();
    let first = "{\"name\":"@ + json::quoted(c.name) + json_member(
        "type"@,
        json::quoted(c.col_type.spec_name()),
    );
    let described = json_text_member("description"@, c.description);
    let noted = json_text_member("notes"@, c.notes);
    let i = json_member("index"@, json_bool(c.index));
    let r = json_member("required"@, json_bool(c.required));
    let a = json_member("additional"@, json_bool(c.additional));
    let o = json_member("optimized"@, json_bool(c.optimized));
    let h = json_member("hidden"@, json_bool(c.hidden));
    let last = i + r + a + o + h + "}"@;
    lemma_texts_regrouped(first, described, noted, i, r, a, o, h, "}"@);
    lemma_texts_regrouped(first, none, noted, i, r, a, o, h, "}"@);
    lemma_texts_regrouped(first, described, none, i, r, a, o, h, "}"@);
    if c.description.len() > 0 {
        let less = ColumnView { description: none, ..c };
        lemma_one_change(less.json(), none, described, c.json(), first, noted + last);
    }
    if c.notes.len() > 0 {
        let less = ColumnView { notes: none, ..c };
        lemma_one_change(less.json(), none, noted, c.json(), first + described, last);
    }
}

proof fn lemma_texts_regrouped(
    first: Seq<char>,
    described: Seq<char>,
    noted: Seq<char>,
    i: Seq<char>,
    r: Seq<char>,
    a: Seq<char>,
    o: Seq<char>,
    h: Seq<char>,
    end: Seq<char>,
)
    ensures
        first + described + noted + i + r + a + o + h + end == first + described + noted + (i + r
            + a + o + h + end),
        first + described + noted + i + r + a + o + h + end == first + described + (noted + (i + r
            + a + o + h + end)),
{
    assert(first + described + noted + i + r + a + o + h + end =~= first + described + noted + (i
        + r + a + o + h + end));
    let last = i + r + a + o + h + end;
    assert(first + described + noted + last =~= first + described + (noted + last));
}

proof fn lemma_texts_written(description: Seq<char>, notes: Seq<char>)
    ensures
        json_member("description"@, description) == ",\"description\":"@ + description,
        json_member("notes"@, notes) == ",\"notes\":"@ + notes,
{
    reveal_strlit(",\"");
    reveal_strlit("\":");
    reveal_strlit("description");
    reveal_strlit("notes");
    reveal_strlit(",\"description\":");
    reveal_strlit(",\"notes\":");
    assert(",\""@ + "description"@ + "\":"@ =~= ",\"description\":"@);
    assert(",\""@ + "notes"@ + "\":"@ =~= ",\"notes\":"@);
}

/// An option that is on differs in the JSON of a column from one that is off in
/// the value of its member.
pub proof fn options_of_columns_in_json(c: ColumnView)
    ensures
        one_change(
            (ColumnView { index: false, ..c }).json(),
            ",\"index\":false"@,
            ",\"index\":true"@,
            (ColumnView { index: true, ..c }).json(),
        ),
        one_change(
            (ColumnView { required: false, ..c }).json(),
            ",\"required\":false"@,
            ",\"required\":true"@,
            (ColumnView { required: true, ..c }).json(),
        ),
        one_change(
            (ColumnView { additional: false, ..c }).json(),
            ",\"additional\":false"@,
            ",\"additional\":true"@,
            (ColumnView { additional: true, ..c }).json(),
        ),
        one_change(
            (ColumnView { optimized: false, ..c }).json(),
            ",\"optimized\":false"@,
            ",\"optimized\":true"@,
            (ColumnView { optimized: true, ..c }).json(),
        ),
        one_change(
            (ColumnView { hidden: false, ..c }).json(),
            ",\"hidden\":false"@,
            ",\"hidden\":true"@,
            (ColumnView { hidden: true, ..c }).json(),
        ),
{
    let first = "{\"name\":"@ + json::quoted(c.name) + json_member(
        "type"@,
        json::quoted(c.col_type.spec_name()),
    ) + json_text_member("description"@, c.description) + json_text_member("notes"@, c.notes);
    let i = json_member("index"@, json_bool(c.index));
    let r = json_member("required"@, json_bool(c.required));
    let a = json_member("additional"@, json_bool(c.additional));
    let o = json_member("optimized"@, json_bool(c.optimized));
    let h = json_member("hidden"@, json_bool(c.hidden));
    assert(json_member("index"@, "false"@) == ",\"index\":false"@ && json_member("index"@, "true"@)
        == ",\"index\":true"@ && json_member("required"@, "false"@) == ",\"required\":false"@
        && json_member("required"@, "true"@) == ",\"required\":true"@ && json_member(
        "additional"@,
        "false"@,
    ) == ",\"additional\":false"@ && json_member("additional"@, "true"@) == ",\"additional\":true"@
        && json_member("optimized"@, "false"@) == ",\"optimized\":false"@ && json_member(
        "optimized"@,
        "true"@,
    ) == ",\"optimized\":true"@ && json_member("hidden"@, "false"@) == ",\"hidden\":false"@
        && json_member("hidden"@, "true"@) == ",\"hidden\":true"@) by {
        lemma_options_written();
    }
    let end = "}"@;
    lemma_regrouped(first, json_member("index"@, "false"@), r, a, o, h, end);
    lemma_regrouped(first, json_member("index"@, "true"@), r, a, o, h, end);
    lemma_regrouped(first, i, json_member("required"@, "false"@), a, o, h, end);
    lemma_regrouped(first, i, json_member("required"@, "true"@), a, o, h, end);
    lemma_regrouped(first, i, r, json_member("additional"@, "false"@), o, h, end);
    lemma_regrouped(first, i, r, json_member("additional"@, "true"@), o, h, end);
    lemma_regrouped(first, i, r, a, json_member("optimized"@, "false"@), h, end);
    lemma_regrouped(first, i, r, a, json_member("optimized"@, "true"@), h, end);
    lemma_one_change(
        (ColumnView { index: false, ..c }).json(),
        ",\"index\":false"@,
        ",\"index\":true"@,
        (ColumnView { index: true, ..c }).json(),
        first,
        r + a + o + h + "}"@,
    );
    lemma_one_change(
        (ColumnView { required: false, ..c }).json(),
        ",\"required\":false"@,
        ",\"required\":true"@,
        (ColumnView { required: true, ..c }).json(),
        first + i,
        a + o + h + "}"@,
    );
    lemma_one_change(
        (ColumnView { additional: false, ..c }).json(),
        ",\"additional\":false"@,
        ",\"additional\":true"@,
        (ColumnView { additional: true, ..c }).json(),
        first + i + r,
        o + h + "}"@,
    );
    lemma_one_change(
        (ColumnView { optimized: false, ..c }).json(),
        ",\"optimized\":false"@,
        ",\"optimized\":true"@,
        (ColumnView { optimized: true, ..c }).json(),
        first + i + r + a,
        h + "}"@,
    );
    lemma_one_change(
        (ColumnView { hidden: false, ..c }).json(),
        ",\"hidden\":false"@,
        ",\"hidden\":true"@,
        (ColumnView { hidden: true, ..c }).json(),
        first + i + r + a + o,
        "}"@,
    );
}

proof fn lemma_options_written()
    ensures
        json_member("index"@, "false"@) == ",\"index\":false"@,
        json_member("index"@, "true"@) == ",\"index\":true"@,
        json_member("required"@, "false"@) == ",\"required\":false"@,
        json_member("required"@, "true"@) == ",\"required\":true"@,
        json_member("additional"@, "false"@) == ",\"additional\":false"@,
        json_member("additional"@, "true"@) == ",\"additional\":true"@,
        json_member("optimized"@, "false"@) == ",\"optimized\":false"@,
        json_member("optimized"@, "true"@) == ",\"optimized\":true"@,
        json_member("hidden"@, "false"@) == ",\"hidden\":false"@,
        json_member("hidden"@, "true"@) == ",\"hidden\":true"@,
{
    reveal_strlit(",\"");
    reveal_strlit("\":");
    reveal_strlit("true");
    reveal_strlit("false");
    reveal_strlit("index");
    reveal_strlit("required");
    reveal_strlit("additional");
    reveal_strlit("optimized");
    reveal_strlit("hidden");
    reveal_strlit(",\"index\":false");
    reveal_strlit(",\"index\":true");
    reveal_strlit(",\"required\":false");
    reveal_strlit(",\"required\":true");
    reveal_strlit(",\"additional\":false");
    reveal_strlit(",\"additional\":true");
    reveal_strlit(",\"optimized\":false");
    reveal_strlit(",\"optimized\":true");
    reveal_strlit(",\"hidden\":false");
    reveal_strlit(",\"hidden\":true");
}

/// osquery's names for the types.
pub proof fn types_have_their_names()
    ensures
        ColumnType::Unknown.sql_name() == "UNKNOWN"@,
        ColumnType::Text.sql_name() == "TEXT"@,
        ColumnType::Integer.sql_name() == "INTEGER"@,
        ColumnType::BigInt.sql_name() == "BIGINT"@,
        ColumnType::UnsignedBigInt.sql_name() == "UNSIGNED BIGINT"@,
        ColumnType::Double.sql_name() == "DOUBLE"@,
        ColumnType::Blob.sql_name() == "BLOB"@,
{
}

/// In a table description, the name of a type is in small letters, with an
/// underscore for a space.
pub proof fn described_types_are_in_small_letters(t: ColumnType, i: int)
    ensures
        t.spec_name().len() == t.sql_name().len(),
        0 <= i < t.sql_name().len() ==> t.spec_name()[i] == if t.sql_name()[i] == ' ' {
            '_'
        } else {
            text::ascii_lower(t.sql_name()[i])
        },
{
    reveal_strlit("UNKNOWN");
    reveal_strlit("unknown");
    reveal_strlit("TEXT");
    reveal_strlit("text");
    reveal_strlit("INTEGER");
    reveal_strlit("integer");
    reveal_strlit("BIGINT");
    reveal_strlit("bigint");
    reveal_strlit("UNSIGNED BIGINT");
    reveal_strlit("unsigned_bigint");
    reveal_strlit("DOUBLE");
    reveal_strlit("double");
    reveal_strlit("BLOB");
    reveal_strlit("blob");
}

/// An object that names a type has one member, whose name is a type's and
/// whose value is `null`; any other is refused.
pub proof fn type_objects_have_one_member(
    v: json::JsonView,
    name: Seq<char>,
    value: json::JsonView,
    members: Seq<(Seq<char>, json::JsonView)>,
)
    ensures
        v.kind == json::JsonKindView::Object(members) && members.len() != 1 ==> type_of(v)
            == Err::<ColumnType, _>("invalid value: map, expected map with a single key"@),
        v.kind == json::JsonKindView::Object(seq![(name, value)]) && type_named(name) is None
            ==> type_of(v) == Err::<ColumnType, _>(unknown_type(name)),
        v.kind == json::JsonKindView::Object(seq![(name, value)]) && type_named(name) is Some
            && !(value.kind is Null) ==> type_of(v) == Err::<ColumnType, _>(
            "invalid type: "@ + value.described() + ", expected unit"@,
        ),
        unknown_type(name) == "unknown variant `"@ + name
            + "`, expected one of `UNKNOWN`, `TEXT`, `INTEGER`, `BIGINT`, `UNSIGNED BIGINT`, `DOUBLE`, `BLOB`"@,
{
}

} // verus!
