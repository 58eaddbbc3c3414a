//! JSON texts, read into values that the library can look into.

use crate::text;
use vstd::prelude::*;
use vstd::string::*;

verus! {

broadcast use vstd::string::group_string_axioms;

/// A JSON value and its compact text.
#[derive(Debug, PartialEq, Eq)]
pub struct JsonValue {
    /// The value as compact JSON.
    pub text: String,
    /// What the value is.
    pub kind: JsonKind,
}

/// What a JSON value is.
#[derive(Debug, PartialEq, Eq)]
pub enum JsonKind {
    /// `null`.
    Null,
    /// `true` or `false`.
    Bool(bool),
    /// A number.
    Number {
        /// Its value, where it was written as an integer that fits.
        integer: Option<i64>,
        /// Whether it is held as a floating point number.
        fraction: bool,
    },
    /// A string.
    Str(String),
    /// An array.
    Array(Vec<JsonValue>),
    /// An object: its members in text order of their names, no name twice.
    Object(Vec<(String, JsonValue)>),
}

/// A [`JsonValue`] in terms of its characters.
pub struct JsonView {
    pub text: Seq<char>,
    pub kind: JsonKindView,
}

/// A [`JsonKind`] in terms of its characters.
pub enum JsonKindView {
    Null,
    Bool(bool),
    Number { integer: Option<i64>, fraction: bool },
    Str(Seq<char>),
    Array(Seq<JsonView>),
    Object(Seq<(Seq<char>, JsonView)>),
}

pub open spec fn json_view(v: JsonValue) -> JsonView
    decreases v,
{
    JsonView {
        text: v.text@,
        kind: match v.kind {
            JsonKind::Null => JsonKindView::Null,
            JsonKind::Bool(b) => JsonKindView::Bool(b),
            JsonKind::Number { integer, fraction } => JsonKindView::Number { integer, fraction },
            JsonKind::Str(s) => JsonKindView::Str(s@),
            JsonKind::Array(items) => JsonKindView::Array(
                Seq::new(
                    items@.len(),
                    |i: int|
                        if 0 <= i < items@.len() {
                            json_view(items@[i])
                        } else {
                            arbitrary()
                        },
                ),
            ),
            JsonKind::Object(members) => JsonKindView::Object(
                Seq::new(
                    members@.len(),
                    |i: int|
                        if 0 <= i < members@.len() {
                            (members@[i].0@, json_view(members@[i].1))
                        } else {
                            arbitrary()
                        },
                ),
            ),
        },
    }
}

impl DeepView for JsonValue {
    type V = JsonView;

    open spec fn deep_view(&self) -> JsonView {
        json_view(*self)
    }
}

/// What a call gave back whose error is a text, in terms of the views of its
/// two sides.
pub open spec fn told<T: DeepView>(r: Result<T, String>) -> Result<T::V, Seq<char>> {
    match r {
        Ok(v) => Ok(v.deep_view()),
        Err(e) => Err(e@),
    }
}

/// The JSON value of `serde_json`.
#[verifier::external_type_specification]
#[verifier::external_body]
pub struct ExValue(serde_json::Value);

/// The value that `text` starts with, as `serde_json::Deserializer` reads it,
/// or the words of its error.
pub uninterp spec fn first_json(text: Seq<char>) -> Result<JsonView, Seq<char>>;

/// The value that the whole of `text` is, as `serde_json::from_str` reads it,
/// or the words of its error.
pub uninterp spec fn whole_json(text: Seq<char>) -> Result<JsonView, Seq<char>>;

/// The items of the array that the whole of `text` is, as
/// `serde_json::from_str` reads a list of values, or the words of its error.
pub uninterp spec fn json_items(text: Seq<char>) -> Result<Seq<JsonView>, Seq<char>>;

/// The hexadecimal digit of `n`, in small letters.
pub open spec fn hex_digit(n: int) -> char {
    if n < 10 {
        ('0' as int + n) as char
    } else {
        ('a' as int + n - 10) as char
    }
}

/// A character inside a JSON string. Quotes, backslashes and control
/// characters are escaped, and every other character stands for itself.
pub open spec fn escape(c: char) -> Seq<char> {
    if c == '"' || c == '\\' {
        seq!['\\', c]
    } else if c == '\u{8}' {
        seq!['\\', 'b']
    } else if c == '\t' {
        seq!['\\', 't']
    } else if c == '\n' {
        seq!['\\', 'n']
    } else if c == '\u{c}' {
        seq!['\\', 'f']
    } else if c == '\r' {
        seq!['\\', 'r']
    } else if (c as int) < 0x20 {
        seq!['\\', 'u', '0', '0', hex_digit(c as int / 16), hex_digit(c as int % 16)]
    } else {
        seq![c]
    }
}

/// The inside of the JSON string that writes `text`.
pub open spec fn escaped(text: Seq<char>) -> Seq<char>
    decreases text.len(),
{
    if text.len() == 0 {
        Seq::empty()
    } else {
        escaped(text.drop_last()) + escape(text.last())
    }
}

/// `text` as a JSON string.
pub open spec fn quoted(text: Seq<char>) -> Seq<char> {
    seq!['"'] + escaped(text) + seq!['"']
}

/// How `serde::de::Unexpected` describes the string `text`.
pub uninterp spec fn string_described(text: Seq<char>) -> Seq<char>;

/// Takes a `serde_json::Value` apart: the text that its `Display` prints, and
/// what its variant holds. Nothing is claimed of the result here; the
/// functions that read texts name what they get through it.
#[verifier::external_body]
fn taken_apart(value: serde_json::Value) -> JsonValue {
    let text = value.to_string();
    let kind = match value {
        serde_json::Value::Null => JsonKind::Null,
        serde_json::Value::Bool(b) => JsonKind::Bool(b),
        serde_json::Value::Number(n) => JsonKind::Number { integer: n.as_i64(), fraction: n.is_f64() },
        serde_json::Value::String(s) => JsonKind::Str(s),
        serde_json::Value::Array(items) => JsonKind::Array(
            items.into_iter().map(taken_apart).collect(),
        ),
        serde_json::Value::Object(members) => JsonKind::Object(
            members.into_iter().map(|m| (m.0, taken_apart(m.1))).collect(),
        ),
    };
    JsonValue { text, kind }
}

/// Calls `Value::deserialize` on `serde_json::Deserializer::from_str`: reads
/// the value that `text` starts with and leaves the rest of `text` alone. The
/// contract claims that the outcome depends on `text` alone.
#[verifier::external_body]
pub(crate) fn read_first(text: &str) -> (r: Result<JsonValue, String>)
    ensures
        told(r) == first_json(text@),
{
    let mut reader = serde_json::Deserializer::from_str(text);
    match <serde_json::Value as serde::Deserialize>::deserialize(&mut reader) {
        Ok(value) => Ok(taken_apart(value)),
        Err(e) => Err(e.to_string()),
    }
}

/// Calls `serde_json::from_str` for a value: `text` holds that value and
/// nothing else but white space. The contract claims that the outcome depends
/// on `text` alone.
#[verifier::external_body]
pub(crate) fn read_whole(text: &str) -> (r: Result<JsonValue, String>)
    ensures
        told(r) == whole_json(text@),
{
    match serde_json::from_str::<serde_json::Value>(text) {
        Ok(value) => Ok(taken_apart(value)),
        Err(e) => Err(e.to_string()),
    }
}

/// Calls `serde_json::from_str` for a list of values. The contract claims that
/// the outcome depends on `text` alone.
#[verifier::external_body]
pub(crate) fn read_items(text: &str) -> (r: Result<Vec<JsonValue>, String>)
    ensures
        told(r) == json_items(text@),
{
    match serde_json::from_str::<Vec<serde_json::Value>>(text) {
        Ok(items) => Ok(items.into_iter().map(taken_apart).collect()),
        Err(e) => Err(e.to_string()),
    }
}

/// Prints `text` as a JSON string, by the `Display` of `serde_json::Value`.
/// The contract claims that it goes character by character: quotes, backslashes
/// and control characters are escaped, and the rest is left as it is.
#[verifier::external_body]
pub(crate) fn quote(text: &str) -> (r: String)
    ensures
        r@ == quoted(text@),
{
    serde_json::Value::from(text).to_string()
}

/// The `Display` of `serde::de::Unexpected::Str`. The contract claims that
/// the outcome depends on `text` alone.
#[verifier::external_body]
fn describe_string(text: &str) -> (r: String)
    ensures
        r@ == string_described(text@),
{
    serde::de::Unexpected::Str(text).to_string()
}

/// What an object with these members holds at `name`.
pub open spec fn member_of(members: Seq<(Seq<char>, JsonView)>, name: Seq<char>) -> Option<JsonView>
    decreases members.len(),
{
    if members.len() == 0 {
        None
    } else if members.last().0 == name {
        Some(members.last().1)
    } else {
        member_of(members.drop_last(), name)
    }
}

impl JsonView {
    /// What this value holds at `name`: nothing, where it is no object.
    pub open spec fn member(self, name: Seq<char>) -> Option<JsonView> {
        match self.kind {
            JsonKindView::Object(members) => member_of(members, name),
            _ => None,
        }
    }

    /// How an error message speaks of this value.
    pub open spec fn described(self) -> Seq<char> {
        match self.kind {
            JsonKindView::Null => "null"@,
            JsonKindView::Bool(b) => if b {
                "boolean `true`"@
            } else {
                "boolean `false`"@
            },
            JsonKindView::Number { fraction, .. } => if fraction {
                "floating point `"@ + self.text + "`"@
            } else {
                "integer `"@ + self.text + "`"@
            },
            JsonKindView::Str(s) => string_described(s),
            JsonKindView::Array(_) => "sequence"@,
            JsonKindView::Object(_) => "map"@,
        }
    }
}

impl JsonValue {
    /// Reads a text that is one JSON value.
    pub fn read(text: &str) -> (r: Result<JsonValue, String>)
        ensures
            told(r) == whole_json(text@),
    {
        read_whole(text)
    }

    /// The member `name`: nothing, where this is no object or has no such
    /// member.
    pub fn member(&self, name: &str) -> (r: Option<&JsonValue>)
        ensures
            r.deep_view() == self.deep_view().member(name@),
    {
        match &self.kind {
            JsonKind::Object(members) => {
                let ghost all = self.deep_view().kind->Object_0;
                let mut i: usize = members.len();
                assert(all.take(all.len() as int) =~= all);
                while i > 0
                    invariant
                        self.kind == JsonKind::Object(*members),
                        all == self.deep_view().kind->Object_0,
                        all.len() == members@.len(),
                        i <= all.len(),
                        member_of(all, name@) == member_of(all.take(i as int), name@),
                    decreases i,
                {
                    i -= 1;
                    assert(all.take(i + 1).drop_last() =~= all.take(i as int));
                    if text::text_eq(members[i].0.as_str(), name) {
                        return Some(&members[i].1);
                    }
                }
                None
            },
            _ => None,
        }
    }

    /// How an error message speaks of this value.
    pub(crate) fn describe(&self) -> (r: String)
        ensures
            r@ == self.deep_view().described(),
    {
        match &self.kind {
            JsonKind::Null => "null".to_string(),
            JsonKind::Bool(b) => if *b {
                "boolean `true`".to_string()
            } else {
                "boolean `false`".to_string()
            },
            JsonKind::Number { fraction, .. } => {
                let head = if *fraction {
                    "floating point `"
                } else {
                    "integer `"
                };
                let start = text::concat(head, self.text.as_str());
                text::concat(start.as_str(), "`")
            },
            JsonKind::Str(s) => describe_string(s.as_str()),
            JsonKind::Array(_) => "sequence".to_string(),
            JsonKind::Object(_) => "map".to_string(),
        }
    }
}

/// The view of a value shows its text and what it is, item by item and member
/// by member.
pub proof fn values_show_what_they_are(v: JsonValue, i: int)
    ensures
        v.deep_view().text == v.text@,
        v.kind is Null <==> v.deep_view().kind is Null,
        v.kind matches JsonKind::Bool(b) ==> v.deep_view().kind == JsonKindView::Bool(b),
        v.kind matches JsonKind::Number { integer, fraction } ==> v.deep_view().kind == (
        JsonKindView::Number { integer, fraction }),
        v.kind matches JsonKind::Str(s) ==> v.deep_view().kind == JsonKindView::Str(s@),
        v.kind matches JsonKind::Array(items) ==> {
            &&& v.deep_view().kind is Array
            &&& v.deep_view().kind->Array_0.len() == items@.len()
            &&& 0 <= i < items@.len() ==> v.deep_view().kind->Array_0[i] == items@[i].deep_view()
        },
        v.kind matches JsonKind::Object(members) ==> {
            &&& v.deep_view().kind is Object
            &&& v.deep_view().kind->Object_0.len() == members@.len()
            &&& 0 <= i < members@.len() ==> v.deep_view().kind->Object_0[i].0 == members@[i].0@
            &&& 0 <= i < members@.len() ==> v.deep_view().kind->Object_0[i].1
                == members@[i].1.deep_view()
        },
{
}

/// An object holds at a name what its member of that name is, the last one if
/// there were two; it holds nothing at any other name, and what is no object
/// holds nothing at all.
pub proof fn members_are_found_by_name(
    v: JsonView,
    members: Seq<(Seq<char>, JsonView)>,
    i: int,
    name: Seq<char>,
)
    ensures
        v.kind == JsonKindView::Object(members) && 0 <= i < members.len() && members[i].0 == name
            && (forall|j: int| i < j < members.len() ==> (#[trigger] members[j]).0 != name)
            ==> v.member(name) == Some(members[i].1),
        v.kind == JsonKindView::Object(members) && (forall|j: int|
            0 <= j < members.len() ==> (#[trigger] members[j]).0 != name) ==> v.member(
            name,
        ) is None,
        !(v.kind is Object) ==> v.member(name) is None,
{
    lemma_member_of(members, i, name);
}

proof fn lemma_member_of(members: Seq<(Seq<char>, JsonView)>, i: int, name: Seq<char>)
    ensures
        0 <= i < members.len() && members[i].0 == name && (forall|j: int|
            i < j < members.len() ==> (#[trigger] members[j]).0 != name) ==> member_of(
            members,
            name,
        ) == Some(members[i].1),
        (forall|j: int| 0 <= j < members.len() ==> (#[trigger] members[j]).0 != name) ==> member_of(
            members,
            name,
        ) is None,
    decreases members.len(),
{
    if members.len() > 0 {
        let rest = members.drop_last();
        let last = members.len() - 1;
        lemma_member_of(rest, i, name);
        assert(forall|j: int| 0 <= j < last ==> #[trigger] rest[j] == members[j]);
        if 0 <= i < last && members[i].0 == name && (forall|j: int|
            i < j < members.len() ==> (#[trigger] members[j]).0 != name) {
            assert(members[last].0 != name);
            assert(forall|j: int| i < j < rest.len() ==> (#[trigger] rest[j]).0 != name);
        }
        if forall|j: int| 0 <= j < members.len() ==> (#[trigger] members[j]).0 != name {
            assert(members[last].0 != name);
            assert(forall|j: int| 0 <= j < rest.len() ==> (#[trigger] rest[j]).0 != name);
        }
    }
}

/// What a reader made of a text is seen as its value, or as the words of its
/// error.
pub proof fn readings_show_both_sides<T: DeepView>(r: Result<T, String>)
    ensures
        r matches Ok(v) ==> told(r) == Ok::<T::V, Seq<char>>(v.deep_view()),
        r matches Err(e) ==> told(r) == Err::<T::V, Seq<char>>(e@),
{
}

/// An error message names what a value is, and of a number and a truth value
/// also which.
pub proof fn values_are_described(v: JsonView)
    ensures
        v.kind is Null ==> v.described() == "null"@,
        v.kind == JsonKindView::Bool(true) ==> v.described() == "boolean `true`"@,
        v.kind == JsonKindView::Bool(false) ==> v.described() == "boolean `false`"@,
        v.kind is Number && v.kind->fraction ==> v.described() == "floating point `"@ + v.text
            + "`"@,
        v.kind is Number && !v.kind->fraction ==> v.described() == "integer `"@ + v.text + "`"@,
        v.kind matches JsonKindView::Str(s) ==> v.described() == string_described(s),
        v.kind is Array ==> v.described() == "sequence"@,
        v.kind is Object ==> v.described() == "map"@,
{
}

/// A text is quoted character by character. An ordinary character stands for
/// itself, a quote and a backslash come behind a backslash, and a control
/// character is written as its letter or as its number in hexadecimal.
pub proof fn texts_are_quoted(a: Seq<char>, b: Seq<char>, c: char)
    ensures
        escaped(a + b) == escaped(a) + escaped(b),
        quoted(a).len() == escaped(a).len() + 2,
        quoted(a)[0] == '"' && quoted(a).last() == '"',
        quoted(a).subrange(1, quoted(a).len() - 1) == escaped(a),
        escaped(seq!['"']) == "\\\""@,
        escaped(seq!['\\']) == "\\\\"@,
        escaped(seq!['\n']) == "\\n"@,
        escaped(seq!['\r']) == "\\r"@,
        escaped(seq!['\t']) == "\\t"@,
        escaped(seq!['\u{8}']) == "\\b"@,
        escaped(seq!['\u{c}']) == "\\f"@,
        c as int >= 0x20 && c != '"' && c != '\\' ==> escaped(seq![c]) == seq![c],
        (c as int) < 0x10 && escaped(seq![c]).len() != 2 ==> escaped(seq![c]) == "\\u000"@.push(
            hex_digit(c as int),
        ),
        0x10 <= c as int && (c as int) < 0x20 ==> escaped(seq![c]) == "\\u001"@.push(
            hex_digit(c as int - 0x10),
        ),
{
    lemma_escaped_concat(a, b);
    reveal_strlit("\\\"");
    reveal_strlit("\\\\");
    reveal_strlit("\\n");
    reveal_strlit("\\r");
    reveal_strlit("\\t");
    reveal_strlit("\\b");
    reveal_strlit("\\f");
    reveal_strlit("\\u000");
    reveal_strlit("\\u001");
    lemma_escaped_one('"');
    lemma_escaped_one('\\');
    lemma_escaped_one('\n');
    lemma_escaped_one('\r');
    lemma_escaped_one('\t');
    lemma_escaped_one('\u{8}');
    lemma_escaped_one('\u{c}');
    lemma_escaped_one(c);
    assert(quoted(a).subrange(1, quoted(a).len() - 1) =~= escaped(a));
}

proof fn lemma_escaped_one(c: char)
    ensures
        escaped(seq![c]) == escape(c),
{
    reveal_with_fuel(escaped, 2);
    assert(seq![c].drop_last() =~= Seq::<char>::empty());
    assert(escaped(seq![c]) =~= escape(c));
}

proof fn lemma_escaped_concat(a: Seq<char>, b: Seq<char>)
    ensures
        escaped(a + b) == escaped(a) + escaped(b),
    decreases b.len(),
{
    if b.len() == 0 {
        assert(a + b =~= a);
        assert(escaped(a) + escaped(b) =~= escaped(a));
    } else {
        lemma_escaped_concat(a, b.drop_last());
        assert((a + b).drop_last() =~= a + b.drop_last());
        assert((a + b).last() == b.last());
        assert(escaped(a + b) =~= escaped(a) + escaped(b));
    }
}

/// A hexadecimal digit is a figure up to nine and a letter from ten on.
pub proof fn hex_digits(n: int)
    ensures
        0 <= n < 10 ==> hex_digit(n) as int == '0' as int + n,
        10 <= n < 16 ==> hex_digit(n) as int == 'a' as int + (n - 10),
{
}

} // verus!
