//! Table plugins: tables that are only read, and tables that can be changed.

use crate::error;
use crate::error::Error;
use crate::json;
use crate::number;
use crate::plugin::column;
use crate::plugin::constraint;
use crate::plugin::mutation;
use crate::row;
use crate::row::{PluginRequest, PluginResponse};
use crate::server;
use crate::server::{OsqueryPlugin, RegistryName};
use crate::text;
use crate::text_map::TextMap;
use vstd::prelude::*;
use vstd::string::*;

pub use crate::plugin::column::{ColumnDefinition, ColumnType};
pub use crate::plugin::constraint::{
    Constraint, ConstraintList, InvalidOperator, Operator, QueryContext,
};
pub use crate::plugin::mutation::{
    ColumnValues, DeleteRequest, InsertRequest, MutationResult, UpdateRequest,
};

verus! {

broadcast use vstd::string::group_string_axioms;

/// The rows of a table.
pub type Table = Vec<TextMap<String>>;

/// How a column is advertised to osquery.
pub open spec fn route_of(c: column::ColumnView) -> row::RowView {
    Map::empty().insert("id"@, "column"@).insert("name"@, c.name).insert(
        "type"@,
        c.col_type.sql_name(),
    ).insert("op"@, number::int_text(c.mask()))
}

/// How columns are advertised to osquery, one row each.
pub open spec fn routes_of(columns: Seq<column::ColumnView>) -> Seq<row::RowView> {
    columns.map_values(|c: column::ColumnView| route_of(c))
}

/// Advertises columns to osquery.
pub fn build_routes(columns: &[ColumnDefinition]) -> (r: PluginResponse)
    ensures
        r.deep_view() == routes_of(columns.deep_view()),
{
    let mut routes: PluginResponse = Vec::new();
    let mut i: usize = 0;
    while i < columns.len()
        invariant
            i <= columns@.len(),
            routes@.len() == i,
            forall|j: int|
                0 <= j < i ==> (#[trigger] routes@[j]).deep_view() == route_of(
                    columns@[j].deep_view(),
                ),
        decreases columns@.len() - i,
    {
        let c = &columns[i];
        let mut route = row::empty_row();
        row::set_field(&mut route, "id", "column".to_string());
        row::set_field(&mut route, "name", c.name.clone());
        row::set_field(&mut route, "type", c.col_type.to_string());
        row::set_field(&mut route, "op", number::u64_text(c.options() as u64));
        routes.push(route);
        i += 1;
    }
    routes
}

/// The context of a request for rows, or why there is none.
pub open spec fn context_asked(request: row::RowView) -> Result<
    constraint::ContextView,
    error::ErrorView,
> {
    match row::at(request, "context"@) {
        None => Err(error::ErrorView::Other("missing query context"@)),
        Some(s) => match constraint::context_in(s) {
            Ok(context) => Ok(context),
            Err(e) => Err(error::ErrorView::Other("error parsing context JSON: "@ + e)),
        },
    }
}

/// Reads the context of a request for rows.
pub fn query_context(request: &PluginRequest) -> (r: Result<QueryContext, Error>)
    ensures
        error::outcome(r) == context_asked(request.deep_view()),
{
    match row::field(request, "context") {
        None => Err(Error::Other("missing query context".to_string())),
        Some(s) => match QueryContext::parse(s) {
            Ok(context) => Ok(context),
            Err(e) => Err(Error::Other(text::concat("error parsing context JSON: ", e.as_str()))),
        },
    }
}

/// The answer to a request for rows, given what the table made of it: a
/// status passes through, so that the table decides the code that osquery
/// sees, and any other error is said to come from generating the table.
pub open spec fn rows_reply(result: Result<Seq<row::RowView>, error::ErrorView>) -> Result<
    Seq<row::RowView>,
    error::ErrorView,
> {
    match result {
        Ok(rows) => Ok(rows),
        Err(e) => match e {
            error::ErrorView::Status { .. } => Err(e),
            _ => Err(error::ErrorView::Other("error generating table: "@ + e.text())),
        },
    }
}

/// Turns what a table made of a request for rows into the answer to osquery.
pub fn generate_reply(result: Result<Table, Error>) -> (r: Result<PluginResponse, Error>)
    ensures
        error::outcome(r) == rows_reply(error::outcome(result)),
{
    match result {
        Ok(rows) => Ok(rows),
        Err(e) => match e {
            Error::Status { code, message } => Err(Error::Status { code, message }),
            e => {
                let words = e.to_string();
                Err(Error::Other(text::concat("error generating table: ", words.as_str())))
            },
        },
    }
}

/// A platform that a table exists on.
#[derive(Clone, Copy, Debug, Eq, Hash, PartialEq, Structural)]
#[non_exhaustive]
pub enum Platform {
    Darwin,
    Windows,
    Linux,
}

impl DeepView for Platform {
    type V = Platform;

    open spec fn deep_view(&self) -> Platform {
        *self
    }
}

impl Platform {
    /// osquery's name for the platform.
    pub open spec fn text(self) -> Seq<char> {
        match self {
            Platform::Darwin => "darwin"@,
            Platform::Windows => "windows"@,
            Platform::Linux => "linux"@,
        }
    }

    /// The platform as JSON: its quoted name.
    pub fn to_json(&self) -> (r: String)
        ensures
            r@ == json::quoted(self.text()),
    {
        let name = match self {
            Platform::Darwin => "darwin",
            Platform::Windows => "windows",
            Platform::Linux => "linux",
        };
        json::quote(name)
    }
}

/// The platforms of an operating system, by the name that Rust has for it
/// (`std::env::consts::OS`).
pub open spec fn platforms_on(os: Seq<char>) -> Seq<Platform> {
    if os == "macos"@ {
        seq![Platform::Darwin]
    } else if os == "windows"@ {
        seq![Platform::Windows]
    } else if os == "linux"@ {
        seq![Platform::Linux]
    } else {
        Seq::empty()
    }
}

/// The platforms of an operating system, by the name that Rust has for it
/// (`std::env::consts::OS`).
pub fn default_platform(os: &str) -> (r: Vec<Platform>)
    ensures
        r@ == platforms_on(os@),
{
    let mut r: Vec<Platform> = Vec::new();
    if text::text_eq(os, "macos") {
        r.push(Platform::Darwin);
    } else if text::text_eq(os, "windows") {
        r.push(Platform::Windows);
    } else if text::text_eq(os, "linux") {
        r.push(Platform::Linux);
    }
    r
}

/// The description of a table, as osquery's spec files have it.
#[derive(Debug)]
pub struct OsqueryTableSpec {
    pub name: String,
    pub description: String,
    pub url: String,
    pub platforms: Vec<Platform>,
    pub evented: bool,
    pub cacheable: bool,
    pub notes: String,
    pub examples: Vec<String>,
    pub columns: Vec<ColumnDefinition>,
}

/// An [`OsqueryTableSpec`] in terms of its characters.
pub struct TableSpecView {
    pub name: Seq<char>,
    pub description: Seq<char>,
    pub url: Seq<char>,
    pub platforms: Seq<Platform>,
    pub evented: bool,
    pub cacheable: bool,
    pub notes: Seq<char>,
    pub examples: Seq<Seq<char>>,
    pub columns: Seq<column::ColumnView>,
}

impl DeepView for OsqueryTableSpec {
    type V = TableSpecView;

    open spec fn deep_view(&self) -> TableSpecView {
        TableSpecView {
            name: self.name@,
            description: self.description@,
            url: self.url@,
            platforms: self.platforms@,
            evented: self.evented,
            cacheable: self.cacheable,
            notes: self.notes@,
            examples: self.examples.deep_view(),
            columns: self.columns.deep_view(),
        }
    }
}

/// `items` with a comma between each and the next.
pub open spec fn comma_separated(items: Seq<Seq<char>>) -> Seq<char>
    decreases items.len(),
{
    if items.len() == 0 {
        Seq::empty()
    } else if items.len() == 1 {
        items[0]
    } else {
        comma_separated(items.drop_last()) + ","@ + items.last()
    }
}

/// The JSON array of `items`, each already JSON.
pub open spec fn json_array(items: Seq<Seq<char>>) -> Seq<char> {
    "["@ + comma_separated(items) + "]"@
}

impl TableSpecView {
    /// The description as compact JSON; empty notes and examples are left out.
    pub open spec fn json(self) -> Seq<char> {
        "{\"name\":"@ + json::quoted(self.name) + column::json_member(
            "description"@,
            json::quoted(self.description),
        ) + column::json_member("url"@, json::quoted(self.url)) + column::json_member(
            "platforms"@,
            json_array(self.platforms.map_values(|p: Platform| json::quoted(p.text()))),
        ) + column::json_member("evented"@, column::json_bool(self.evented)) + column::json_member(
            "cacheable"@,
            column::json_bool(self.cacheable),
        ) + column::json_text_member("notes"@, self.notes) + (if self.examples.len() == 0 {
            Seq::empty()
        } else {
            column::json_member(
                "examples"@,
                json_array(self.examples.map_values(|e: Seq<char>| json::quoted(e))),
            )
        }) + column::json_member(
            "columns"@,
            json_array(self.columns.map_values(|c: column::ColumnView| c.json())),
        ) + "}"@
    }
}

/// Writes the JSON array of `items`, each already JSON.
fn array_json(items: &Vec<String>) -> (r: String)
    ensures
        r@ == json_array(items.deep_view()),
{
    let ghost all = items.deep_view();
    let mut out = "[".to_string();
    let mut i: usize = 0;
    while i < items.len()
        invariant
            all == items.deep_view(),
            all.len() == items@.len(),
            i <= items@.len(),
            out@ == "["@ + comma_separated(all.take(i as int)),
        decreases items@.len() - i,
    {
        if i > 0 {
            out.append(",");
        }
        out.append(items[i].as_str());
        assert(all.take(i + 1).drop_last() =~= all.take(i as int));
        i += 1;
    }
    assert(all.take(all.len() as int) =~= all);
    out.append("]");
    out
}

impl OsqueryTableSpec {
    /// The description as compact JSON.
    pub fn to_json(&self) -> (r: String)
        ensures
            r@ == self.deep_view().json(),
    {
        let name = json::quote(self.name.as_str());
        let mut out = text::concat("{\"name\":", name.as_str());
        let description = json::quote(self.description.as_str());
        column::add_member(&mut out, "description", description.as_str());
        let url = json::quote(self.url.as_str());
        column::add_member(&mut out, "url", url.as_str());
        let platforms = self.platforms_json();
        column::add_member(&mut out, "platforms", platforms.as_str());
        column::add_member(&mut out, "evented", column::bool_json(self.evented));
        column::add_member(&mut out, "cacheable", column::bool_json(self.cacheable));
        column::add_text_member(&mut out, "notes", self.notes.as_str());
        if self.examples.len() > 0 {
            let examples = self.examples_json();
            column::add_member(&mut out, "examples", examples.as_str());
        }
        let columns = self.columns_json();
        column::add_member(&mut out, "columns", columns.as_str());
        out.append("}");
        out
    }

    fn platforms_json(&self) -> (r: String)
        ensures
            r@ == json_array(self.platforms@.map_values(|p: Platform| json::quoted(p.text()))),
    {
        let mut items: Vec<String> = Vec::new();
        let mut i: usize = 0;
        while i < self.platforms.len()
            invariant
                i <= self.platforms@.len(),
                items@.len() == i,
                forall|j: int|
                    0 <= j < i ==> (#[trigger] items@[j])@ == json::quoted(
                        self.platforms@[j].text(),
                    ),
            decreases self.platforms@.len() - i,
        {
            items.push(self.platforms[i].to_json());
            i += 1;
        }
        assert(items.deep_view() =~= self.platforms@.map_values(
            |p: Platform| json::quoted(p.text()),
        ));
        array_json(&items)
    }

    fn examples_json(&self) -> (r: String)
        ensures
            r@ == json_array(
                self.examples.deep_view().map_values(|e: Seq<char>| json::quoted(e)),
            ),
    {
        let mut items: Vec<String> = Vec::new();
        let mut i: usize = 0;
        while i < self.examples.len()
            invariant
                i <= self.examples@.len(),
                items@.len() == i,
                forall|j: int|
                    0 <= j < i ==> (#[trigger] items@[j])@ == json::quoted(self.examples@[j]@),
            decreases self.examples@.len() - i,
        {
            items.push(json::quote(self.examples[i].as_str()));
            i += 1;
        }
        assert(items.deep_view() =~= self.examples.deep_view().map_values(
            |e: Seq<char>| json::quoted(e),
        ));
        array_json(&items)
    }

    fn columns_json(&self) -> (r: String)
        ensures
            r@ == json_array(
                self.columns.deep_view().map_values(|c: column::ColumnView| c.json()),
            ),
    {
        let mut items: Vec<String> = Vec::new();
        let mut i: usize = 0;
        while i < self.columns.len()
            invariant
                i <= self.columns@.len(),
                items@.len() == i,
                forall|j: int|
                    0 <= j < i ==> (#[trigger] items@[j])@ == self.columns@[j].deep_view().json(),
            decreases self.columns@.len() - i,
        {
            items.push(self.columns[i].to_json());
            i += 1;
        }
        assert(items.deep_view() =~= self.columns.deep_view().map_values(
            |c: column::ColumnView| c.json(),
        ));
        array_json(&items)
    }
}

/// A table that is only read.
///
/// For a table that can be changed, implement [`WritableTable`] and wrap it in
/// a [`WritableTablePlugin`].
pub struct TablePlugin<GenFunc: FnMut(QueryContext) -> Result<Table, Error>> {
    name: String,
    columns: Vec<ColumnDefinition>,
    generate: GenFunc,
    description: String,
    url: String,
    notes: String,
    examples: Vec<String>,
    platforms: Vec<Platform>,
    log: Ghost<Seq<server::PluginEvent>>,
}

impl<GenFunc: FnMut(QueryContext) -> Result<Table, Error>> TablePlugin<GenFunc> {
    /// The table's description.
    pub closed spec fn described(&self) -> TableSpecView {
        TableSpecView {
            name: self.name@,
            description: self.description@,
            url: self.url@,
            platforms: self.platforms@,
            evented: false,
            cacheable: false,
            notes: self.notes@,
            examples: self.examples.deep_view(),
            columns: self.columns.deep_view(),
        }
    }

    /// The function that makes the rows.
    pub closed spec fn generator(&self) -> GenFunc {
        self.generate
    }

    /// What was asked of the plugin so far, and what it answered.
    pub closed spec fn asked(&self) -> Seq<server::PluginEvent> {
        self.log@
    }

    /// A table whose rows `generate` makes.
    ///
    /// `os` is the operating system that the table is on, as
    /// [`default_platform`] takes it.
    pub fn new(name: &str, columns: Vec<ColumnDefinition>, os: &str, generate: GenFunc) -> (r: Self)
        ensures
            r.described() == (TableSpecView {
                name: name@,
                description: Seq::empty(),
                url: Seq::empty(),
                platforms: platforms_on(os@),
                evented: false,
                cacheable: false,
                notes: Seq::empty(),
                examples: Seq::empty(),
                columns: columns.deep_view(),
            }),
            r.generator() == generate,
            r.asked() == Seq::<server::PluginEvent>::empty(),
    {
        let examples: Vec<String> = Vec::new();
        assert(examples.deep_view() =~= Seq::<Seq<char>>::empty());
        TablePlugin {
            name: name.to_string(),
            columns,
            generate,
            description: String::new(),
            url: String::new(),
            notes: String::new(),
            examples,
            platforms: default_platform(os),
            log: Ghost(Seq::empty()),
        }
    }

    /// Sets the table's description.
    #[must_use]
    pub fn description(self, description: &str) -> (r: Self)
        ensures
            r.described() == (TableSpecView { description: description@, ..self.described() }),
            r.generator() == self.generator(),
            r.asked() == self.asked(),
    {
        TablePlugin { description: description.to_string(), ..self }
    }

    /// Sets the address where the table is described.
    #[must_use]
    pub fn url(self, url: &str) -> (r: Self)
        ensures
            r.described() == (TableSpecView { url: url@, ..self.described() }),
            r.generator() == self.generator(),
            r.asked() == self.asked(),
    {
        TablePlugin { url: url.to_string(), ..self }
    }

    /// Sets the notes on the table.
    #[must_use]
    pub fn notes(self, notes: &str) -> (r: Self)
        ensures
            r.described() == (TableSpecView { notes: notes@, ..self.described() }),
            r.generator() == self.generator(),
            r.asked() == self.asked(),
    {
        TablePlugin { notes: notes.to_string(), ..self }
    }

    /// Adds an example query.
    #[must_use]
    pub fn example(self, example: &str) -> (r: Self)
        ensures
            r.described() == (TableSpecView {
                examples: self.described().examples.push(example@),
                ..self.described()
            }),
            r.generator() == self.generator(),
            r.asked() == self.asked(),
    {
        let ghost before = self.examples.deep_view();
        let mut this = self;
        this.examples.push(example.to_string());
        assert(this.examples.deep_view() =~= before.push(example@));
        this
    }

    /// Sets the platforms that the table exists on.
    #[must_use]
    pub fn platforms(self, platforms: Vec<Platform>) -> (r: Self)
        ensures
            r.described() == (TableSpecView { platforms: platforms@, ..self.described() }),
            r.generator() == self.generator(),
            r.asked() == self.asked(),
    {
        TablePlugin { platforms, ..self }
    }

    /// The table's description.
    pub fn spec(&self) -> (r: OsqueryTableSpec)
        ensures
            r.deep_view() == self.described(),
    {
        let mut columns: Vec<ColumnDefinition> = Vec::new();
        let mut i: usize = 0;
        while i < self.columns.len()
            invariant
                i <= self.columns@.len(),
                columns@.len() == i,
                forall|j: int|
                    0 <= j < i ==> (#[trigger] columns@[j]).deep_view()
                        == self.columns@[j].deep_view(),
            decreases self.columns@.len() - i,
        {
            columns.push(self.columns[i].clone());
            i += 1;
        }
        assert(columns.deep_view() =~= self.columns.deep_view());
        let examples = self.examples.clone();
        let platforms = self.platforms.clone();
        OsqueryTableSpec {
            name: self.name.clone(),
            description: self.description.clone(),
            url: self.url.clone(),
            platforms,
            evented: false,
            cacheable: false,
            notes: self.notes.clone(),
            examples,
            columns,
        }
    }
}

/// Whether `generate` can be called with every context.
pub open spec fn takes_any_context<GenFunc: FnMut(QueryContext) -> Result<Table, Error>>(
    generate: GenFunc,
) -> bool {
    forall|c: QueryContext| #[trigger] generate.requires((c,))
}

/// Whether `reply` is what a table with these columns, whose rows `generate`
/// makes, answers to `request`.
pub open spec fn read_only_answer<GenFunc: FnMut(QueryContext) -> Result<Table, Error>>(
    columns: Seq<column::ColumnView>,
    generate: GenFunc,
    request: row::RowView,
    reply: Result<Seq<row::RowView>, error::ErrorView>,
) -> bool {
    match row::at(request, "action"@) {
        None => reply == Err::<Seq<row::RowView>, _>(
            error::ErrorView::Other("missing action"@),
        ),
        Some(action) => if action == "generate"@ {
            match context_asked(request) {
                Err(e) => reply == Err::<Seq<row::RowView>, _>(e),
                Ok(context) => exists|c: QueryContext, made: Result<Table, Error>|
                    {
                        &&& c.deep_view() == context
                        &&& #[trigger] generate.ensures((c,), made)
                        &&& reply == rows_reply(error::outcome(made))
                    },
            }
        } else if action == "columns"@ {
            reply == Ok::<_, error::ErrorView>(routes_of(columns))
        } else {
            reply == Err::<Seq<row::RowView>, _>(
                error::ErrorView::Other("unknown action: "@ + action),
            )
        },
    }
}

impl<GenFunc: FnMut(QueryContext) -> Result<Table, Error> + Send + Sync> OsqueryPlugin for TablePlugin<
    GenFunc,
> {
    open spec fn ready(&self) -> bool {
        takes_any_context(self.generator())
    }

    open spec fn plugin_name(&self) -> Seq<char> {
        self.described().name
    }

    open spec fn registry(&self) -> RegistryName {
        RegistryName::Table
    }

    open spec fn history(&self) -> Seq<server::PluginEvent> {
        self.asked()
    }

    open spec fn health_may_be(&self, reply: Result<(), error::ErrorView>) -> bool {
        reply is Ok
    }

    open spec fn may_answer(
        &self,
        request: row::RowView,
        reply: Result<Seq<row::RowView>, error::ErrorView>,
    ) -> bool {
        read_only_answer(self.described().columns, self.generator(), request, reply)
    }

    open spec fn may_offer(&self, rows: Seq<row::RowView>) -> bool {
        rows == routes_of(self.described().columns)
    }

    open spec fn steady(&self) -> bool {
        true
    }

    fn name(&self) -> (r: &str) {
        self.name.as_str()
    }

    fn registry_name(&self) -> (r: RegistryName) {
        RegistryName::Table
    }

    fn routes(&mut self) -> (r: PluginResponse)
        ensures
            r.deep_view() == routes_of(old(self).described().columns),
            final(self).described() == old(self).described(),
            final(self).generator() == old(self).generator(),
    {
        let r = build_routes(self.columns.as_slice());
        proof {
            self.log@ = self.log@.push(server::PluginEvent::Routes(r.deep_view()));
        }
        r
    }

    /// A read-only table is always well.
    fn ping(&mut self) -> (r: Result<(), Error>)
        ensures
            r is Ok,
            *final(self) == *old(self),
    {
        Ok(())
    }

    fn call(&mut self, req: PluginRequest) -> (r: Result<PluginResponse, Error>)
        ensures
            read_only_answer(
                old(self).described().columns,
                old(self).generator(),
                req.deep_view(),
                error::outcome(r),
            ),
            final(self).described() == old(self).described(),
            final(self).generator() == old(self).generator(),
    {
        let r = self.answer(&req);
        proof {
            self.log@ = self.log@.push(
                server::PluginEvent::Call { request: req.deep_view(), reply: error::outcome(r) },
            );
        }
        r
    }

    fn shutdown(&mut self)
        ensures
            final(self).described() == old(self).described(),
            final(self).generator() == old(self).generator(),
    {
        proof {
            self.log@ = self.log@.push(server::PluginEvent::Shutdown);
        }
    }
}

impl<GenFunc: FnMut(QueryContext) -> Result<Table, Error>> TablePlugin<GenFunc> {
    fn answer(&mut self, req: &PluginRequest) -> (r: Result<PluginResponse, Error>)
        requires
            takes_any_context(old(self).generator()),
        ensures
            final(self).generator() == old(self).generator(),
            read_only_answer(
                old(self).described().columns,
                old(self).generator(),
                req.deep_view(),
                error::outcome(r),
            ),
            final(self).described() == old(self).described(),
            final(self).asked() == old(self).asked(),
    {
        let action = match row::field(req, "action") {
            None => return Err(Error::Other("missing action".to_string())),
            Some(action) => action,
        };
        if text::text_eq(action, "generate") {
            match query_context(req) {
                Err(e) => Err(e),
                Ok(context) => {
                    let made = (self.generate)(context);
                    generate_reply(made)
                },
            }
        } else if text::text_eq(action, "columns") {
            Ok(build_routes(self.columns.as_slice()))
        } else {
            Err(Error::Other(text::concat("unknown action: ", action)))
        }
    }
}

/// A read-only table is ready for requests when its function can be called
/// with every context. It is in the table registry under its own name.
pub proof fn read_only_tables_are_ready<
    GenFunc: FnMut(QueryContext) -> Result<Table, Error> + Send + Sync,
>(plugin: TablePlugin<GenFunc>)
    ensures
        plugin.ready() == takes_any_context(plugin.generator()),
        plugin.plugin_name() == plugin.described().name,
        plugin.registry() == RegistryName::Table,
        plugin.history() == plugin.asked(),
        forall|reply: Result<(), error::ErrorView>| #[trigger]
            plugin.health_may_be(reply) <==> reply is Ok,
        forall|request: row::RowView, reply: Result<Seq<row::RowView>, error::ErrorView>| #[trigger]
            plugin.may_answer(request, reply) <==> read_only_answer(
                plugin.described().columns,
                plugin.generator(),
                request,
                reply,
            ),
        forall|rows: Seq<row::RowView>| #[trigger]
            plugin.may_offer(rows) <==> rows == routes_of(plugin.described().columns),
        plugin.steady(),
{
}

/// Something that was asked of a writable table, with its answer.
pub enum TableEvent {
    /// It was asked for rows.
    Generate {
        context: constraint::ContextView,
        rows: Result<Seq<row::RowView>, error::ErrorView>,
    },
    /// It was asked to insert a row.
    Insert {
        insert: mutation::InsertView,
        reply: Result<mutation::MutationView, error::ErrorView>,
    },
    /// It was asked to change a row.
    Update {
        update: mutation::UpdateView,
        reply: Result<mutation::MutationView, error::ErrorView>,
    },
    /// It was asked to delete a row.
    Delete {
        delete: mutation::DeleteView,
        reply: Result<mutation::MutationView, error::ErrorView>,
    },
}

/// A table that can be changed.
///
/// Implement this on the type that holds the table's state, and wrap it in a
/// [`WritableTablePlugin`] to register it.
pub trait WritableTable: Send + Sync {
    /// Whether the table is fit for use.
    open spec fn fit(&self) -> bool {
        true
    }

    /// The table's name.
    open spec fn table_name(&self) -> Seq<char> {
        Seq::empty()
    }

    /// The table's columns.
    open spec fn table_columns(&self) -> Seq<column::ColumnView> {
        Seq::empty()
    }

    /// What was asked of the table so far, and what it answered.
    open spec fn events(&self) -> Seq<TableEvent> {
        Seq::empty()
    }

    /// The table's name, as osquery knows it.
    fn name(&self) -> (r: &str)
        requires
            self.fit(),
        ensures
            r@ == self.table_name(),
    ;

    /// The table's columns.
    fn columns(&self) -> (r: Vec<ColumnDefinition>)
        requires
            self.fit(),
        ensures
            r.deep_view() == self.table_columns(),
    ;

    /// The rows for a `SELECT`.
    fn generate(&mut self, ctx: QueryContext) -> (r: Result<Table, Error>)
        requires
            old(self).fit(),
        ensures
            final(self).fit(),
            final(self).table_name() == old(self).table_name(),
            final(self).events() == old(self).events().push(
                TableEvent::Generate { context: ctx.deep_view(), rows: error::outcome(r) },
            ),
    ;

    /// Makes an `INSERT`.
    fn insert(&mut self, req: InsertRequest) -> (r: Result<MutationResult, Error>)
        requires
            old(self).fit(),
        ensures
            final(self).fit(),
            final(self).table_name() == old(self).table_name(),
            final(self).events() == old(self).events().push(
                TableEvent::Insert { insert: req.deep_view(), reply: error::outcome(r) },
            ),
    ;

    /// Makes an `UPDATE`.
    fn update(&mut self, req: UpdateRequest) -> (r: Result<MutationResult, Error>)
        requires
            old(self).fit(),
        ensures
            final(self).fit(),
            final(self).table_name() == old(self).table_name(),
            final(self).events() == old(self).events().push(
                TableEvent::Update { update: req.deep_view(), reply: error::outcome(r) },
            ),
    ;

    /// Makes a `DELETE`.
    fn delete(&mut self, req: DeleteRequest) -> (r: Result<MutationResult, Error>)
        requires
            old(self).fit(),
        ensures
            final(self).fit(),
            final(self).table_name() == old(self).table_name(),
            final(self).events() == old(self).events().push(
                TableEvent::Delete { delete: req.deep_view(), reply: error::outcome(r) },
            ),
    ;
}

/// A [`WritableTable`] as a plugin.
pub struct WritableTablePlugin<T: WritableTable> {
    inner: T,
    log: Ghost<Seq<server::PluginEvent>>,
}

/// The insertion that a request asks for, or the answer that it asks for none.
pub open spec fn insert_asked(request: row::RowView) -> Result<
    mutation::InsertView,
    Seq<row::RowView>,
> {
    match mutation::values_asked(request, "insert"@) {
        Err(rows) => Err(rows),
        Ok(values) => Ok(
            mutation::InsertView {
                values,
                auto_rowid: match row::at(request, "auto_rowid"@) {
                    Some(s) => text::says_true(s),
                    None => false,
                },
                row_id: mutation::number_in(request, "id"@),
                context: mutation::mutation_context(request),
            },
        ),
    }
}

/// The update that a request asks for, or the answer that it asks for none.
pub open spec fn update_asked(request: row::RowView) -> Result<
    mutation::UpdateView,
    Seq<row::RowView>,
> {
    match mutation::row_id_in(request, "id"@) {
        Err(e) => Err(mutation::failed("update: "@ + e.text())),
        Ok(row_id) => match mutation::values_asked(request, "update"@) {
            Err(rows) => Err(rows),
            Ok(values) => Ok(
                mutation::UpdateView {
                    row_id,
                    new_row_id: mutation::number_in(request, "new_id"@),
                    values,
                    context: mutation::mutation_context(request),
                },
            ),
        },
    }
}

/// The deletion that a request asks for, or the answer that it asks for none.
pub open spec fn delete_asked(request: row::RowView) -> Result<
    mutation::DeleteView,
    Seq<row::RowView>,
> {
    match mutation::row_id_in(request, "id"@) {
        Err(e) => Err(mutation::failed("delete: "@ + e.text())),
        Ok(row_id) => Ok(
            mutation::DeleteView { row_id, context: mutation::mutation_context(request) },
        ),
    }
}

/// Whether `rows` answer a request to insert, given what the table was asked
/// before and after it. The table is asked once, and only for a request that
/// can be read.
pub open spec fn insert_answer(
    before: Seq<TableEvent>,
    after: Seq<TableEvent>,
    request: row::RowView,
    rows: Seq<row::RowView>,
) -> bool {
    match insert_asked(request) {
        Err(refusal) => after == before && rows == refusal,
        Ok(insert) => {
            &&& after.len() == before.len() + 1
            &&& after.drop_last() == before
            &&& after.last() matches TableEvent::Insert { insert: told, reply }
            &&& told == insert
            &&& rows == mutation::mutation_reply("insert"@, reply)
        },
    }
}

/// Whether `rows` answer a request to update, as [`insert_answer`] says it of
/// an insertion.
pub open spec fn update_answer(
    before: Seq<TableEvent>,
    after: Seq<TableEvent>,
    request: row::RowView,
    rows: Seq<row::RowView>,
) -> bool {
    match update_asked(request) {
        Err(refusal) => after == before && rows == refusal,
        Ok(update) => {
            &&& after.len() == before.len() + 1
            &&& after.drop_last() == before
            &&& after.last() matches TableEvent::Update { update: told, reply }
            &&& told == update
            &&& rows == mutation::mutation_reply("update"@, reply)
        },
    }
}

/// Whether `rows` answer a request to delete, as [`insert_answer`] says it of
/// an insertion.
pub open spec fn delete_answer(
    before: Seq<TableEvent>,
    after: Seq<TableEvent>,
    request: row::RowView,
    rows: Seq<row::RowView>,
) -> bool {
    match delete_asked(request) {
        Err(refusal) => after == before && rows == refusal,
        Ok(delete) => {
            &&& after.len() == before.len() + 1
            &&& after.drop_last() == before
            &&& after.last() matches TableEvent::Delete { delete: told, reply }
            &&& told == delete
            &&& rows == mutation::mutation_reply("delete"@, reply)
        },
    }
}

/// Whether `reply` answers a request for rows, given what the table was asked
/// before and after it.
pub open spec fn generate_answer(
    before: Seq<TableEvent>,
    after: Seq<TableEvent>,
    request: row::RowView,
    reply: Result<Seq<row::RowView>, error::ErrorView>,
) -> bool {
    match context_asked(request) {
        Err(e) => after == before && reply == Err::<Seq<row::RowView>, _>(e),
        Ok(asked) => {
            &&& after.len() == before.len() + 1
            &&& after.drop_last() == before
            &&& after.last() matches TableEvent::Generate { context, rows: made }
            &&& context == asked
            &&& reply == rows_reply(made)
        },
    }
}

/// Whether `reply` answers a request to a writable table with these columns,
/// given what the table was asked before and after it.
pub open spec fn writable_answer(
    columns: Seq<column::ColumnView>,
    before: Seq<TableEvent>,
    after: Seq<TableEvent>,
    request: row::RowView,
    reply: Result<Seq<row::RowView>, error::ErrorView>,
) -> bool {
    match row::at(request, "action"@) {
        None => after == before && reply == Err::<Seq<row::RowView>, _>(
            error::ErrorView::Other("missing action"@),
        ),
        Some(action) => if action == "generate"@ {
            generate_answer(before, after, request, reply)
        } else if action == "columns"@ {
            after == before && reply == Ok::<_, error::ErrorView>(routes_of(columns))
        } else if action == "insert"@ {
            reply is Ok && insert_answer(before, after, request, reply->Ok_0)
        } else if action == "update"@ {
            reply is Ok && update_answer(before, after, request, reply->Ok_0)
        } else if action == "delete"@ {
            reply is Ok && delete_answer(before, after, request, reply->Ok_0)
        } else {
            after == before && reply == Err::<Seq<row::RowView>, _>(
                error::ErrorView::Other("unknown action: "@ + action),
            )
        },
    }
}

impl<T: WritableTable> WritableTablePlugin<T> {
    /// The table.
    pub closed spec fn table(&self) -> T {
        self.inner
    }

    /// What was asked of the plugin so far, and what it answered.
    pub closed spec fn asked(&self) -> Seq<server::PluginEvent> {
        self.log@
    }

    /// The plugin of `table`.
    pub fn new(table: T) -> (r: Self)
        ensures
            r.table() == table,
            r.asked() == Seq::<server::PluginEvent>::empty(),
    {
        WritableTablePlugin { inner: table, log: Ghost(Seq::empty()) }
    }

    fn handle_insert(&mut self, req: &PluginRequest) -> (r: PluginResponse)
        requires
            old(self).table().fit(),
        ensures
            final(self).table().fit(),
            final(self).table().table_name() == old(self).table().table_name(),
            final(self).asked() == old(self).asked(),
            insert_answer(
                old(self).table().events(),
                final(self).table().events(),
                req.deep_view(),
                r.deep_view(),
            ),
    {
        let ghost before = self.inner.events();
        let values = match mutation::extract_column_values(req, "insert") {
            Ok(values) => values,
            Err(rows) => return rows,
        };
        let auto_rowid = match row::field(req, "auto_rowid") {
            Some(s) => text::is_true_text(s),
            None => false,
        };
        let row_id = mutation::parse_number(req, "id");
        let context = mutation::parse_mutation_context(req);
        let request = InsertRequest { values, auto_rowid, row_id, context };
        let result = self.inner.insert(request);
        assert(self.inner.events().drop_last() =~= before);
        mutation::dispatch_mutation("insert", result)
    }

    fn handle_update(&mut self, req: &PluginRequest) -> (r: PluginResponse)
        requires
            old(self).table().fit(),
        ensures
            final(self).table().fit(),
            final(self).table().table_name() == old(self).table().table_name(),
            final(self).asked() == old(self).asked(),
            update_answer(
                old(self).table().events(),
                final(self).table().events(),
                req.deep_view(),
                r.deep_view(),
            ),
    {
        let ghost before = self.inner.events();
        let row_id: i64 = match mutation::parse_row_id(req, "id") {
            Ok(id) => id,
            Err(e) => {
                let words = e.to_string();
                return mutation::mutation_rows(
                    MutationResult::Failure(text::concat("update: ", words.as_str())),
                );
            },
        };
        let values = match mutation::extract_column_values(req, "update") {
            Ok(values) => values,
            Err(rows) => return rows,
        };
        let new_row_id = mutation::parse_number(req, "new_id");
        let context = mutation::parse_mutation_context(req);
        let request = UpdateRequest { row_id, new_row_id, values, context };
        let result = self.inner.update(request);
        assert(self.inner.events().drop_last() =~= before);
        mutation::dispatch_mutation("update", result)
    }

    fn handle_delete(&mut self, req: &PluginRequest) -> (r: PluginResponse)
        requires
            old(self).table().fit(),
        ensures
            final(self).table().fit(),
            final(self).table().table_name() == old(self).table().table_name(),
            final(self).asked() == old(self).asked(),
            delete_answer(
                old(self).table().events(),
                final(self).table().events(),
                req.deep_view(),
                r.deep_view(),
            ),
    {
        let ghost before = self.inner.events();
        let row_id: i64 = match mutation::parse_row_id(req, "id") {
            Ok(id) => id,
            Err(e) => {
                let words = e.to_string();
                return mutation::mutation_rows(
                    MutationResult::Failure(text::concat("delete: ", words.as_str())),
                );
            },
        };
        let context = mutation::parse_mutation_context(req);
        let request = DeleteRequest { row_id, context };
        let result = self.inner.delete(request);
        assert(self.inner.events().drop_last() =~= before);
        mutation::dispatch_mutation("delete", result)
    }

    fn handle_generate(&mut self, req: &PluginRequest) -> (r: Result<PluginResponse, Error>)
        requires
            old(self).table().fit(),
        ensures
            final(self).table().fit(),
            final(self).table().table_name() == old(self).table().table_name(),
            final(self).asked() == old(self).asked(),
            generate_answer(
                old(self).table().events(),
                final(self).table().events(),
                req.deep_view(),
                error::outcome(r),
            ),
    {
        let ghost before = self.inner.events();
        let context = match query_context(req) {
            Ok(context) => context,
            Err(e) => return Err(e),
        };
        let made = self.inner.generate(context);
        assert(self.inner.events().drop_last() =~= before);
        generate_reply(made)
    }

    fn advertised(&self) -> (r: PluginResponse)
        requires
            self.table().fit(),
        ensures
            r.deep_view() == routes_of(self.table().table_columns()),
    {
        let columns = self.inner.columns();
        build_routes(columns.as_slice())
    }

    fn answer(&mut self, req: &PluginRequest) -> (r: Result<PluginResponse, Error>)
        requires
            old(self).table().fit(),
        ensures
            final(self).table().fit(),
            final(self).table().table_name() == old(self).table().table_name(),
            final(self).asked() == old(self).asked(),
            writable_answer(
                old(self).table().table_columns(),
                old(self).table().events(),
                final(self).table().events(),
                req.deep_view(),
                error::outcome(r),
            ),
    {
        let action = match row::field(req, "action") {
            None => return Err(Error::Other("missing action".to_string())),
            Some(action) => action,
        };
        if text::text_eq(action, "generate") {
            self.handle_generate(req)
        } else if text::text_eq(action, "columns") {
            Ok(self.advertised())
        } else if text::text_eq(action, "insert") {
            Ok(self.handle_insert(req))
        } else if text::text_eq(action, "update") {
            Ok(self.handle_update(req))
        } else if text::text_eq(action, "delete") {
            Ok(self.handle_delete(req))
        } else {
            Err(Error::Other(text::concat("unknown action: ", action)))
        }
    }
}

impl<T: WritableTable> OsqueryPlugin for WritableTablePlugin<T> {
    open spec fn ready(&self) -> bool {
        self.table().fit()
    }

    open spec fn plugin_name(&self) -> Seq<char> {
        self.table().table_name()
    }

    open spec fn registry(&self) -> RegistryName {
        RegistryName::Table
    }

    open spec fn history(&self) -> Seq<server::PluginEvent> {
        self.asked()
    }

    open spec fn health_may_be(&self, reply: Result<(), error::ErrorView>) -> bool {
        reply is Ok
    }

    open spec fn may_answer(
        &self,
        request: row::RowView,
        reply: Result<Seq<row::RowView>, error::ErrorView>,
    ) -> bool {
        exists|after: Seq<TableEvent>| #[trigger]
            writable_answer(
                self.table().table_columns(),
                self.table().events(),
                after,
                request,
                reply,
            )
    }

    open spec fn may_offer(&self, rows: Seq<row::RowView>) -> bool {
        rows == routes_of(self.table().table_columns())
    }

    open spec fn steady(&self) -> bool {
        false
    }

    fn name(&self) -> (r: &str) {
        self.inner.name()
    }

    fn registry_name(&self) -> (r: RegistryName) {
        RegistryName::Table
    }

    fn routes(&mut self) -> (r: PluginResponse)
        ensures
            r.deep_view() == routes_of(old(self).table().table_columns()),
            final(self).table() == old(self).table(),
    {
        let r = self.advertised();
        proof {
            self.log@ = self.log@.push(server::PluginEvent::Routes(r.deep_view()));
        }
        r
    }

    /// A writable table is always well.
    fn ping(&mut self) -> (r: Result<(), Error>)
        ensures
            r is Ok,
            *final(self) == *old(self),
    {
        Ok(())
    }

    fn call(&mut self, req: PluginRequest) -> (r: Result<PluginResponse, Error>)
        ensures
            writable_answer(
                old(self).table().table_columns(),
                old(self).table().events(),
                final(self).table().events(),
                req.deep_view(),
                error::outcome(r),
            ),
    {
        let r = self.answer(&req);
        proof {
            self.log@ = self.log@.push(
                server::PluginEvent::Call { request: req.deep_view(), reply: error::outcome(r) },
            );
        }
        r
    }

    fn shutdown(&mut self)
        ensures
            final(self).table() == old(self).table(),
    {
        proof {
            self.log@ = self.log@.push(server::PluginEvent::Shutdown);
            assert(self.table() == old(self).table());
        }
    }
}

/// A status that a table reports reaches osquery with its code and words, and
/// no other error becomes a status on the way.
pub proof fn status_passes_through(made: Result<Seq<row::RowView>, error::ErrorView>)
    ensures
        made is Err && made->Err_0 is Status ==> rows_reply(made) == made,
        made is Err && !(made->Err_0 is Status) ==> !(rows_reply(made)->Err_0 is Status),
        made is Ok <==> rows_reply(made) is Ok,
{
}

/// Whether `action` changes a table.
pub open spec fn is_change(action: Seq<char>) -> bool {
    action == "insert"@ || action == "update"@ || action == "delete"@
}

proof fn lemma_actions_differ(action: Seq<char>)
    requires
        is_change(action),
    ensures
        action != "generate"@,
        action != "columns"@,
{
    reveal_strlit("generate");
    reveal_strlit("columns");
    reveal_strlit("insert");
    reveal_strlit("update");
    reveal_strlit("delete");
    assert("insert"@.len() == 6);
    assert("update"@.len() == 6);
    assert("delete"@.len() == 6);
}

/// However a change goes, osquery is told in one row under a successful
/// status.
pub proof fn changes_are_told_in_one_row(
    columns: Seq<column::ColumnView>,
    before: Seq<TableEvent>,
    after: Seq<TableEvent>,
    request: row::RowView,
    reply: Result<Seq<row::RowView>, error::ErrorView>,
)
    requires
        row::at(request, "action"@) matches Some(action) && is_change(action),
        writable_answer(columns, before, after, request, reply),
    ensures
        reply matches Ok(rows) && rows.len() == 1,
{
    lemma_actions_differ(row::at(request, "action"@)->0);
}

/// A request asks the table for at most one thing, and nothing that was asked
/// before is forgotten.
pub proof fn one_request_one_event(
    columns: Seq<column::ColumnView>,
    before: Seq<TableEvent>,
    after: Seq<TableEvent>,
    request: row::RowView,
    reply: Result<Seq<row::RowView>, error::ErrorView>,
)
    requires
        writable_answer(columns, before, after, request, reply),
    ensures
        after == before || (after.len() == before.len() + 1 && after.drop_last() == before),
{
}

/// A change to a row whose id cannot be read never reaches the table.
pub proof fn unreadable_ids_change_nothing(
    columns: Seq<column::ColumnView>,
    before: Seq<TableEvent>,
    after: Seq<TableEvent>,
    request: row::RowView,
    reply: Result<Seq<row::RowView>, error::ErrorView>,
)
    requires
        row::at(request, "action"@) == Some("update"@) || row::at(request, "action"@) == Some(
            "delete"@,
        ),
        mutation::row_id_in(request, "id"@) is Err,
        writable_answer(columns, before, after, request, reply),
    ensures
        after == before,
{
    reveal_strlit("insert");
    reveal_strlit("update");
    reveal_strlit("delete");
    assert("update"@[0] == 'u');
    assert("delete"@[0] == 'd');
    lemma_actions_differ(row::at(request, "action"@)->0);
}

/// A row of routes names its column, its type and its options.
pub proof fn routes_describe_columns(columns: Seq<column::ColumnView>, i: int)
    requires
        0 <= i < columns.len(),
    ensures
        routes_of(columns).len() == columns.len(),
        row::at(routes_of(columns)[i], "id"@) == Some("column"@),
        row::at(routes_of(columns)[i], "name"@) == Some(columns[i].name),
        row::at(routes_of(columns)[i], "type"@) == Some(columns[i].col_type.sql_name()),
        row::at(routes_of(columns)[i], "op"@) == Some(number::int_text(columns[i].mask())),
        forall|key: Seq<char>|
            row::at(routes_of(columns)[i], key) is Some ==> key == "id"@ || key == "name"@ || key
                == "type"@ || key == "op"@,
{
    reveal_strlit("id");
    reveal_strlit("name");
    reveal_strlit("type");
    reveal_strlit("op");
    assert("name"@[0] == 'n');
    assert("type"@[0] == 't');
    assert("op"@[0] == 'o');
}

/// The rows that a table makes are the answer, all of them and in order. A
/// status is the answer as it is, and any other error is the answer with where
/// it comes from before its words.
pub proof fn rows_are_the_answer(rows: Seq<row::RowView>, code: i32, words: Seq<char>)
    ensures
        rows_reply(Ok(rows)) == Ok::<_, error::ErrorView>(rows),
        rows_reply(Err(error::ErrorView::Status { code, message: words })) == Err::<
            Seq<row::RowView>,
            _,
        >(error::ErrorView::Status { code, message: words }),
        rows_reply(Err(error::ErrorView::Other(words))) == Err::<Seq<row::RowView>, _>(
            error::ErrorView::Other("error generating table: "@ + words),
        ),
        rows_reply(Err(error::ErrorView::Transport(words))) == Err::<Seq<row::RowView>, _>(
            error::ErrorView::Other("error generating table: "@ + words),
        ),
{
}

/// A request for rows is understood by the context that it gives; without one,
/// or with one that cannot be read, it is refused with the reason.
pub proof fn contexts_are_read_from_requests(request: row::RowView, text: Seq<char>)
    ensures
        row::at(request, "context"@) is None ==> context_asked(request) == Err::<
            constraint::ContextView,
            _,
        >(error::ErrorView::Other("missing query context"@)),
        row::at(request, "context"@) == Some(text) ==> match constraint::context_in(text) {
            Ok(context) => context_asked(request) == Ok::<_, error::ErrorView>(context),
            Err(e) => context_asked(request) == Err::<constraint::ContextView, _>(
                error::ErrorView::Other("error parsing context JSON: "@ + e),
            ),
        },
{
}

proof fn lemma_action_names()
    ensures
        "generate"@ != "columns"@,
        "insert"@ != "update"@,
        "insert"@ != "delete"@,
        "update"@ != "delete"@,
        forall|action: Seq<char>| #[trigger]
            is_change(action) ==> action != "generate"@ && action != "columns"@,
        is_change("insert"@),
        is_change("update"@),
        is_change("delete"@),
{
    reveal_strlit("generate");
    reveal_strlit("columns");
    reveal_strlit("insert");
    reveal_strlit("update");
    reveal_strlit("delete");
    assert("generate"@.len() == 8);
    assert("columns"@.len() == 7);
    assert("insert"@[0] == 'i');
    assert("update"@[0] == 'u');
    assert("delete"@[0] == 'd');
    assert forall|action: Seq<char>| #[trigger] is_change(action) implies action != "generate"@
        && action != "columns"@ by {
        lemma_actions_differ(action);
    }
}

/// A read-only table answers a request for rows by what its function makes of
/// the context that the request gives, and only of that.
pub proof fn functions_make_the_rows<GenFunc: FnMut(QueryContext) -> Result<Table, Error>>(
    columns: Seq<column::ColumnView>,
    generate: GenFunc,
    request: row::RowView,
    reply: Result<Seq<row::RowView>, error::ErrorView>,
    text: Seq<char>,
    context: constraint::ContextView,
)
    requires
        row::at(request, "action"@) == Some("generate"@),
        row::at(request, "context"@) == Some(text),
        constraint::context_in(text) == Ok::<_, Seq<char>>(context),
        read_only_answer(columns, generate, request, reply),
    ensures
        exists|given: QueryContext, made: Result<Table, Error>|
            {
                &&& given.deep_view() == context
                &&& #[trigger] generate.ensures((given,), made)
                &&& made matches Ok(rows) ==> reply == Ok::<_, error::ErrorView>(rows.deep_view())
                &&& made matches Err(e) ==> {
                    &&& e matches Error::Status { code, message } ==> reply == Err::<
                        Seq<row::RowView>,
                        _,
                    >(error::ErrorView::Status { code, message: message@ })
                    &&& !(e is Status) ==> reply == Err::<Seq<row::RowView>, _>(
                        error::ErrorView::Other(
                            "error generating table: "@ + e.deep_view().text(),
                        ),
                    )
                }
            },
{
    lemma_action_names();
}

/// Whatever makes its rows, a read-only table describes its columns when asked
/// to, and refuses what it does not know by name.
pub proof fn read_only_tables_know_two_actions<
    GenFunc: FnMut(QueryContext) -> Result<Table, Error>,
>(
    columns: Seq<column::ColumnView>,
    generate: GenFunc,
    request: row::RowView,
    reply: Result<Seq<row::RowView>, error::ErrorView>,
    action: Seq<char>,
)
    requires
        read_only_answer(columns, generate, request, reply),
    ensures
        row::at(request, "action"@) == Some("columns"@) ==> reply == Ok::<_, error::ErrorView>(
            routes_of(columns),
        ),
        row::at(request, "action"@) is None ==> reply == Err::<Seq<row::RowView>, _>(
            error::ErrorView::Other("missing action"@),
        ),
        row::at(request, "action"@) == Some(action) && action != "generate"@ && action
            != "columns"@ ==> reply == Err::<Seq<row::RowView>, _>(
            error::ErrorView::Other("unknown action: "@ + action),
        ),
        row::at(request, "action"@) == Some("generate"@) && row::at(request, "context"@) is None
            ==> reply == Err::<Seq<row::RowView>, _>(
            error::ErrorView::Other("missing query context"@),
        ),
        row::at(request, "action"@) == Some("generate"@) && row::at(request, "context"@) is Some
            ==> (constraint::context_in(row::at(request, "context"@)->0) matches Err(e) ==> reply
            == Err::<Seq<row::RowView>, _>(
            error::ErrorView::Other("error parsing context JSON: "@ + e),
        )),
{
    lemma_action_names();
}

/// A request for rows reaches a writable table with the context that it gives,
/// and the rows that the table makes are the answer.
pub proof fn writable_tables_make_their_rows(
    columns: Seq<column::ColumnView>,
    before: Seq<TableEvent>,
    after: Seq<TableEvent>,
    request: row::RowView,
    reply: Result<Seq<row::RowView>, error::ErrorView>,
    text: Seq<char>,
    context: constraint::ContextView,
)
    requires
        row::at(request, "action"@) == Some("generate"@),
        row::at(request, "context"@) == Some(text),
        constraint::context_in(text) == Ok::<_, Seq<char>>(context),
        writable_answer(columns, before, after, request, reply),
    ensures
        after.len() == before.len() + 1,
        after.drop_last() == before,
        after.last() is Generate,
        after.last()->Generate_context == context,
        after.last()->rows matches Ok(rows) ==> reply == Ok::<_, error::ErrorView>(rows),
        after.last()->rows matches Err(e) ==> reply == Err::<Seq<row::RowView>, _>(
            if e is Status {
                e
            } else {
                error::ErrorView::Other("error generating table: "@ + e.text())
            },
        ),
{
    lemma_action_names();
}

/// A writable table describes its columns when asked to, refuses what it does
/// not know by name, and is not troubled by either.
pub proof fn writable_tables_know_five_actions(
    columns: Seq<column::ColumnView>,
    before: Seq<TableEvent>,
    after: Seq<TableEvent>,
    request: row::RowView,
    reply: Result<Seq<row::RowView>, error::ErrorView>,
    action: Seq<char>,
)
    requires
        writable_answer(columns, before, after, request, reply),
    ensures
        row::at(request, "action"@) == Some("columns"@) ==> after == before && reply == Ok::<
            _,
            error::ErrorView,
        >(routes_of(columns)),
        row::at(request, "action"@) is None ==> after == before && reply == Err::<
            Seq<row::RowView>,
            _,
        >(error::ErrorView::Other("missing action"@)),
        row::at(request, "action"@) == Some(action) && action != "generate"@ && action
            != "columns"@ && !is_change(action) ==> after == before && reply == Err::<
            Seq<row::RowView>,
            _,
        >(error::ErrorView::Other("unknown action: "@ + action)),
        row::at(request, "action"@) == Some("generate"@) && row::at(request, "context"@) is None
            ==> after == before && reply == Err::<Seq<row::RowView>, _>(
            error::ErrorView::Other("missing query context"@),
        ),
{
    lemma_action_names();
}

/// An insertion reaches the table with the values that the request lists, the
/// row id that it suggests, whether osquery chose that by itself, and the
/// constraints; and osquery is told what the table made of it.
pub proof fn insertions_reach_the_table(
    columns: Seq<column::ColumnView>,
    before: Seq<TableEvent>,
    after: Seq<TableEvent>,
    request: row::RowView,
    reply: Result<Seq<row::RowView>, error::ErrorView>,
    text: Seq<char>,
    items: Seq<json::JsonView>,
)
    requires
        row::at(request, "action"@) == Some("insert"@),
        row::at(request, "json_value_array"@) == Some(text),
        json::json_items(text) == Ok::<_, Seq<char>>(items),
        writable_answer(columns, before, after, request, reply),
    ensures
        after.len() == before.len() + 1,
        after.drop_last() == before,
        after.last() is Insert,
        ({
            let insert = after.last()->insert;
            &&& insert.values == mutation::column_values(items)
            &&& forall|id: i64|
                row::at(request, "id"@) == Some(#[trigger] number::int_text(id as int))
                    ==> insert.row_id == Some(id)
            &&& row::at(request, "id"@) is None ==> insert.row_id is None
            &&& row::at(request, "auto_rowid"@) is None ==> !insert.auto_rowid
            &&& row::at(request, "auto_rowid"@) matches Some(s) ==> (insert.auto_rowid <==> {
                &&& s.len() == 4
                &&& (s[0] == 't' || s[0] == 'T')
                &&& (s[1] == 'r' || s[1] == 'R')
                &&& (s[2] == 'u' || s[2] == 'U')
                &&& (s[3] == 'e' || s[3] == 'E')
            })
            &&& insert.context == mutation::mutation_context(request)
        }),
        after.last()->Insert_reply matches Ok(outcome) ==> reply == Ok::<_, error::ErrorView>(
            seq![mutation::mutation_row(outcome)],
        ),
        after.last()->Insert_reply matches Err(e) ==> reply == Ok::<_, error::ErrorView>(
            seq![mutation::mutation_row(
                mutation::MutationView::Failure("insert"@ + " failed: "@ + e.text()),
            )],
        ),
{
    lemma_action_names();
    assert forall|id: i64|
        row::at(request, "id"@) == Some(#[trigger] number::int_text(id as int)) implies
        after.last()->insert.row_id == Some(id) by {
        number::read_back(id);
    }
    if row::at(request, "auto_rowid"@) is Some {
        text::the_word_true(row::at(request, "auto_rowid"@)->0);
    }
}

/// An update reaches the table with the row that the request names, its new
/// row id where the request gives one, the values that it lists and the
/// constraints; and osquery is told what the table made of it.
pub proof fn updates_reach_the_table(
    columns: Seq<column::ColumnView>,
    before: Seq<TableEvent>,
    after: Seq<TableEvent>,
    request: row::RowView,
    reply: Result<Seq<row::RowView>, error::ErrorView>,
    id: i64,
    text: Seq<char>,
    items: Seq<json::JsonView>,
)
    requires
        row::at(request, "action"@) == Some("update"@),
        row::at(request, "id"@) == Some(number::int_text(id as int)),
        row::at(request, "json_value_array"@) == Some(text),
        json::json_items(text) == Ok::<_, Seq<char>>(items),
        writable_answer(columns, before, after, request, reply),
    ensures
        after.len() == before.len() + 1,
        after.drop_last() == before,
        after.last() is Update,
        ({
            let update = after.last()->update;
            &&& update.row_id == id
            &&& forall|n: i64|
                row::at(request, "new_id"@) == Some(#[trigger] number::int_text(n as int))
                    ==> update.new_row_id == Some(n)
            &&& row::at(request, "new_id"@) is None ==> update.new_row_id is None
            &&& update.values == mutation::column_values(items)
            &&& update.context == mutation::mutation_context(request)
        }),
        after.last()->Update_reply matches Ok(outcome) ==> reply == Ok::<_, error::ErrorView>(
            seq![mutation::mutation_row(outcome)],
        ),
        after.last()->Update_reply matches Err(e) ==> reply == Ok::<_, error::ErrorView>(
            seq![mutation::mutation_row(
                mutation::MutationView::Failure("update"@ + " failed: "@ + e.text()),
            )],
        ),
{
    lemma_action_names();
    number::read_back(id);
    assert forall|n: i64|
        row::at(request, "new_id"@) == Some(#[trigger] number::int_text(n as int)) implies
        after.last()->update.new_row_id == Some(n) by {
        number::read_back(n);
    }
}

/// A deletion reaches the table with the row that the request names and the
/// constraints; and osquery is told what the table made of it.
pub proof fn deletions_reach_the_table(
    columns: Seq<column::ColumnView>,
    before: Seq<TableEvent>,
    after: Seq<TableEvent>,
    request: row::RowView,
    reply: Result<Seq<row::RowView>, error::ErrorView>,
    id: i64,
)
    requires
        row::at(request, "action"@) == Some("delete"@),
        row::at(request, "id"@) == Some(number::int_text(id as int)),
        writable_answer(columns, before, after, request, reply),
    ensures
        after.len() == before.len() + 1,
        after.drop_last() == before,
        after.last() is Delete,
        after.last()->delete.row_id == id,
        after.last()->delete.context == mutation::mutation_context(request),
        after.last()->Delete_reply matches Ok(outcome) ==> reply == Ok::<_, error::ErrorView>(
            seq![mutation::mutation_row(outcome)],
        ),
        after.last()->Delete_reply matches Err(e) ==> reply == Ok::<_, error::ErrorView>(
            seq![mutation::mutation_row(
                mutation::MutationView::Failure("delete"@ + " failed: "@ + e.text()),
            )],
        ),
{
    lemma_action_names();
    number::read_back(id);
}

/// A change that cannot be read does not reach the table: osquery is told that
/// it failed, and why.
pub proof fn unreadable_changes_are_refused(
    columns: Seq<column::ColumnView>,
    before: Seq<TableEvent>,
    after: Seq<TableEvent>,
    request: row::RowView,
    reply: Result<Seq<row::RowView>, error::ErrorView>,
    action: Seq<char>,
)
    requires
        row::at(request, "action"@) == Some(action),
        is_change(action),
        writable_answer(columns, before, after, request, reply),
    ensures
        action != "insert"@ && row::at(request, "id"@) is None ==> after == before && reply == Ok::<
            _,
            error::ErrorView,
        >(
            seq![mutation::mutation_row(
                mutation::MutationView::Failure(action + ": "@ + ("missing "@ + "id"@)),
            )],
        ),
        action != "insert"@ && row::at(request, "id"@) is Some ==> (number::int_of(
            row::at(request, "id"@)->0,
        ) matches Err(e) ==> after == before && reply == Ok::<_, error::ErrorView>(
            seq![mutation::mutation_row(
                mutation::MutationView::Failure(
                    action + ": "@ + ("invalid "@ + "id"@ + ": "@ + number::int_error_text(e)),
                ),
            )],
        )),
        action == "insert"@ && row::at(request, "json_value_array"@) is None ==> after == before
            && reply == Ok::<_, error::ErrorView>(
            seq![mutation::mutation_row(
                mutation::MutationView::Failure("missing json_value_array"@),
            )],
        ),
        action == "update"@ && number::int_of(row::at(request, "id"@)->0) is Ok && row::at(
            request,
            "id"@,
        ) is Some && row::at(request, "json_value_array"@) is None ==> after == before && reply
            == Ok::<_, error::ErrorView>(
            seq![mutation::mutation_row(
                mutation::MutationView::Failure("missing json_value_array"@),
            )],
        ),
{
    lemma_action_names();
    reveal_strlit("update: ");
    reveal_strlit("delete: ");
    reveal_strlit("update");
    reveal_strlit("delete");
    reveal_strlit(": ");
    assert("update"@ + ": "@ =~= "update: "@);
    assert("delete"@ + ": "@ =~= "delete: "@);
}

/// The view of a table's description shows each of its parts.
pub proof fn descriptions_show_their_parts(spec: OsqueryTableSpec, i: int)
    ensures
        spec.deep_view().name == spec.name@,
        spec.deep_view().description == spec.description@,
        spec.deep_view().url == spec.url@,
        spec.deep_view().platforms == spec.platforms@,
        spec.deep_view().evented == spec.evented,
        spec.deep_view().cacheable == spec.cacheable,
        spec.deep_view().notes == spec.notes@,
        spec.deep_view().examples.len() == spec.examples@.len(),
        0 <= i < spec.examples@.len() ==> spec.deep_view().examples[i] == spec.examples@[i]@,
        spec.deep_view().columns.len() == spec.columns@.len(),
        0 <= i < spec.columns@.len() ==> spec.deep_view().columns[i]
            == spec.columns@[i].deep_view(),
{
}

/// A JSON array holds its items in order, with a comma before each but the
/// first.
pub proof fn arrays_hold_their_items(items: Seq<Seq<char>>, item: Seq<char>)
    ensures
        json_array(Seq::empty()) == "[]"@,
        json_array(seq![item]) == "["@ + item + "]"@,
        items.len() > 0 ==> json_array(items.push(item)) == json_array(items).drop_last() + ","@
            + item + "]"@,
{
    reveal_strlit("[");
    reveal_strlit("]");
    reveal_strlit("[]");
    assert(items.push(item).drop_last() =~= items);
    assert(json_array(Seq::empty()) =~= "[]"@);
    assert(comma_separated(seq![item]) == item);
    if items.len() > 0 {
        let before = "["@ + comma_separated(items);
        assert((before + "]"@).drop_last() =~= before);
        assert(json_array(items.push(item)) =~= before + ","@ + item + "]"@);
    }
}

/// The JSON of a description without notes and examples has its name,
/// description, address, platforms, columns and the two flags.
pub proof fn descriptions_in_json(spec: TableSpecView)
    requires
        spec.notes.len() == 0,
        spec.examples.len() == 0,
        !spec.evented,
        !spec.cacheable,
    ensures
        spec.json() == "{\"name\":"@ + json::quoted(spec.name) + ",\"description\":"@ + json::quoted(
            spec.description,
        ) + ",\"url\":"@ + json::quoted(spec.url) + ",\"platforms\":"@ + json_array(
            Seq::new(spec.platforms.len(), |i: int| json::quoted(spec.platforms[i].text())),
        ) + ",\"evented\":false,\"cacheable\":false,\"columns\":"@ + json_array(
            Seq::new(spec.columns.len(), |i: int| spec.columns[i].json()),
        ) + "}"@,
{
    let name = "{\"name\":"@ + json::quoted(spec.name);
    let description = json::quoted(spec.description);
    let url = json::quoted(spec.url);
    let platforms = json_array(
        spec.platforms.map_values(|p: Platform| json::quoted(p.text())),
    );
    let columns = json_array(spec.columns.map_values(|c: column::ColumnView| c.json()));
    assert(Seq::new(spec.platforms.len(), |i: int| json::quoted(spec.platforms[i].text()))
        =~= spec.platforms.map_values(|p: Platform| json::quoted(p.text())));
    assert(Seq::new(spec.columns.len(), |i: int| spec.columns[i].json())
        =~= spec.columns.map_values(|c: column::ColumnView| c.json()));
    lemma_members_written(description, url, platforms, columns);
    lemma_flags_written();
    lemma_head_regrouped(
        name,
        ",\"description\":"@,
        description,
        ",\"url\":"@,
        url,
        ",\"platforms\":"@,
        platforms,
    );
    lemma_flags_regrouped(
        name + (",\"description\":"@ + description) + (",\"url\":"@ + url)
            + (",\"platforms\":"@ + platforms),
        ",\"evented\":false"@,
        ",\"cacheable\":false"@,
        ",\"columns\":"@,
        columns,
    );
}

proof fn lemma_flags_written()
    ensures
        ",\"evented\":false"@ + ",\"cacheable\":false"@ + ",\"columns\":"@
            == ",\"evented\":false,\"cacheable\":false,\"columns\":"@,
{
    reveal_strlit(",\"evented\":false");
    reveal_strlit(",\"cacheable\":false");
    reveal_strlit(",\"columns\":");
    reveal_strlit(",\"evented\":false,\"cacheable\":false,\"columns\":");
    assert(",\"evented\":false"@ + ",\"cacheable\":false"@ + ",\"columns\":"@
        =~= ",\"evented\":false,\"cacheable\":false,\"columns\":"@);
}

proof fn lemma_head_regrouped(
    a: Seq<char>,
    b: Seq<char>,
    c: Seq<char>,
    d: Seq<char>,
    e: Seq<char>,
    f: Seq<char>,
    g: Seq<char>,
)
    ensures
        a + (b + c) + (d + e) + (f + g) == a + b + c + d + e + f + g,
{
    assert(a + (b + c) =~= a + b + c);
    let abc = a + b + c;
    assert(abc + (d + e) =~= abc + d + e);
    let abcde = abc + d + e;
    assert(abcde + (f + g) =~= abcde + f + g);
}

proof fn lemma_flags_regrouped(
    head: Seq<char>,
    evented: Seq<char>,
    cacheable: Seq<char>,
    name: Seq<char>,
    columns: Seq<char>,
)
    ensures
        head + evented + cacheable + Seq::<char>::empty() + Seq::<char>::empty() + (name + columns)
            == head + (evented + cacheable + name) + columns,
{
    assert(head + evented + cacheable + Seq::<char>::empty() + Seq::<char>::empty() + (name
        + columns) =~= head + (evented + cacheable + name) + columns);
}

proof fn lemma_members_written(
    description: Seq<char>,
    url: Seq<char>,
    platforms: Seq<char>,
    columns: Seq<char>,
)
    ensures
        column::json_member("description"@, description) == ",\"description\":"@ + description,
        column::json_member("url"@, url) == ",\"url\":"@ + url,
        column::json_member("platforms"@, platforms) == ",\"platforms\":"@ + platforms,
        column::json_member("columns"@, columns) == ",\"columns\":"@ + columns,
        column::json_member("evented"@, "false"@) == ",\"evented\":false"@,
        column::json_member("evented"@, "true"@) == ",\"evented\":true"@,
        column::json_member("cacheable"@, "false"@) == ",\"cacheable\":false"@,
        column::json_member("cacheable"@, "true"@) == ",\"cacheable\":true"@,
{
    reveal_strlit(",\"");
    reveal_strlit("\":");
    reveal_strlit("true");
    reveal_strlit("false");
    reveal_strlit("description");
    reveal_strlit("url");
    reveal_strlit("platforms");
    reveal_strlit("columns");
    reveal_strlit("evented");
    reveal_strlit("cacheable");
    reveal_strlit(",\"description\":");
    reveal_strlit(",\"url\":");
    reveal_strlit(",\"platforms\":");
    reveal_strlit(",\"columns\":");
    reveal_strlit(",\"evented\":false");
    reveal_strlit(",\"evented\":true");
    reveal_strlit(",\"cacheable\":false");
    reveal_strlit(",\"cacheable\":true");
    assert(",\""@ + "description"@ + "\":"@ =~= ",\"description\":"@);
    assert(",\""@ + "url"@ + "\":"@ =~= ",\"url\":"@);
    assert(",\""@ + "platforms"@ + "\":"@ =~= ",\"platforms\":"@);
    assert(",\""@ + "columns"@ + "\":"@ =~= ",\"columns\":"@);
}

/// Notes are one member more in the JSON of a description, and so are
/// examples. A flag that is on differs in the value of its member from one
/// that is off.
pub proof fn more_of_descriptions_in_json(spec: TableSpecView)
    ensures
        spec.notes.len() > 0 ==> column::one_change(
            (TableSpecView { notes: Seq::empty(), ..spec }).json(),
            Seq::empty(),
            ",\"notes\":"@ + json::quoted(spec.notes),
            spec.json(),
        ),
        spec.examples.len() > 0 ==> column::one_change(
            (TableSpecView { examples: Seq::empty(), ..spec }).json(),
            Seq::empty(),
            ",\"examples\":"@ + json_array(
                Seq::new(spec.examples.len(), |i: int| json::quoted(spec.examples[i])),
            ),
            spec.json(),
        ),
        column::one_change(
            (TableSpecView { evented: false, ..spec }).json(),
            ",\"evented\":false"@,
            ",\"evented\":true"@,
            (TableSpecView { evented: true, ..spec }).json(),
        ),
        column::one_change(
            (TableSpecView { cacheable: false, ..spec }).json(),
            ",\"cacheable\":false"@,
            ",\"cacheable\":true"@,
            (TableSpecView { cacheable: true, ..spec }).json(),
        ),
{
    let none = Seq::<char>::empty();
    let platforms = json_array(
        spec.platforms.map_values(|p: Platform| json::quoted(p.text())),
    );
    let columns = column::json_member(
        "columns"@,
        json_array(spec.columns.map_values(|c: column::ColumnView| c.json())),
    );
    let head = "{\"name\":"@ + json::quoted(spec.name) + column::json_member(
        "description"@,
        json::quoted(spec.description),
    ) + column::json_member("url"@, json::quoted(spec.url)) + column::json_member(
        "platforms"@,
        platforms,
    );
    let evented = column::json_member("evented"@, column::json_bool(spec.evented));
    let cacheable = column::json_member("cacheable"@, column::json_bool(spec.cacheable));
    let noted = column::json_text_member("notes"@, spec.notes);
    let listed = json_array(spec.examples.map_values(|e: Seq<char>| json::quoted(e)));
    let shown = if spec.examples.len() == 0 {
        none
    } else {
        column::json_member("examples"@, listed)
    };
    let end = "}"@;
    assert(Seq::new(spec.examples.len(), |i: int| json::quoted(spec.examples[i]))
        =~= spec.examples.map_values(|e: Seq<char>| json::quoted(e)));
    lemma_members_written(none, none, none, none);
    assert(column::json_member("notes"@, json::quoted(spec.notes)) == ",\"notes\":"@
        + json::quoted(spec.notes) && column::json_member("examples"@, listed)
        == ",\"examples\":"@ + listed) by {
        reveal_strlit(",\"");
        reveal_strlit("\":");
        reveal_strlit("notes");
        reveal_strlit("examples");
        reveal_strlit(",\"notes\":");
        reveal_strlit(",\"examples\":");
        assert(",\""@ + "notes"@ + "\":"@ =~= ",\"notes\":"@);
        assert(",\""@ + "examples"@ + "\":"@ =~= ",\"examples\":"@);
    }
    assert(spec.json() == head + evented + cacheable + noted + shown + columns + end);
    let off = ",\"evented\":false"@;
    let on = ",\"evented\":true"@;
    column::lemma_regrouped(head, off, cacheable, noted, shown, columns, end);
    column::lemma_regrouped(head, on, cacheable, noted, shown, columns, end);
    column::lemma_one_change(
        (TableSpecView { evented: false, ..spec }).json(),
        off,
        on,
        (TableSpecView { evented: true, ..spec }).json(),
        head,
        cacheable + noted + shown + columns + end,
    );
    let off = ",\"cacheable\":false"@;
    let on = ",\"cacheable\":true"@;
    column::lemma_regrouped(head, evented, off, noted, shown, columns, end);
    column::lemma_regrouped(head, evented, on, noted, shown, columns, end);
    column::lemma_one_change(
        (TableSpecView { cacheable: false, ..spec }).json(),
        off,
        on,
        (TableSpecView { cacheable: true, ..spec }).json(),
        head + evented,
        noted + shown + columns + end,
    );
    column::lemma_regrouped(head, evented, cacheable, noted, shown, columns, end);
    column::lemma_regrouped(head, evented, cacheable, none, shown, columns, end);
    column::lemma_regrouped(head, evented, cacheable, noted, none, columns, end);
    if spec.notes.len() > 0 {
        column::lemma_one_change(
            (TableSpecView { notes: none, ..spec }).json(),
            none,
            noted,
            spec.json(),
            head + evented + cacheable,
            shown + columns + end,
        );
    }
    if spec.examples.len() > 0 {
        column::lemma_one_change(
            (TableSpecView { examples: Seq::empty(), ..spec }).json(),
            none,
            shown,
            spec.json(),
            head + evented + cacheable + noted,
            columns + end,
        );
    }
}

/// A table is on the platform of the operating system that it was made on, and
/// on none where osquery has no name for that system.
pub proof fn tables_are_on_their_platform(os: Seq<char>)
    ensures
        platforms_on("macos"@) == seq![Platform::Darwin],
        platforms_on("windows"@) == seq![Platform::Windows],
        platforms_on("linux"@) == seq![Platform::Linux],
        os != "macos"@ && os != "windows"@ && os != "linux"@ ==> platforms_on(os).len() == 0,
{
    reveal_strlit("macos");
    reveal_strlit("windows");
    reveal_strlit("linux");
    assert("macos"@[0] == 'm');
    assert("windows"@[0] == 'w');
    assert("linux"@[0] == 'l');
}

/// A writable table is ready for requests when it is fit for use. It is in the
/// table registry under its own name and offers its own columns.
pub proof fn writable_tables_are_ready<T: WritableTable>(plugin: WritableTablePlugin<T>)
    ensures
        plugin.ready() == plugin.table().fit(),
        plugin.plugin_name() == plugin.table().table_name(),
        plugin.registry() == RegistryName::Table,
        plugin.history() == plugin.asked(),
        forall|reply: Result<(), error::ErrorView>| #[trigger]
            plugin.health_may_be(reply) <==> reply is Ok,
        forall|request: row::RowView, reply: Result<Seq<row::RowView>, error::ErrorView>| #[trigger]
            plugin.may_answer(request, reply) <==> exists|after: Seq<TableEvent>| #[trigger]
                writable_answer(
                    plugin.table().table_columns(),
                    plugin.table().events(),
                    after,
                    request,
                    reply,
                ),
        forall|rows: Seq<row::RowView>| #[trigger]
            plugin.may_offer(rows) <==> rows == routes_of(plugin.table().table_columns()),
        !plugin.steady(),
{
}

/// osquery's names for the platforms.
pub proof fn platforms_have_their_names()
    ensures
        Platform::Darwin.text() == "darwin"@,
        Platform::Windows.text() == "windows"@,
        Platform::Linux.text() == "linux"@,
{
}

} // verus!
