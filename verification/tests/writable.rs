//! Tables that can be changed.

use osquery_rs_sdk::plugin::mutation::{extract_column_values, parse_row_id};
use osquery_rs_sdk::text_map::TextMap;
use osquery_rs_sdk::{
    ColumnDefinition, DeleteRequest, Error, InsertRequest, MutationResult, OsqueryPlugin,
    PluginRequest, QueryContext, Table, UpdateRequest, WritableTable, WritableTablePlugin,
};
use std::collections::BTreeMap;

fn row(pairs: &[(&str, &str)]) -> PluginRequest {
    TextMap::from_pairs(
        pairs
            .iter()
            .map(|(k, v)| (k.to_string(), v.to_string()))
            .collect(),
    )
}

struct MockWritableTable {
    data: BTreeMap<i64, (String, String)>,
}

impl MockWritableTable {
    fn new() -> Self {
        Self {
            data: BTreeMap::new(),
        }
    }
}

impl WritableTable for MockWritableTable {
    fn name(&self) -> &'static str {
        "mock_writable"
    }

    fn columns(&self) -> Vec<ColumnDefinition> {
        vec![
            ColumnDefinition::text("key"),
            ColumnDefinition::text("value"),
        ]
    }

    fn generate(&mut self, _ctx: QueryContext) -> Result<Table, Error> {
        Ok(self
            .data
            .values()
            .map(|(k, v)| row(&[("key", k), ("value", v)]))
            .collect())
    }

    fn insert(&mut self, req: InsertRequest) -> Result<MutationResult, Error> {
        let key = req.values.first().cloned().flatten().unwrap_or_default();
        let value = req.values.get(1).cloned().flatten().unwrap_or_default();
        let row_id = req.row_id.unwrap_or(0);
        self.data.insert(row_id, (key, value));
        Ok(MutationResult::Success {
            row_id: Some(row_id),
        })
    }

    fn update(&mut self, req: UpdateRequest) -> Result<MutationResult, Error> {
        let key = req.values.first().cloned().flatten().unwrap_or_default();
        let value = req.values.get(1).cloned().flatten().unwrap_or_default();
        let id = req.new_row_id.unwrap_or(req.row_id);
        self.data.remove(&req.row_id);
        self.data.insert(id, (key, value));
        Ok(MutationResult::Success { row_id: None })
    }

    fn delete(&mut self, req: DeleteRequest) -> Result<MutationResult, Error> {
        self.data.remove(&req.row_id);
        Ok(MutationResult::Success { row_id: None })
    }
}

#[test]
fn writable_table_insert() {
    let mut plugin = WritableTablePlugin::new(MockWritableTable::new());

    let rows = plugin
        .call(row(&[
            ("action", "insert"),
            ("json_value_array", r#"["k1","v1"]"#),
            ("auto_rowid", "true"),
            ("id", "1"),
            ("context", "{}"),
        ]))
        .unwrap();

    let row = &rows[0];
    assert_eq!(row.get("status").unwrap(), "success");
    assert_eq!(row.get("id").unwrap(), "1");
}

#[test]
fn writable_table_update() {
    let mut table = MockWritableTable::new();
    table.data.insert(5, ("k1".into(), "v1".into()));
    let mut plugin = WritableTablePlugin::new(table);

    let rows = plugin
        .call(row(&[
            ("action", "update"),
            ("id", "5"),
            ("new_id", "10"),
            ("json_value_array", r#"["k2","v2"]"#),
            ("context", "{}"),
        ]))
        .unwrap();

    assert_eq!(rows[0].get("status").unwrap(), "success");
    let rows = plugin
        .call(row(&[("action", "generate"), ("context", "{}")]))
        .unwrap();
    assert_eq!(rows, vec![row(&[("key", "k2"), ("value", "v2")])]);
}

#[test]
fn writable_table_delete() {
    let mut table = MockWritableTable::new();
    table.data.insert(42, ("k1".into(), "v1".into()));
    let mut plugin = WritableTablePlugin::new(table);

    let rows = plugin
        .call(row(&[("action", "delete"), ("id", "42"), ("context", "{}")]))
        .unwrap();

    assert_eq!(rows[0].get("status").unwrap(), "success");
    let rows = plugin
        .call(row(&[("action", "generate"), ("context", "{}")]))
        .unwrap();
    assert!(rows.is_empty());
}

#[test]
fn writable_table_generate() {
    let mut table = MockWritableTable::new();
    table.data.insert(1, ("greeting".into(), "hello".into()));
    let mut plugin = WritableTablePlugin::new(table);

    let rows = plugin
        .call(row(&[("action", "generate"), ("context", "{}")]))
        .unwrap();
    assert_eq!(rows.len(), 1);
    assert_eq!(rows[0].get("key").unwrap(), "greeting");
}

#[test]
fn writable_table_delete_missing_id() {
    let mut plugin = WritableTablePlugin::new(MockWritableTable::new());

    let rows = plugin.call(row(&[("action", "delete")])).unwrap();

    let row = &rows[0];
    assert_eq!(row.get("status").unwrap(), "failure");
    assert!(row.get("message").unwrap().contains("missing id"));
    assert_eq!(row.get("message").unwrap(), "delete: missing id");
}

#[test]
fn writable_table_update_missing_id() {
    let mut plugin = WritableTablePlugin::new(MockWritableTable::new());

    let rows = plugin
        .call(row(&[("action", "update"), ("json_value_array", "[]")]))
        .unwrap();

    let row = &rows[0];
    assert_eq!(row.get("status").unwrap(), "failure");
    assert!(row.get("message").unwrap().contains("missing id"));
}

#[test]
fn writable_table_insert_missing_values() {
    let mut plugin = WritableTablePlugin::new(MockWritableTable::new());

    let rows = plugin.call(row(&[("action", "insert")])).unwrap();

    let row = &rows[0];
    assert_eq!(row.get("status").unwrap(), "failure");
    assert!(row
        .get("message")
        .unwrap()
        .contains("missing json_value_array"));
}

#[test]
fn writable_table_insert_invalid_json() {
    let mut plugin = WritableTablePlugin::new(MockWritableTable::new());

    let rows = plugin
        .call(row(&[("action", "insert"), ("json_value_array", "not json")]))
        .unwrap();

    let row = &rows[0];
    assert_eq!(row.get("status").unwrap(), "failure");
    assert!(row
        .get("message")
        .unwrap()
        .contains("invalid json_value_array"));
}

#[test]
fn writable_table_update_invalid_id() {
    let mut plugin = WritableTablePlugin::new(MockWritableTable::new());

    let rows = plugin
        .call(row(&[
            ("action", "update"),
            ("id", "not_a_number"),
            ("json_value_array", "[]"),
        ]))
        .unwrap();

    let row = &rows[0];
    assert_eq!(row.get("status").unwrap(), "failure");
    assert!(row.get("message").unwrap().contains("invalid id"));
    assert_eq!(
        row.get("message").unwrap(),
        "update: invalid id: invalid digit found in string"
    );
}

struct ContextChecker;

impl WritableTable for ContextChecker {
    fn name(&self) -> &'static str {
        "ctx_check"
    }
    fn columns(&self) -> Vec<ColumnDefinition> {
        vec![]
    }
    fn generate(&mut self, _ctx: QueryContext) -> Result<Table, Error> {
        Ok(vec![])
    }
    fn insert(&mut self, _req: InsertRequest) -> Result<MutationResult, Error> {
        Ok(MutationResult::Success { row_id: None })
    }
    fn update(&mut self, _req: UpdateRequest) -> Result<MutationResult, Error> {
        Ok(MutationResult::Success { row_id: None })
    }
    fn delete(&mut self, req: DeleteRequest) -> Result<MutationResult, Error> {
        assert!(!req.context.is_empty());
        assert!(req.context.contains_key("name"));
        Ok(MutationResult::Success { row_id: None })
    }
}

#[test]
fn writable_table_with_context() {
    let mut plugin = WritableTablePlugin::new(ContextChecker);

    let rows = plugin
        .call(row(&[
            ("action", "delete"),
            ("id", "1"),
            (
                "context",
                r#"{"constraints":[{"name":"name","list":"","affinity":"TEXT"}]}"#,
            ),
        ]))
        .unwrap();

    assert_eq!(rows[0].get("status").unwrap(), "success");
}

struct ConstraintTable;

impl WritableTable for ConstraintTable {
    fn name(&self) -> &'static str {
        "constraint_tbl"
    }
    fn columns(&self) -> Vec<ColumnDefinition> {
        vec![]
    }
    fn generate(&mut self, _ctx: QueryContext) -> Result<Table, Error> {
        Ok(vec![])
    }
    fn insert(&mut self, _req: InsertRequest) -> Result<MutationResult, Error> {
        Ok(MutationResult::Constraint)
    }
    fn update(&mut self, _req: UpdateRequest) -> Result<MutationResult, Error> {
        Ok(MutationResult::Success { row_id: None })
    }
    fn delete(&mut self, _req: DeleteRequest) -> Result<MutationResult, Error> {
        Ok(MutationResult::Success { row_id: None })
    }
}

#[test]
fn writable_table_callback_returns_constraint() {
    let mut plugin = WritableTablePlugin::new(ConstraintTable);

    let rows = plugin
        .call(row(&[("action", "insert"), ("json_value_array", "[]")]))
        .unwrap();

    assert_eq!(rows[0].get("status").unwrap(), "constraint");
}

struct ErrTable;

impl WritableTable for ErrTable {
    fn name(&self) -> &'static str {
        "err_tbl"
    }
    fn columns(&self) -> Vec<ColumnDefinition> {
        vec![]
    }
    fn generate(&mut self, _ctx: QueryContext) -> Result<Table, Error> {
        Err(Error::Status {
            code: 9,
            message: "locked".to_string(),
        })
    }
    fn insert(&mut self, req: InsertRequest) -> Result<MutationResult, Error> {
        let told = format!("{:?} {} {:?} {}", req.values, req.auto_rowid, req.row_id, req.context.len());
        Ok(MutationResult::Failure(told))
    }
    fn update(&mut self, _req: UpdateRequest) -> Result<MutationResult, Error> {
        Err(Error::Status {
            code: 3,
            message: "busy".to_string(),
        })
    }
    fn delete(&mut self, _req: DeleteRequest) -> Result<MutationResult, Error> {
        Err(Error::other("storage unavailable"))
    }
}

#[test]
fn writable_table_callback_returns_err() {
    let mut plugin = WritableTablePlugin::new(ErrTable);

    let rows = plugin
        .call(row(&[("action", "delete"), ("id", "1")]))
        .unwrap();

    let row = &rows[0];
    assert_eq!(row.get("status").unwrap(), "failure");
    assert!(row.get("message").unwrap().contains("storage unavailable"));
    assert_eq!(
        row.get("message").unwrap(),
        "delete failed: storage unavailable"
    );
}

#[test]
fn writable_table_passes_requests_on() {
    let mut plugin = WritableTablePlugin::new(ErrTable);
    let told = |plugin: &mut WritableTablePlugin<ErrTable>, pairs: &[(&str, &str)]| {
        plugin.call(row(pairs)).unwrap()[0]
            .get("message")
            .unwrap()
            .clone()
    };
    assert_eq!(
        told(
            &mut plugin,
            &[
                ("action", "insert"),
                ("json_value_array", "[null, 1, \"x\"]"),
                ("auto_rowid", "TRUE"),
                ("id", "none"),
                ("context", "{broken"),
            ]
        ),
        "[None, Some(\"1\"), Some(\"x\")] true None 0"
    );
    assert_eq!(
        told(
            &mut plugin,
            &[
                ("action", "insert"),
                ("json_value_array", "[]"),
                ("auto_rowid", "yes"),
                ("id", "-7"),
            ]
        ),
        "[] false Some(-7) 0"
    );
    assert_eq!(
        told(
            &mut plugin,
            &[("action", "update"), ("id", "1"), ("json_value_array", "[]")]
        ),
        "update failed: status 3: busy"
    );
    assert_eq!(
        told(&mut plugin, &[("action", "update"), ("id", "1")]),
        "missing json_value_array"
    );
    let err = plugin
        .call(row(&[("action", "generate"), ("context", "{}")]))
        .unwrap_err();
    assert!(matches!(err, Error::Status { code: 9, .. }));
    let err = plugin.call(row(&[("action", "drop")])).unwrap_err();
    assert_eq!(err.to_string(), "unknown action: drop");
    let err = plugin.call(row(&[])).unwrap_err();
    assert_eq!(err.to_string(), "missing action");
}

#[test]
fn writable_table_routes() {
    let mut plugin = WritableTablePlugin::new(MockWritableTable::new());
    let routes = plugin.routes();
    assert_eq!(routes.len(), 2);
    assert_eq!(routes[0].get("name").unwrap(), "key");
    assert_eq!(routes[1].get("name").unwrap(), "value");
    let columns = plugin.call(row(&[("action", "columns")])).unwrap();
    assert_eq!(columns, routes);
    assert_eq!(plugin.name(), "mock_writable");
}

#[test]
fn row_ids_are_read() {
    assert_eq!(parse_row_id(&row(&[("id", "+12")]), "id"), Ok(12));
    assert_eq!(
        parse_row_id(&row(&[("id", "")]), "id").unwrap_err().to_string(),
        "invalid id: cannot parse integer from empty string"
    );
    assert_eq!(
        parse_row_id(&row(&[]), "new_id").unwrap_err().to_string(),
        "missing new_id"
    );
    assert!(extract_column_values(&row(&[("json_value_array", "[1]")]), "insert").is_ok());
}
