use mae_schema::fragment::{placeholder, BindArgs, BindSink, ToSqlParts, Value};
use mae_schema::schema::{compile, EntityBody, EntityDef, RawField, Schema, Tag};

fn named(name: &str, ty: &str, tags: Vec<Tag>) -> RawField {
    RawField { name: Some(name.to_string()), ty: ty.to_string(), tags }
}

/// The scenario schema: {id: Locked, sys_client: InsertOnly, name: Mutable,
/// status: Mutable, updated_at: Locked}.
fn sample_schema() -> Schema {
    let def = EntityDef {
        name: "Sample".to_string(),
        context: "Ctx".to_string(),
        source: "samples".to_string(),
        body: EntityBody::Record(vec![
            named("id", "i32", vec![Tag::Locked]),
            named("sys_client", "i32", vec![Tag::InsertOnly]),
            named("name", "String", vec![]),
            named("status", "String", vec![]),
            named("updated_at", "Timestamp", vec![Tag::Locked]),
        ]),
    };
    compile(&def).expect("a plain record compiles")
}

fn text(s: &str) -> Value {
    Value::Text(s.to_string())
}

#[test]
fn field_all_renders_comma_joined_columns() {
    let s = sample_schema();
    let all = s.field_all();
    assert_eq!(all.render(), "id, sys_client, name, status, updated_at");
}

#[test]
fn field_all_of_an_empty_schema_renders_nothing() {
    let def = EntityDef {
        name: "Bare".to_string(),
        context: "Ctx".to_string(),
        source: "bare".to_string(),
        body: EntityBody::Record(vec![]),
    };
    let s = compile(&def).expect("an empty record compiles");
    assert_eq!(s.field_all().render(), "");
}

#[test]
fn field_col_renders_its_bare_name() {
    let s = sample_schema();
    let col = s.field_col(3).expect("index 3 names a column");
    assert_eq!(col.render(), "status");
    assert!(s.field_col(5).is_none());
}

#[test]
fn field_emits_no_placeholders_and_binds_nothing() {
    let s = sample_schema();
    let all = s.field_all();
    let frag = all.to_sql_parts();
    assert_eq!(frag.tokens, vec!["id, sys_client, name, status, updated_at"]);
    assert!(frag.placeholders.is_none());
    assert_eq!(all.bind_len(), 0);
    let mut sink = BindSink::new();
    all.bind(&mut sink);
    assert_eq!(sink.values, Vec::<Value>::new());
}

#[test]
fn patch_field_excludes_locked_and_insert_only_columns() {
    let s = sample_schema();
    assert!(s.patch_field(0, text("x")).is_none()); // id: Locked
    assert!(s.patch_field(1, text("x")).is_none()); // sys_client: InsertOnly
    assert!(s.patch_field(2, text("x")).is_some()); // name: Mutable
    assert!(s.patch_field(3, text("x")).is_some()); // status: Mutable
    assert!(s.patch_field(4, text("x")).is_none()); // updated_at: Locked
    assert!(s.patch_field(9, text("x")).is_none()); // out of range
}

#[test]
fn patch_field_renders_and_binds_one_value() {
    let s = sample_schema();
    let p = s.patch_field(2, text("new name")).expect("name is patchable");
    assert_eq!(p.render(), "name");
    let frag = p.to_sql_parts();
    assert_eq!(frag.tokens, vec!["name"]);
    assert!(frag.placeholders.is_none());
    assert_eq!(p.bind_len(), 1);
    let mut sink = BindSink::new();
    p.bind(&mut sink);
    assert_eq!(sink.values, vec![text("new name")]);
}

#[test]
fn insert_row_requires_one_value_per_insertable_column() {
    let s = sample_schema();
    assert!(s.insert_row(vec![text("a")]).is_none());
    assert!(s.insert_row(vec![text("a"), text("b"), text("c"), text("d")]).is_none());
    assert!(s.insert_row(vec![text("a"), text("b"), text("c")]).is_some());
}

#[test]
fn insert_row_numbers_every_column_from_one() {
    let s = sample_schema();
    let row = s
        .insert_row(vec![Value::Int(7), text("alice"), text("active")])
        .expect("three insertable columns");
    let frag = row.to_sql_parts();
    assert_eq!(frag.tokens, vec!["sys_client", "name", "status"]);
    assert_eq!(frag.placeholders, Some(vec!["$1".to_string(), "$2".to_string(), "$3".to_string()]));
    assert_eq!(row.bind_len(), 3);
    let mut sink = BindSink::new();
    row.bind(&mut sink);
    assert_eq!(sink.values, vec![Value::Int(7), text("alice"), text("active")]);
}

#[test]
fn insert_row_bind_len_is_fixed_per_schema() {
    let s = sample_schema();
    let r1 = s.insert_row(vec![Value::Null, Value::Null, Value::Null]).expect("three columns");
    let r2 = s
        .insert_row(vec![Value::Int(1), Value::Boolean(true), text("z")])
        .expect("three columns");
    assert_eq!(r1.bind_len(), r2.bind_len());
}

#[test]
fn update_row_with_only_status_present_emits_one_placeholder() {
    let s = sample_schema();
    let row = s
        .update_row(vec![None, Some(text("archived"))])
        .expect("two updatable columns");
    let frag = row.to_sql_parts();
    assert_eq!(frag.tokens, vec!["status"]);
    assert_eq!(frag.placeholders, Some(vec!["$1".to_string()]));
    assert_eq!(row.bind_len(), 1);
    let mut sink = BindSink::new();
    row.bind(&mut sink);
    assert_eq!(sink.values, vec![text("archived")]);
}

#[test]
fn update_row_numbering_skips_absent_columns_densely() {
    let s = sample_schema();
    let row = s
        .update_row(vec![Some(text("bob")), Some(text("retired"))])
        .expect("two updatable columns");
    let frag = row.to_sql_parts();
    assert_eq!(frag.tokens, vec!["name", "status"]);
    assert_eq!(frag.placeholders, Some(vec!["$1".to_string(), "$2".to_string()]));
    assert_eq!(row.bind_len(), 2);
}

#[test]
fn update_row_with_nothing_present_emits_nothing() {
    let s = sample_schema();
    let row = s.update_row(vec![None, None]).expect("two updatable columns");
    let frag = row.to_sql_parts();
    assert_eq!(frag.tokens, Vec::<String>::new());
    assert_eq!(frag.placeholders, Some(vec![]));
    assert_eq!(row.bind_len(), 0);
}

#[test]
fn update_row_requires_one_slot_per_updatable_column() {
    let s = sample_schema();
    assert!(s.update_row(vec![None]).is_none());
    assert!(s.update_row(vec![None, None, None]).is_none());
}

#[test]
fn filter_row_mirrors_the_full_column_set() {
    let s = sample_schema();
    let row = s
        .filter_row(vec![Some(Value::Int(4)), None, None, Some(text("active")), None])
        .expect("five columns");
    let frag = row.to_sql_parts();
    assert_eq!(frag.tokens, vec!["id", "status"]);
    assert_eq!(frag.placeholders, Some(vec!["$1".to_string(), "$2".to_string()]));
    assert_eq!(row.bind_len(), 2);
    let mut sink = BindSink::new();
    row.bind(&mut sink);
    assert_eq!(sink.values, vec![Value::Int(4), text("active")]);
}

#[test]
fn filter_row_numbers_from_a_caller_supplied_base() {
    let s = sample_schema();
    let row = s
        .filter_row(vec![Some(Value::Int(4)), None, None, Some(text("active")), None])
        .expect("five columns");
    let frag = row.to_sql_parts_from(3);
    assert_eq!(frag.tokens, vec!["id", "status"]);
    assert_eq!(frag.placeholders, Some(vec!["$3".to_string(), "$4".to_string()]));
}

#[test]
fn filter_row_requires_one_slot_per_column() {
    let s = sample_schema();
    assert!(s.filter_row(vec![None, None]).is_none());
}

#[test]
fn placeholders_render_multi_digit_positions() {
    assert_eq!(placeholder(1), "$1");
    assert_eq!(placeholder(9), "$9");
    assert_eq!(placeholder(10), "$10");
    assert_eq!(placeholder(12), "$12");
    assert_eq!(placeholder(205), "$205");
}

#[test]
fn bind_sink_keeps_values_in_call_order() {
    let mut sink = BindSink::new();
    assert_eq!(sink.len(), 0);
    sink.add(Value::Int(1));
    sink.add(text("two"));
    sink.add(Value::Boolean(false));
    assert_eq!(sink.len(), 3);
    assert_eq!(sink.values, vec![Value::Int(1), text("two"), Value::Boolean(false)]);
}

#[test]
fn binding_into_placeholder_positions_reconstructs_the_values() {
    let s = sample_schema();
    let row = s
        .update_row(vec![Some(text("bob")), Some(text("retired"))])
        .expect("two updatable columns");
    let frag = row.to_sql_parts();
    let mut sink = BindSink::new();
    row.bind(&mut sink);

    let placeholders = frag.placeholders.expect("an update row numbers its placeholders");
    assert_eq!(placeholders.len(), sink.values.len());
    // Place each bound value at its placeholder position, then read the
    // positions back in order: the bind sequence reappears unchanged.
    let mut by_position: Vec<(usize, Value)> = placeholders
        .iter()
        .map(|p| p[1..].parse::<usize>().expect("a placeholder is $ and digits"))
        .zip(sink.values.iter().cloned())
        .collect();
    by_position.sort_by_key(|(pos, _)| *pos);
    let reread: Vec<Value> = by_position.into_iter().map(|(_, v)| v).collect();
    assert_eq!(reread, sink.values);
}
