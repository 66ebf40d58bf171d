use mae_schema::envelope;
use mae_schema::schema::{
    compile, EntityBody, EntityDef, MalformedSchema, Policy, RawField, RowKind, Tag,
};

fn named(name: &str, ty: &str, tags: Vec<Tag>) -> RawField {
    RawField { name: Some(name.to_string()), ty: ty.to_string(), tags }
}

fn def_of(fields: Vec<RawField>) -> EntityDef {
    EntityDef {
        name: "Sample".to_string(),
        context: "Ctx".to_string(),
        source: "samples".to_string(),
        body: EntityBody::Record(fields),
    }
}

#[test]
fn compile_classifies_policies() {
    let def = def_of(vec![
        named("id", "i32", vec![Tag::Locked]),
        named("sys_client", "i32", vec![Tag::InsertOnly]),
        named("token", "String", vec![Tag::UpdateOnly]),
        named("name", "String", vec![]),
        named("legacy", "i32", vec![Tag::FromContext]),
        named("stamp", "i64", vec![Tag::GeneratedOnCreate]),
        named("noted", "String", vec![Tag::Other]),
    ]);
    let s = compile(&def).expect("a plain record compiles");
    assert_eq!(s.context, "Ctx");
    assert_eq!(s.source, "samples");
    let got: Vec<(String, Policy)> =
        s.fields.iter().map(|f| (f.name.clone(), f.policy)).collect();
    assert_eq!(
        got,
        vec![
            ("id".to_string(), Policy::Locked),
            ("sys_client".to_string(), Policy::InsertOnly),
            ("token".to_string(), Policy::UpdateOnly),
            ("name".to_string(), Policy::Mutable),
            ("legacy".to_string(), Policy::Locked),
            ("stamp".to_string(), Policy::Locked),
            ("noted".to_string(), Policy::Mutable),
        ]
    );
    assert_eq!(s.fields[2].ty, "String");
}

#[test]
fn locked_wins_over_other_tags() {
    let def = def_of(vec![named("pinned", "i32", vec![Tag::InsertOnly, Tag::Locked])]);
    let s = compile(&def).expect("a plain record compiles");
    assert_eq!(s.fields[0].policy, Policy::Locked);
}

#[test]
fn compile_rejects_non_record_bodies() {
    for body in [
        EntityBody::Tuple,
        EntityBody::Unit,
        EntityBody::Enumeration,
        EntityBody::Union,
    ] {
        let def = EntityDef {
            name: "Sample".to_string(),
            context: "Ctx".to_string(),
            source: "samples".to_string(),
            body,
        };
        assert!(matches!(compile(&def), Err(MalformedSchema::NotARecord)));
    }
}

#[test]
fn compile_rejects_conflicting_tags() {
    let def = def_of(vec![
        named("name", "String", vec![]),
        named("torn", "i32", vec![Tag::InsertOnly, Tag::UpdateOnly]),
    ]);
    assert!(matches!(compile(&def), Err(MalformedSchema::ConflictingTags { index: 1 })));
}

#[test]
fn compile_rejects_unnamed_fields() {
    let def = def_of(vec![
        named("name", "String", vec![]),
        RawField { name: None, ty: "i32".to_string(), tags: vec![] },
    ]);
    assert!(matches!(compile(&def), Err(MalformedSchema::UnnamedField { index: 1 })));
}

#[test]
fn compile_reports_the_first_offending_field() {
    let def = def_of(vec![
        RawField { name: None, ty: "i32".to_string(), tags: vec![] },
        named("torn", "i32", vec![Tag::InsertOnly, Tag::UpdateOnly]),
    ]);
    assert!(matches!(compile(&def), Err(MalformedSchema::UnnamedField { index: 0 })));
}

#[test]
fn projections_follow_the_policy_table() {
    let def = def_of(vec![
        named("id", "i32", vec![Tag::Locked]),
        named("sys_client", "i32", vec![Tag::InsertOnly]),
        named("name", "String", vec![]),
        named("status", "String", vec![]),
        named("updated_at", "Timestamp", vec![Tag::Locked]),
    ]);
    let s = compile(&def).expect("a plain record compiles");

    let patches: Vec<String> = s.to_patches().iter().map(|f| f.name.clone()).collect();
    assert_eq!(patches, vec!["name".to_string(), "status".to_string()]);

    let inserts: Vec<String> =
        s.to_row(RowKind::Insert).iter().map(|f| f.name.clone()).collect();
    assert_eq!(
        inserts,
        vec!["sys_client".to_string(), "name".to_string(), "status".to_string()]
    );

    let updates: Vec<String> =
        s.to_row(RowKind::Update).iter().map(|f| f.name.clone()).collect();
    assert_eq!(updates, vec!["name".to_string(), "status".to_string()]);

    let filters: Vec<String> =
        s.to_row(RowKind::Filter).iter().map(|f| f.name.clone()).collect();
    assert_eq!(
        filters,
        vec![
            "id".to_string(),
            "sys_client".to_string(),
            "name".to_string(),
            "status".to_string(),
            "updated_at".to_string(),
        ]
    );

    let cols = s.to_fields();
    assert_eq!(cols, vec!["id", "sys_client", "name", "status", "updated_at"]);
    assert_eq!(s.schema_source(), "samples");
}

#[test]
fn envelope_wraps_user_fields() {
    let user = vec![named("name", "String", vec![]), named("rank", "i32", vec![Tag::InsertOnly])];
    let def = envelope::schema(
        "Sample".to_string(),
        "Ctx".to_string(),
        "samples".to_string(),
        EntityBody::Record(user),
    )
    .expect("a record body is accepted");
    assert_eq!(def.name, "Sample");
    assert_eq!(def.context, "Ctx");
    assert_eq!(def.source, "samples");
    let fields = match &def.body {
        EntityBody::Record(fs) => fs,
        _ => panic!("the envelope keeps a record body"),
    };
    let names: Vec<&str> =
        fields.iter().map(|f| f.name.as_deref().expect("envelope fields are named")).collect();
    assert_eq!(
        names,
        vec![
            "id",
            "sys_client",
            "status",
            "name",
            "rank",
            "comment",
            "tags",
            "sys_detail",
            "created_by",
            "updated_by",
            "created_at",
            "updated_at",
        ]
    );

    let s = compile(&def).expect("the enveloped record compiles");
    let policies: Vec<Policy> = s.fields.iter().map(|f| f.policy).collect();
    assert_eq!(
        policies,
        vec![
            Policy::Locked,
            Policy::InsertOnly,
            Policy::Mutable,
            Policy::Mutable,
            Policy::InsertOnly,
            Policy::Mutable,
            Policy::Mutable,
            Policy::Mutable,
            Policy::Locked,
            Policy::Locked,
            Policy::Locked,
            Policy::Locked,
        ]
    );
    assert_eq!(s.fields[6].ty, "serde_json::Value");
    assert_eq!(s.fields[10].ty, "chrono::DateTime<chrono::Utc>");
}

#[test]
fn envelope_rejects_non_record_bodies() {
    let r = envelope::schema(
        "Sample".to_string(),
        "Ctx".to_string(),
        "samples".to_string(),
        EntityBody::Enumeration,
    );
    assert!(matches!(r, Err(MalformedSchema::NotARecord)));
}
