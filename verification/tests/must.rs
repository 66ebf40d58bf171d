use mae_schema::schema::{compile, EntityBody, EntityDef};

/// Panics unless the condition holds.
fn must_be_true(cond: bool) {
    assert!(cond);
}

#[test]
fn must_be_true_works() {
    let def = EntityDef {
        name: "Bare".to_string(),
        context: "Ctx".to_string(),
        source: "bare".to_string(),
        body: EntityBody::Record(vec![]),
    };
    must_be_true(compile(&def).is_ok());
}
