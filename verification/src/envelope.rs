//! The standard field envelope of a repository entity.
//!
//! A user-declared entity brings only its own fields; the [`schema`] function
//! wraps them in the standard envelope every repository row carries: a locked
//! surrogate key, an insert-only client discriminator and a status column in
//! front, and the free-form comment, JSON payload and locked audit columns
//! behind. The result is a complete [`EntityDef`] ready for
//! [`crate::schema::compile`].

use vstd::prelude::*;

use crate::schema::{EntityBody, EntityBodyModel, EntityDef, MalformedSchema, RawField,
    RawFieldModel, Tag};

verus! {

/// The envelope fields that precede the user's own, in order.
pub open spec fn envelope_prefix() -> Seq<RawFieldModel> {
    seq![
        RawFieldModel { name: Some("id"@), ty: "i32"@, tags: seq![Tag::Locked] },
        RawFieldModel { name: Some("sys_client"@), ty: "i32"@, tags: seq![Tag::InsertOnly] },
        RawFieldModel {
            name: Some("status"@),
            ty: "mae::repo::default::DomainStatus"@,
            tags: Seq::empty(),
        },
    ]
}

/// The envelope fields that follow the user's own, in order.
pub open spec fn envelope_suffix() -> Seq<RawFieldModel> {
    seq![
        RawFieldModel { name: Some("comment"@), ty: "Option<String>"@, tags: Seq::empty() },
        RawFieldModel { name: Some("tags"@), ty: "serde_json::Value"@, tags: Seq::empty() },
        RawFieldModel { name: Some("sys_detail"@), ty: "serde_json::Value"@, tags: Seq::empty() },
        RawFieldModel { name: Some("created_by"@), ty: "i32"@, tags: seq![Tag::Locked] },
        RawFieldModel { name: Some("updated_by"@), ty: "i32"@, tags: seq![Tag::Locked] },
        RawFieldModel {
            name: Some("created_at"@),
            ty: "chrono::DateTime<chrono::Utc>"@,
            tags: seq![Tag::Locked],
        },
        RawFieldModel {
            name: Some("updated_at"@),
            ty: "chrono::DateTime<chrono::Utc>"@,
            tags: seq![Tag::Locked],
        },
    ]
}

/// A user field list wrapped in the standard envelope, declaration order
/// preserved.
pub open spec fn envelope_fields(user: Seq<RawFieldModel>) -> Seq<RawFieldModel> {
    envelope_prefix() + user + envelope_suffix()
}

/// Builds the entity definition of a repository: the user's record wrapped
/// in the standard envelope, carrying the context type identifier and the
/// raw SQL source fragment. Any body that is not a plain field-record is
/// rejected whole.
pub fn schema(name: String, context: String, source: String, body: EntityBody) -> (r: Result<
    EntityDef,
    MalformedSchema,
>)
    ensures
        match body@ {
            EntityBodyModel::Record(user) => {
                &&& r is Ok
                &&& r->Ok_0@.name == name@
                &&& r->Ok_0@.context == context@
                &&& r->Ok_0@.source == source@
                &&& r->Ok_0@.body == EntityBodyModel::Record(envelope_fields(user))
            },
            _ => r == Result::<EntityDef, MalformedSchema>::Err(MalformedSchema::NotARecord),
        },
{
    match body {
        EntityBody::Record(user) => {
            let ghost user_models = user.deep_view();
            let mut all: Vec<RawField> = Vec::new();
            all.push(
                RawField {
                    name: Some("id".to_owned()),
                    ty: "i32".to_owned(),
                    tags: vec![Tag::Locked],
                },
            );
            all.push(
                RawField {
                    name: Some("sys_client".to_owned()),
                    ty: "i32".to_owned(),
                    tags: vec![Tag::InsertOnly],
                },
            );
            all.push(
                RawField {
                    name: Some("status".to_owned()),
                    ty: "mae::repo::default::DomainStatus".to_owned(),
                    tags: Vec::new(),
                },
            );
            proof {
                assert(all.deep_view() =~~= envelope_prefix());
            }
            let n = user.len();
            for i in 0..n
                invariant
                    n == user@.len(),
                    user_models == user.deep_view(),
                    all@.len() == 3 + i,
                    all.deep_view() =~= envelope_prefix() + user_models.take(i as int),
            {
                all.push(user[i].duplicate());
                proof {
                    user_models.lemma_take_succ_push(i as int);
                    let lhs = all.deep_view();
                    let rhs = envelope_prefix() + user_models.take(i as int + 1);
                    assert forall|j: int| 0 <= j < lhs.len() implies lhs[j] == rhs[j] by {
                        if j < 3 + i {
                            assert(lhs[j] == (envelope_prefix() + user_models.take(i as int))[j]);
                        } else {
                            assert(lhs[j] == user_models[i as int]);
                        }
                    }
                    assert(lhs =~= rhs);
                }
            }
            all.push(
                RawField {
                    name: Some("comment".to_owned()),
                    ty: "Option<String>".to_owned(),
                    tags: Vec::new(),
                },
            );
            all.push(
                RawField {
                    name: Some("tags".to_owned()),
                    ty: "serde_json::Value".to_owned(),
                    tags: Vec::new(),
                },
            );
            all.push(
                RawField {
                    name: Some("sys_detail".to_owned()),
                    ty: "serde_json::Value".to_owned(),
                    tags: Vec::new(),
                },
            );
            all.push(
                RawField {
                    name: Some("created_by".to_owned()),
                    ty: "i32".to_owned(),
                    tags: vec![Tag::Locked],
                },
            );
            all.push(
                RawField {
                    name: Some("updated_by".to_owned()),
                    ty: "i32".to_owned(),
                    tags: vec![Tag::Locked],
                },
            );
            all.push(
                RawField {
                    name: Some("created_at".to_owned()),
                    ty: "chrono::DateTime<chrono::Utc>".to_owned(),
                    tags: vec![Tag::Locked],
                },
            );
            all.push(
                RawField {
                    name: Some("updated_at".to_owned()),
                    ty: "chrono::DateTime<chrono::Utc>".to_owned(),
                    tags: vec![Tag::Locked],
                },
            );
            proof {
                assert(user_models.take(n as int) =~= user_models);
                assert(all.deep_view() =~~= envelope_fields(user_models));
            }
            Ok(EntityDef { name, context, source, body: EntityBody::Record(all) })
        },
        EntityBody::Tuple => Err(MalformedSchema::NotARecord),
        EntityBody::Unit => Err(MalformedSchema::NotARecord),
        EntityBody::Enumeration => Err(MalformedSchema::NotARecord),
        EntityBody::Union => Err(MalformedSchema::NotARecord),
    }
}

} // verus!
