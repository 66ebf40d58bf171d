//! Entity definitions, policy classification and schema compilation.
//!
//! An [`EntityDef`] is the raw input: an entity name, the SQL source fragment
//! the entity maps to, and a body that is either a plain field-record or some
//! other shape. Compilation classifies every field's tags into a single
//! [`Policy`] and either yields a [`Schema`] or rejects the whole definition
//! with a [`MalformedSchema`] diagnostic; no partial output is ever produced.

use vstd::prelude::*;

verus! {

/// A policy tag attached to a raw field, before classification.
///
/// `FromContext` and `GeneratedOnCreate` belong to a legacy taxonomy: they
/// mark fields whose value is supplied by the execution context rather than
/// by a builder, and are normalized to [`Policy::Locked`] during
/// classification. `Other` stands for any unrecognized attribute, which
/// classification ignores.
#[derive(Clone, Copy, Debug, PartialEq, Eq, Structural)]
pub enum Tag {
    Locked,
    InsertOnly,
    UpdateOnly,
    FromContext,
    GeneratedOnCreate,
    Other,
}

/// The mutation policy of a classified field.
#[derive(Clone, Copy, Debug, PartialEq, Eq, Structural)]
pub enum Policy {
    /// Never settable by a caller; excluded from every write-side artifact.
    Locked,
    /// Settable when inserting, never when updating.
    InsertOnly,
    /// Settable when updating, never when inserting.
    UpdateOnly,
    /// Settable in both insert and update contexts.
    Mutable,
}

/// Classification of a tag list into a policy.
///
/// `locked` wins over everything else; the legacy context-sourced tags are
/// normalized to `Locked` as well, since such fields are never settable by a
/// builder. Absence of any recognized tag means `Mutable`.
pub open spec fn classify_tags(tags: Seq<Tag>) -> Policy {
    if tags.contains(Tag::Locked) || tags.contains(Tag::FromContext) || tags.contains(
        Tag::GeneratedOnCreate,
    ) {
        Policy::Locked
    } else if tags.contains(Tag::InsertOnly) {
        Policy::InsertOnly
    } else if tags.contains(Tag::UpdateOnly) {
        Policy::UpdateOnly
    } else {
        Policy::Mutable
    }
}

/// `insert_only` and `update_only` are mutually exclusive.
pub open spec fn tags_conflict(tags: Seq<Tag>) -> bool {
    tags.contains(Tag::InsertOnly) && tags.contains(Tag::UpdateOnly)
}

/// Whether a tag list carries `t`.
fn has_tag(tags: &Vec<Tag>, t: Tag) -> (b: bool)
    ensures
        b == tags@.contains(t),
{
    let n = tags.len();
    for i in 0..n
        invariant
            n == tags@.len(),
            forall|j: int| 0 <= j < i ==> tags@[j] != t,
    {
        if tags[i] == t {
            return true;
        }
    }
    false
}

/// One field of an entity definition, before classification: an optional
/// name (tuple-style fields have none), the declared type, and the policy
/// tags found on the field.
pub struct RawField {
    pub name: Option<String>,
    pub ty: String,
    pub tags: Vec<Tag>,
}

/// Mathematical model of a [`RawField`].
#[verifier::ext_equal]
pub ghost struct RawFieldModel {
    pub name: Option<Seq<char>>,
    pub ty: Seq<char>,
    pub tags: Seq<Tag>,
}

impl View for RawField {
    type V = RawFieldModel;

    open spec fn view(&self) -> RawFieldModel {
        RawFieldModel { name: self.name.deep_view(), ty: self.ty@, tags: self.tags@ }
    }
}

impl DeepView for RawField {
    type V = RawFieldModel;

    open spec fn deep_view(&self) -> RawFieldModel {
        self.view()
    }
}

impl RawField {
    /// An owned copy; derived `Clone` would tell the verifier nothing.
    pub fn duplicate(&self) -> (r: RawField)
        ensures
            r@ == self@,
    {
        let name = match &self.name {
            Some(s) => Some(s.clone()),
            None => None,
        };
        let mut tags: Vec<Tag> = Vec::new();
        let n = self.tags.len();
        for i in 0..n
            invariant
                n == self.tags@.len(),
                tags@ =~= self.tags@.take(i as int),
        {
            tags.push(self.tags[i]);
        }
        proof {
            assert(self.tags@.take(n as int) =~= self.tags@);
        }
        let r = RawField { name, ty: self.ty.clone(), tags };
        proof {
            assert(r@ =~~= self@);
        }
        r
    }
}

/// The shape of an entity definition's data: only a plain record of fields
/// is accepted by compilation; every other shape is rejected.
pub enum EntityBody {
    Record(Vec<RawField>),
    Tuple,
    Unit,
    Enumeration,
    Union,
}

/// Mathematical model of an [`EntityBody`].
#[verifier::ext_equal]
pub ghost enum EntityBodyModel {
    Record(Seq<RawFieldModel>),
    Tuple,
    Unit,
    Enumeration,
    Union,
}

impl View for EntityBody {
    type V = EntityBodyModel;

    open spec fn view(&self) -> EntityBodyModel {
        match self {
            EntityBody::Record(fs) => EntityBodyModel::Record(fs.deep_view()),
            EntityBody::Tuple => EntityBodyModel::Tuple,
            EntityBody::Unit => EntityBodyModel::Unit,
            EntityBody::Enumeration => EntityBodyModel::Enumeration,
            EntityBody::Union => EntityBodyModel::Union,
        }
    }
}

/// The raw input of compilation: the entity's name, its context type
/// identifier, the raw SQL source fragment (table or fragment identifier)
/// the entity maps to, and its body.
pub struct EntityDef {
    pub name: String,
    pub context: String,
    pub source: String,
    pub body: EntityBody,
}

/// Mathematical model of an [`EntityDef`].
pub ghost struct EntityDefModel {
    pub name: Seq<char>,
    pub context: Seq<char>,
    pub source: Seq<char>,
    pub body: EntityBodyModel,
}

impl View for EntityDef {
    type V = EntityDefModel;

    open spec fn view(&self) -> EntityDefModel {
        EntityDefModel {
            name: self.name@,
            context: self.context@,
            source: self.source@,
            body: self.body@,
        }
    }
}

/// A build-time rejection of a whole entity definition. The index names the
/// offending field, in declaration order.
#[derive(Clone, Copy, Debug, PartialEq, Eq, Structural)]
pub enum MalformedSchema {
    /// The definition is not a plain field-record.
    NotARecord,
    /// The field at `index` has no name.
    UnnamedField { index: usize },
    /// The field at `index` carries both `insert_only` and `update_only`.
    ConflictingTags { index: usize },
}

/// One classified field of a compiled schema.
pub struct FieldDescriptor {
    pub name: String,
    pub ty: String,
    pub policy: Policy,
}

/// Mathematical model of a [`FieldDescriptor`].
#[verifier::ext_equal]
pub ghost struct FieldModel {
    pub name: Seq<char>,
    pub ty: Seq<char>,
    pub policy: Policy,
}

impl View for FieldDescriptor {
    type V = FieldModel;

    open spec fn view(&self) -> FieldModel {
        FieldModel { name: self.name@, ty: self.ty@, policy: self.policy }
    }
}

impl DeepView for FieldDescriptor {
    type V = FieldModel;

    open spec fn deep_view(&self) -> FieldModel {
        self.view()
    }
}

impl FieldDescriptor {
    /// An owned copy; derived `Clone` would tell the verifier nothing.
    pub fn duplicate(&self) -> (r: FieldDescriptor)
        ensures
            r@ == self@,
    {
        FieldDescriptor { name: self.name.clone(), ty: self.ty.clone(), policy: self.policy }
    }
}

/// A compiled schema: the context type identifier, the SQL source fragment,
/// and the classified fields in declaration order.
pub struct Schema {
    pub context: String,
    pub source: String,
    pub fields: Vec<FieldDescriptor>,
}

/// Mathematical model of a [`Schema`].
pub ghost struct SchemaModel {
    pub context: Seq<char>,
    pub source: Seq<char>,
    pub fields: Seq<FieldModel>,
}

impl View for Schema {
    type V = SchemaModel;

    open spec fn view(&self) -> SchemaModel {
        SchemaModel {
            context: self.context@,
            source: self.source@,
            fields: self.fields.deep_view(),
        }
    }
}

/// A raw field that compilation accepts: it has a name and its tags do not
/// conflict.
pub open spec fn field_ok(f: RawFieldModel) -> bool {
    &&& f.name is Some
    &&& !tags_conflict(f.tags)
}

/// Every field of the record is acceptable.
pub open spec fn fields_ok(fs: Seq<RawFieldModel>) -> bool {
    forall|i: int| 0 <= i < fs.len() ==> field_ok(#[trigger] fs[i])
}

/// The classified descriptor of an acceptable raw field.
pub open spec fn field_model(f: RawFieldModel) -> FieldModel
    recommends
        f.name is Some,
{
    FieldModel { name: f.name->0, ty: f.ty, policy: classify_tags(f.tags) }
}

/// The classified descriptors of a whole record, in declaration order.
pub open spec fn compiled_fields(fs: Seq<RawFieldModel>) -> Seq<FieldModel> {
    fs.map_values(|f: RawFieldModel| field_model(f))
}

/// The diagnostic for one unacceptable raw field.
pub open spec fn field_error(f: RawFieldModel, i: int) -> MalformedSchema
    recommends
        !field_ok(f),
        0 <= i,
{
    if f.name is None {
        MalformedSchema::UnnamedField { index: i as usize }
    } else {
        MalformedSchema::ConflictingTags { index: i as usize }
    }
}

/// The diagnostic of the first unacceptable field at or after position `i`.
pub open spec fn first_error_from(fs: Seq<RawFieldModel>, i: int) -> MalformedSchema
    recommends
        0 <= i <= fs.len(),
        exists|j: int| i <= j < fs.len() && !field_ok(fs[j]),
    decreases fs.len() - i,
{
    if i < 0 || i >= fs.len() {
        arbitrary()
    } else if !field_ok(fs[i]) {
        field_error(fs[i], i)
    } else {
        first_error_from(fs, i + 1)
    }
}

/// While every field before `b` is acceptable, the first error at or after
/// `a` is the first error at or after `b`.
proof fn lemma_first_error_skip(fs: Seq<RawFieldModel>, a: int, b: int)
    requires
        0 <= a <= b <= fs.len(),
        forall|j: int| a <= j < b ==> field_ok(#[trigger] fs[j]),
    ensures
        first_error_from(fs, a) == first_error_from(fs, b),
    decreases b - a,
{
    if a < b {
        lemma_first_error_skip(fs, a + 1, b);
    }
}

/// Compiles an entity definition into a schema.
///
/// Succeeds exactly when the definition is a plain field-record whose every
/// field has a name and carries no conflicting tags; each field is then
/// classified in declaration order. Otherwise the whole definition is
/// rejected with the diagnostic of the first offending field, and no partial
/// schema is produced.
pub fn compile(def: &EntityDef) -> (r: Result<Schema, MalformedSchema>)
    ensures
        match def@.body {
            EntityBodyModel::Record(fs) => {
                if fields_ok(fs) {
                    &&& r is Ok
                    &&& r->Ok_0@.context == def@.context
                    &&& r->Ok_0@.source == def@.source
                    &&& r->Ok_0@.fields == compiled_fields(fs)
                } else {
                    &&& r is Err
                    &&& r->Err_0 == first_error_from(fs, 0)
                }
            },
            _ => r == Result::<Schema, MalformedSchema>::Err(MalformedSchema::NotARecord),
        },
{
    match &def.body {
        EntityBody::Record(raw) => {
            let ghost ms = raw.deep_view();
            let mut out: Vec<FieldDescriptor> = Vec::new();
            let n = raw.len();
            for i in 0..n
                invariant
                    n == raw@.len(),
                    ms == raw.deep_view(),
                    def@.body == EntityBodyModel::Record(ms),
                    out@.len() == i,
                    forall|j: int| 0 <= j < i ==> field_ok(#[trigger] ms[j]),
                    forall|j: int| 0 <= j < i ==> #[trigger] out@[j]@ == field_model(ms[j]),
            {
                let f = &raw[i];
                proof {
                    assert(ms[i as int] == f@);
                }
                match &f.name {
                    None => {
                        proof {
                            assert(!field_ok(ms[i as int]));
                            lemma_first_error_skip(ms, 0, i as int);
                            assert(first_error_from(ms, i as int) == field_error(
                                ms[i as int],
                                i as int,
                            ));
                        }
                        return Err(MalformedSchema::UnnamedField { index: i });
                    },
                    Some(name) => {
                        if has_tag(&f.tags, Tag::InsertOnly) && has_tag(&f.tags, Tag::UpdateOnly) {
                            proof {
                                assert(tags_conflict(ms[i as int].tags));
                                assert(!field_ok(ms[i as int]));
                                lemma_first_error_skip(ms, 0, i as int);
                                assert(first_error_from(ms, i as int) == field_error(
                                    ms[i as int],
                                    i as int,
                                ));
                            }
                            return Err(MalformedSchema::ConflictingTags { index: i });
                        }
                        let policy = classify(&f.tags);
                        out.push(
                            FieldDescriptor { name: name.clone(), ty: f.ty.clone(), policy },
                        );
                    },
                }
            }
            let s = Schema {
                context: def.context.clone(),
                source: def.source.clone(),
                fields: out,
            };
            proof {
                assert(s@.fields =~= compiled_fields(ms));
            }
            Ok(s)
        },
        EntityBody::Tuple => Err(MalformedSchema::NotARecord),
        EntityBody::Unit => Err(MalformedSchema::NotARecord),
        EntityBody::Enumeration => Err(MalformedSchema::NotARecord),
        EntityBody::Union => Err(MalformedSchema::NotARecord),
    }
}

/// Which of the three row-shaped artifacts a projection is for.
#[derive(Clone, Copy, Debug, PartialEq, Eq, Structural)]
pub enum RowKind {
    /// Required values for every insertable field.
    Insert,
    /// Optional values for every updatable field.
    Update,
    /// Optional values for every field, for dynamic predicates.
    Filter,
}

/// A field belongs to the single-field patch artifact unless its policy is
/// `Locked` or `InsertOnly`.
pub open spec fn patch_included(p: Policy) -> bool {
    p != Policy::Locked && p != Policy::InsertOnly
}

/// Which fields a row artifact of the given kind includes: the insert row
/// excludes `Locked` and `UpdateOnly`, the update row excludes `Locked` and
/// `InsertOnly`, and the filter row mirrors the full field set.
pub open spec fn row_included(kind: RowKind, p: Policy) -> bool {
    match kind {
        RowKind::Insert => p != Policy::Locked && p != Policy::UpdateOnly,
        RowKind::Update => p != Policy::Locked && p != Policy::InsertOnly,
        RowKind::Filter => true,
    }
}

/// The names of a field sequence, in order.
pub open spec fn field_names(fields: Seq<FieldModel>) -> Seq<Seq<char>> {
    fields.map_values(|f: FieldModel| f.name)
}

/// The patch-inclusion predicate, as a function value shared by
/// [`patch_fields`] and the lemmas about it.
pub open spec fn patch_pred() -> spec_fn(FieldModel) -> bool {
    |f: FieldModel| patch_included(f.policy)
}

/// The subsequence of fields the patch artifact covers.
pub open spec fn patch_fields(fields: Seq<FieldModel>) -> Seq<FieldModel> {
    fields.filter(patch_pred())
}

/// The row-inclusion predicate of the given kind, as a function value shared
/// by [`row_fields`] and the lemmas about it.
pub open spec fn row_pred(kind: RowKind) -> spec_fn(FieldModel) -> bool {
    |f: FieldModel| row_included(kind, f.policy)
}

/// The subsequence of fields a row artifact of the given kind covers.
pub open spec fn row_fields(fields: Seq<FieldModel>, kind: RowKind) -> Seq<FieldModel> {
    fields.filter(row_pred(kind))
}

/// One step of filtering a growing prefix: filtering `i + 1` elements is
/// filtering `i` of them, plus the element at `i` when the predicate holds.
proof fn lemma_filter_take_succ<A>(s: Seq<A>, i: int, pred: spec_fn(A) -> bool)
    requires
        0 <= i < s.len(),
    ensures
        s.take(i + 1).filter(pred) == if pred(s[i]) {
            s.take(i).filter(pred).push(s[i])
        } else {
            s.take(i).filter(pred)
        },
{
    s.lemma_take_succ_push(i);
    s.take(i).lemma_filter_push(s[i], pred);
}

/// The names of a descriptor list, in order.
pub fn names_of(fields: &Vec<FieldDescriptor>) -> (r: Vec<String>)
    ensures
        r.deep_view() == field_names(fields.deep_view()),
{
    let mut out: Vec<String> = Vec::new();
    let n = fields.len();
    for i in 0..n
        invariant
            n == fields@.len(),
            out@.len() == i,
            forall|j: int| 0 <= j < i ==> (#[trigger] out@[j])@ == fields.deep_view()[j].name,
    {
        out.push(fields[i].name.clone());
    }
    proof {
        assert(out.deep_view() =~= field_names(fields.deep_view()));
    }
    out
}

/// Whether a field with policy `p` belongs to a row artifact of kind `kind`.
pub fn row_includes(kind: RowKind, p: Policy) -> (b: bool)
    ensures
        b == row_included(kind, p),
{
    match kind {
        RowKind::Insert => p != Policy::Locked && p != Policy::UpdateOnly,
        RowKind::Update => p != Policy::Locked && p != Policy::InsertOnly,
        RowKind::Filter => true,
    }
}

impl Schema {
    /// The raw SQL source fragment this schema maps to.
    pub fn schema_source(&self) -> (r: String)
        ensures
            r@ == self@.source,
    {
        self.source.clone()
    }

    /// The column-enumerator projection: every column name, regardless of
    /// policy, in declaration order.
    pub fn to_fields(&self) -> (r: Vec<String>)
        ensures
            r.deep_view() == field_names(self@.fields),
    {
        names_of(&self.fields)
    }

    /// The patch projection: the descriptors of every field the single-field
    /// patch artifact covers, in declaration order.
    pub fn to_patches(&self) -> (r: Vec<FieldDescriptor>)
        ensures
            r.deep_view() == patch_fields(self@.fields),
    {
        let mut out: Vec<FieldDescriptor> = Vec::new();
        let n = self.fields.len();
        for i in 0..n
            invariant
                n == self.fields@.len(),
                out.deep_view() == patch_fields(self.fields.deep_view().take(i as int)),
        {
            let ghost ms = self.fields.deep_view();
            let f = &self.fields[i];
            if f.policy != Policy::Locked && f.policy != Policy::InsertOnly {
                out.push(f.duplicate());
                proof {
                    lemma_filter_take_succ(ms, i as int, patch_pred());
                    assert(out.deep_view() =~= ms.take(i as int + 1).filter(patch_pred()));
                }
            } else {
                proof {
                    lemma_filter_take_succ(ms, i as int, patch_pred());
                }
            }
        }
        proof {
            assert(self.fields.deep_view().take(n as int) =~= self@.fields);
        }
        out
    }

    /// The row projection of the given kind: the descriptors of every field
    /// the artifact includes, in declaration order.
    pub fn to_row(&self, kind: RowKind) -> (r: Vec<FieldDescriptor>)
        ensures
            r.deep_view() == row_fields(self@.fields, kind),
    {
        let mut out: Vec<FieldDescriptor> = Vec::new();
        let n = self.fields.len();
        for i in 0..n
            invariant
                n == self.fields@.len(),
                out.deep_view() == row_fields(self.fields.deep_view().take(i as int), kind),
        {
            let ghost ms = self.fields.deep_view();
            let f = &self.fields[i];
            if row_includes(kind, f.policy) {
                out.push(f.duplicate());
                proof {
                    lemma_filter_take_succ(ms, i as int, row_pred(kind));
                    assert(out.deep_view() =~= ms.take(i as int + 1).filter(row_pred(kind)));
                }
            } else {
                proof {
                    lemma_filter_take_succ(ms, i as int, row_pred(kind));
                }
            }
        }
        proof {
            assert(self.fields.deep_view().take(n as int) =~= self@.fields);
        }
        out
    }
}

/// Classifies a tag list into its policy.
pub fn classify(tags: &Vec<Tag>) -> (p: Policy)
    ensures
        p == classify_tags(tags@),
{
    if has_tag(tags, Tag::Locked) || has_tag(tags, Tag::FromContext) || has_tag(
        tags,
        Tag::GeneratedOnCreate,
    ) {
        Policy::Locked
    } else if has_tag(tags, Tag::InsertOnly) {
        Policy::InsertOnly
    } else if has_tag(tags, Tag::UpdateOnly) {
        Policy::UpdateOnly
    } else {
        Policy::Mutable
    }
}

} // verus!
