//! The laws the derived artifacts obey, stated over the same models the
//! artifacts' own contracts use.

use vstd::prelude::*;

use crate::field::{Field, comma_join};
use crate::fragment::{BindArgs, ToSqlParts, ValueModel, strictly_increasing};
use crate::rows::{InsertRow, Row, UpdateRow, present_values};
use crate::schema::{
    RowKind, Schema, field_names, patch_fields, patch_included, patch_pred, row_fields,
    row_included, row_pred,
};

verus! {

/// Two pointwise-equal predicates filter a sequence to the same
/// subsequence.
proof fn lemma_filter_ext<A>(s: Seq<A>, p: spec_fn(A) -> bool, q: spec_fn(A) -> bool)
    requires
        forall|x: A| #[trigger] p(x) == q(x),
    ensures
        s.filter(p) == s.filter(q),
    decreases s.len(),
{
    reveal(Seq::filter);
    if s.len() != 0 {
        lemma_filter_ext(s.drop_last(), p, q);
    }
}

/// The `All` selector of a schema renders to the comma-joined names of
/// every column of that schema, in declaration order.
pub proof fn lemma_all_renders_every_column(s: &Schema, f: &Field)
    requires
        (f matches Field::All { cols } && cols.deep_view() == field_names(s@.fields)),
    ensures
        f.render_model() == comma_join(field_names(s@.fields)),
{
}

/// A column belongs to the patch projection exactly when its policy is
/// neither `Locked` nor `InsertOnly`.
pub proof fn lemma_patch_field_set(s: &Schema, i: int)
    requires
        0 <= i < s@.fields.len(),
    ensures
        patch_fields(s@.fields).contains(s@.fields[i]) <==> patch_included(s@.fields[i].policy),
{
    let fields = s@.fields;
    let e = fields[i];
    if patch_included(e.policy) {
        fields.lemma_filter_contains(patch_pred(), i);
    }
    if patch_fields(fields).contains(e) {
        let j = choose|j: int| 0 <= j < patch_fields(fields).len() && patch_fields(fields)[j] == e;
        fields.lemma_filter_pred(patch_pred(), j);
    }
}

/// The patch projection covers exactly the columns of the update row.
pub proof fn lemma_patch_equals_update_fields(s: &Schema)
    ensures
        patch_fields(s@.fields) == row_fields(s@.fields, RowKind::Update),
{
    lemma_filter_ext(s@.fields, patch_pred(), row_pred(RowKind::Update));
}

/// A column belongs to a row projection exactly when the kind's policy
/// predicate admits it: the insert row excludes `Locked` and `UpdateOnly`,
/// the update row excludes `Locked` and `InsertOnly`, and the filter row
/// includes every column.
pub proof fn lemma_row_field_set(s: &Schema, kind: RowKind, i: int)
    requires
        0 <= i < s@.fields.len(),
    ensures
        row_fields(s@.fields, kind).contains(s@.fields[i]) <==> row_included(
            kind,
            s@.fields[i].policy,
        ),
{
    let fields = s@.fields;
    let e = fields[i];
    if row_included(kind, e.policy) {
        fields.lemma_filter_contains(row_pred(kind), i);
    }
    if row_fields(fields, kind).contains(e) {
        let j = choose|j: int|
            0 <= j < row_fields(fields, kind).len() && row_fields(fields, kind)[j] == e;
        fields.lemma_filter_pred(row_pred(kind), j);
    }
}

/// The bind length of an insert row is fixed by its schema alone: every
/// instance binds one value per insertable column, whatever the values.
pub proof fn lemma_insert_bind_len_fixed(s: &Schema, r1: &InsertRow, r2: &InsertRow)
    requires
        r1.sql_wf(),
        r2.sql_wf(),
        r1.cols_model() == field_names(row_fields(s@.fields, RowKind::Insert)),
        r2.cols_model() == field_names(row_fields(s@.fields, RowKind::Insert)),
    ensures
        r1.bind_model().len() == row_fields(s@.fields, RowKind::Insert).len(),
        r1.bind_model().len() == r2.bind_model().len(),
{
}

/// An insert row emits one placeholder per column, numbered densely from 1
/// in declaration order, and binds its values in that same declaration
/// order.
pub proof fn lemma_insert_row_dense_placeholders(r: &InsertRow)
    requires
        r.sql_wf(),
    ensures
        r.frag_idxs() is Some,
        r.frag_idxs()->0.len() == r.bind_model().len(),
        strictly_increasing(r.frag_idxs()->0),
        forall|j: int| 0 <= j < r.frag_idxs()->0.len() ==> r.frag_idxs()->0[j] == j + 1,
        r.frag_cols() == r.cols_model(),
        r.bind_model() == r.values_model(),
{
}

/// An update row emits exactly one placeholder per present value, numbered
/// densely from 1, strictly increasing in declaration order, and binds
/// exactly the present values in that order.
pub proof fn lemma_update_row_dense_placeholders(u: &UpdateRow)
    requires
        u.sql_wf(),
    ensures
        u.frag_idxs() is Some,
        u.frag_idxs()->0.len() == u.bind_model().len(),
        strictly_increasing(u.frag_idxs()->0),
        forall|j: int| 0 <= j < u.frag_idxs()->0.len() ==> u.frag_idxs()->0[j] == j + 1,
        u.bind_model() == present_values(u.values_model()),
{
}

/// The same dense numbering law for the filter row.
pub proof fn lemma_filter_row_dense_placeholders(w: &Row)
    requires
        w.sql_wf(),
    ensures
        w.frag_idxs() is Some,
        w.frag_idxs()->0.len() == w.bind_model().len(),
        strictly_increasing(w.frag_idxs()->0),
        forall|j: int| 0 <= j < w.frag_idxs()->0.len() ==> w.frag_idxs()->0[j] == j + 1,
        w.bind_model() == present_values(w.values_model()),
{
}

/// The values of a bind sequence, laid out at their placeholder positions.
pub open spec fn placed(idxs: Seq<int>, vals: Seq<ValueModel>) -> Map<int, ValueModel>
    recommends
        idxs.len() == vals.len(),
    decreases idxs.len(),
{
    if idxs.len() == 0 {
        Map::empty()
    } else {
        placed(idxs.drop_last(), vals.drop_last()).insert(idxs.last(), vals.last())
    }
}

/// Binding a bind sequence into the positions of its strictly increasing
/// placeholder list reconstructs the same values at the same ranks: the
/// value found at the `j`-th placeholder position is the `j`-th bound
/// value, so no reordering can occur.
pub proof fn lemma_round_trip(idxs: Seq<int>, vals: Seq<ValueModel>)
    requires
        idxs.len() == vals.len(),
        strictly_increasing(idxs),
    ensures
        forall|j: int|
            0 <= j < idxs.len() ==> placed(idxs, vals).contains_key(#[trigger] idxs[j])
                && placed(idxs, vals)[idxs[j]] == vals[j],
    decreases idxs.len(),
{
    if idxs.len() > 0 {
        let m = idxs.len() - 1;
        assert(strictly_increasing(idxs.drop_last())) by {
            assert(forall|a: int, b: int|
                0 <= a < b < m ==> idxs.drop_last()[a] == idxs[a] && idxs.drop_last()[b]
                    == idxs[b]);
        }
        lemma_round_trip(idxs.drop_last(), vals.drop_last());
        assert forall|j: int|
            0 <= j < idxs.len() implies placed(idxs, vals).contains_key(#[trigger] idxs[j])
            && placed(idxs, vals)[idxs[j]] == vals[j] by {
            if j < m {
                assert(idxs[j] < idxs[m]);
                assert(idxs.drop_last()[j] == idxs[j]);
                assert(vals.drop_last()[j] == vals[j]);
            }
        }
    }
}

/// The round trip holds of every artifact that numbers its own
/// placeholders, via the fragment/bind contract.
pub proof fn lemma_artifact_round_trip<A: BindArgs>(a: &A)
    requires
        a.sql_wf(),
        a.frag_idxs() is Some,
    ensures
        a.frag_idxs()->0.len() == a.bind_model().len(),
        forall|j: int|
            0 <= j < a.frag_idxs()->0.len() ==> placed(a.frag_idxs()->0, a.bind_model())[
                a.frag_idxs()->0[j]
            ] == a.bind_model()[j],
{
    a.lemma_parts_match_binds();
    lemma_round_trip(a.frag_idxs()->0, a.bind_model());
}

} // verus!
