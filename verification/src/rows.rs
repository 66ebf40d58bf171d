//! The row-shaped artifacts: insert row, update row and filter row.
//!
//! An [`InsertRow`] carries one required value per insertable column and
//! numbers its placeholders densely from 1 in declaration order. An
//! [`UpdateRow`] carries one optional value per updatable column; absence
//! means "leave unchanged", and the placeholder counter advances only past
//! present columns, so numbering stays dense and gap-free with respect to
//! the bind sequence. A [`Row`] mirrors the full column set as an
//! all-optional filter with the same dense numbering, starting from a
//! caller-supplied base position.

use vstd::prelude::*;

use crate::fragment::{BindSink, Fragment, ToSqlParts, BindArgs, Value, ValueModel, dense_idxs,
    placeholder, placeholder_chars, placeholder_tokens};
use crate::schema::{RowKind, Schema, field_names, names_of, row_fields};

verus! {

/// The values present in an optional-value list, in declaration order.
pub open spec fn present_values(vs: Seq<Option<ValueModel>>) -> Seq<ValueModel>
    decreases vs.len(),
{
    if vs.len() == 0 {
        Seq::empty()
    } else {
        let rest = present_values(vs.drop_last());
        if vs.last() is Some {
            rest.push(vs.last()->0)
        } else {
            rest
        }
    }
}

/// The column tokens whose values are present, in declaration order.
pub open spec fn present_cols(cols: Seq<Seq<char>>, vs: Seq<Option<ValueModel>>) -> Seq<Seq<char>>
    recommends
        cols.len() == vs.len(),
    decreases vs.len(),
{
    if vs.len() == 0 {
        Seq::empty()
    } else {
        let rest = present_cols(cols.drop_last(), vs.drop_last());
        if vs.last() is Some {
            rest.push(cols[vs.len() - 1])
        } else {
            rest
        }
    }
}

/// One step of walking an optional-value list from the front.
proof fn lemma_present_values_take_succ(vs: Seq<Option<ValueModel>>, i: int)
    requires
        0 <= i < vs.len(),
    ensures
        present_values(vs.take(i + 1)) == if vs[i] is Some {
            present_values(vs.take(i)).push(vs[i]->0)
        } else {
            present_values(vs.take(i))
        },
{
    assert(vs.take(i + 1).drop_last() =~= vs.take(i));
    assert(vs.take(i + 1).last() == vs[i]);
}

/// The same step for the present column tokens.
proof fn lemma_present_cols_take_succ(cols: Seq<Seq<char>>, vs: Seq<Option<ValueModel>>, i: int)
    requires
        0 <= i < vs.len(),
        i < cols.len(),
    ensures
        present_cols(cols.take(i + 1), vs.take(i + 1)) == if vs[i] is Some {
            present_cols(cols.take(i), vs.take(i)).push(cols[i])
        } else {
            present_cols(cols.take(i), vs.take(i))
        },
{
    assert(vs.take(i + 1).drop_last() =~= vs.take(i));
    assert(cols.take(i + 1).drop_last() =~= cols.take(i));
    assert(vs.take(i + 1).last() == vs[i]);
    assert(cols.take(i + 1)[i] == cols[i]);
}

/// There are never more present values than values.
proof fn lemma_present_values_len(vs: Seq<Option<ValueModel>>)
    ensures
        present_values(vs).len() <= vs.len(),
    decreases vs.len(),
{
    if vs.len() > 0 {
        lemma_present_values_len(vs.drop_last());
    }
}

/// The insert-row artifact: one required value per insertable column, in
/// declaration order. Only [`Schema::insert_row`] constructs it, so the
/// excluded columns are structurally absent.
pub struct InsertRow {
    cols: Vec<String>,
    values: Vec<Value>,
}

impl InsertRow {
    /// The insertable column names, in declaration order.
    pub closed spec fn cols_model(&self) -> Seq<Seq<char>> {
        self.cols.deep_view()
    }

    /// The values, one per column, in the same order.
    pub closed spec fn values_model(&self) -> Seq<ValueModel> {
        self.values.deep_view()
    }
}

impl Schema {
    /// The insert-row artifact over the given values.
    ///
    /// Succeeds exactly when one value is supplied for each insertable
    /// column (those whose policy is neither `Locked` nor `UpdateOnly`);
    /// the values pair with those columns in declaration order.
    pub fn insert_row(&self, values: Vec<Value>) -> (r: Option<InsertRow>)
        ensures
            match r {
                Some(row) => {
                    &&& values@.len() == row_fields(self@.fields, RowKind::Insert).len()
                    &&& row.cols_model() == field_names(row_fields(self@.fields, RowKind::Insert))
                    &&& row.values_model() == values.deep_view()
                },
                None => values@.len() != row_fields(self@.fields, RowKind::Insert).len(),
            },
    {
        let flds = self.to_row(RowKind::Insert);
        if values.len() != flds.len() {
            return None;
        }
        let cols = names_of(&flds);
        Some(InsertRow { cols, values })
    }
}

impl ToSqlParts for InsertRow {
    open spec fn sql_wf(&self) -> bool {
        self.cols_model().len() == self.values_model().len()
    }

    open spec fn frag_cols(&self) -> Seq<Seq<char>> {
        self.cols_model()
    }

    open spec fn frag_idxs(&self) -> Option<Seq<int>> {
        Some(dense_idxs(1, self.values_model().len() as int))
    }

    fn to_sql_parts(&self) -> (r: Fragment) {
        let mut tokens: Vec<String> = Vec::new();
        let mut phs: Vec<String> = Vec::new();
        let n = self.cols.len();
        for i in 0..n
            invariant
                n == self.cols@.len(),
                n == self.cols_model().len(),
                tokens@.len() == i,
                phs@.len() == i,
                forall|j: int| 0 <= j < i ==> (#[trigger] tokens@[j])@ == self.cols_model()[j],
                forall|j: int|
                    0 <= j < i ==> (#[trigger] phs@[j])@ == placeholder_chars(
                        j + 1,
                    ),
        {
            tokens.push(self.cols[i].clone());
            phs.push(placeholder(i + 1));
        }
        proof {
            assert(tokens.deep_view() =~= self.frag_cols());
            assert(phs.deep_view() =~= placeholder_tokens(
                dense_idxs(1, self.values_model().len() as int),
            ));
        }
        Fragment { tokens, placeholders: Some(phs) }
    }
}

impl BindArgs for InsertRow {
    open spec fn bind_model(&self) -> Seq<ValueModel> {
        self.values_model()
    }

    fn bind(&self, args: &mut BindSink) {
        let n = self.values.len();
        for i in 0..n
            invariant
                n == self.values@.len(),
                args@ =~= old(args)@ + self.values_model().take(i as int),
        {
            args.add(self.values[i].duplicate());
            proof {
                self.values_model().lemma_take_succ_push(i as int);
                assert(args@ =~= old(args)@ + self.values_model().take(i as int + 1));
            }
        }
        proof {
            assert(self.values_model().take(n as int) =~= self.values_model());
        }
    }

    fn bind_len(&self) -> (n: usize) {
        self.values.len()
    }

    proof fn lemma_parts_match_binds(&self) {
    }
}

/// Emits the fragment of an optional-value row: one column token and one
/// placeholder per present value, walking the columns in declaration order
/// and numbering the placeholders densely from `base`.
fn optional_parts(cols: &Vec<String>, values: &Vec<Option<Value>>, base: usize) -> (r: Fragment)
    requires
        cols@.len() == values@.len(),
        1 <= base,
        base - 1 + values@.len() <= usize::MAX,
    ensures
        r.tokens.deep_view() == present_cols(cols.deep_view(), values.deep_view()),
        r.placeholders.deep_view() == Some(
            placeholder_tokens(
                dense_idxs(base as int, present_values(values.deep_view()).len() as int),
            ),
        ),
{
    let ghost cm = cols.deep_view();
    let ghost vm = values.deep_view();
    let mut tokens: Vec<String> = Vec::new();
    let mut phs: Vec<String> = Vec::new();
    let mut k: usize = 0;
    let n = cols.len();
    for i in 0..n
        invariant
            n == cols@.len(),
            n == values@.len(),
            cm == cols.deep_view(),
            vm == values.deep_view(),
            1 <= base,
            base - 1 + n <= usize::MAX,
            k <= i,
            k == present_values(vm.take(i as int)).len(),
            tokens.deep_view() =~= present_cols(cm.take(i as int), vm.take(i as int)),
            phs@.len() == k,
            forall|j: int|
                0 <= j < k ==> (#[trigger] phs@[j])@ == placeholder_chars(
                    base + j,
                ),
    {
        proof {
            lemma_present_values_take_succ(vm, i as int);
            lemma_present_cols_take_succ(cm, vm, i as int);
        }
        match &values[i] {
            Some(_) => {
                k = k + 1;
                tokens.push(cols[i].clone());
                phs.push(placeholder(base - 1 + k));
                proof {
                    assert(tokens.deep_view() =~= present_cols(
                        cm.take(i as int + 1),
                        vm.take(i as int + 1),
                    ));
                }
            },
            None => {
            },
        }
    }
    proof {
        assert(cm.take(n as int) =~= cm);
        assert(vm.take(n as int) =~= vm);
        assert(phs.deep_view() =~= placeholder_tokens(
            dense_idxs(base as int, present_values(vm).len() as int),
        ));
    }
    Fragment { tokens, placeholders: Some(phs) }
}

/// Binds the present values of an optional-value row, in declaration order.
fn optional_bind(values: &Vec<Option<Value>>, args: &mut BindSink)
    ensures
        final(args)@ == old(args)@ + present_values(values.deep_view()),
{
    let ghost vm = values.deep_view();
    let n = values.len();
    for i in 0..n
        invariant
            n == values@.len(),
            vm == values.deep_view(),
            args@ =~= old(args)@ + present_values(vm.take(i as int)),
    {
        proof {
            lemma_present_values_take_succ(vm, i as int);
        }
        match &values[i] {
            Some(v) => {
                args.add(v.duplicate());
                proof {
                    assert(args@ =~= old(args)@ + present_values(vm.take(i as int + 1)));
                }
            },
            None => {
            },
        }
    }
    proof {
        assert(vm.take(n as int) =~= vm);
    }
}

/// Counts the present values of an optional-value row.
fn optional_bind_len(values: &Vec<Option<Value>>) -> (n: usize)
    ensures
        n == present_values(values.deep_view()).len(),
{
    let ghost vm = values.deep_view();
    let mut k: usize = 0;
    let n = values.len();
    for i in 0..n
        invariant
            n == values@.len(),
            vm == values.deep_view(),
            k <= i,
            k == present_values(vm.take(i as int)).len(),
    {
        proof {
            lemma_present_values_take_succ(vm, i as int);
        }
        match &values[i] {
            Some(_) => {
                k = k + 1;
            },
            None => {
            },
        }
    }
    proof {
        assert(vm.take(n as int) =~= vm);
    }
    k
}

/// The update-row artifact: one optional value per updatable column, in
/// declaration order; absence means "leave unchanged". Only
/// [`Schema::update_row`] constructs it, so the excluded columns are
/// structurally absent.
pub struct UpdateRow {
    cols: Vec<String>,
    values: Vec<Option<Value>>,
}

impl UpdateRow {
    /// The updatable column names, in declaration order.
    pub closed spec fn cols_model(&self) -> Seq<Seq<char>> {
        self.cols.deep_view()
    }

    /// The optional values, one per column, in the same order.
    pub closed spec fn values_model(&self) -> Seq<Option<ValueModel>> {
        self.values.deep_view()
    }
}

impl Schema {
    /// The update-row artifact over the given optional values.
    ///
    /// Succeeds exactly when one optional value is supplied for each
    /// updatable column (those whose policy is neither `Locked` nor
    /// `InsertOnly`); the values pair with those columns in declaration
    /// order.
    pub fn update_row(&self, values: Vec<Option<Value>>) -> (r: Option<UpdateRow>)
        ensures
            match r {
                Some(row) => {
                    &&& values@.len() == row_fields(self@.fields, RowKind::Update).len()
                    &&& row.cols_model() == field_names(row_fields(self@.fields, RowKind::Update))
                    &&& row.values_model() == values.deep_view()
                },
                None => values@.len() != row_fields(self@.fields, RowKind::Update).len(),
            },
    {
        let flds = self.to_row(RowKind::Update);
        if values.len() != flds.len() {
            return None;
        }
        let cols = names_of(&flds);
        Some(UpdateRow { cols, values })
    }
}

impl ToSqlParts for UpdateRow {
    open spec fn sql_wf(&self) -> bool {
        self.cols_model().len() == self.values_model().len()
    }

    open spec fn frag_cols(&self) -> Seq<Seq<char>> {
        present_cols(self.cols_model(), self.values_model())
    }

    open spec fn frag_idxs(&self) -> Option<Seq<int>> {
        Some(dense_idxs(1, present_values(self.values_model()).len() as int))
    }

    fn to_sql_parts(&self) -> (r: Fragment) {
        let n = self.values.len();
        proof {
            lemma_present_values_len(self.values_model());
            assert(self.values_model().len() == n);
        }
        optional_parts(&self.cols, &self.values, 1)
    }
}

impl BindArgs for UpdateRow {
    open spec fn bind_model(&self) -> Seq<ValueModel> {
        present_values(self.values_model())
    }

    fn bind(&self, args: &mut BindSink) {
        optional_bind(&self.values, args);
    }

    fn bind_len(&self) -> (n: usize) {
        optional_bind_len(&self.values)
    }

    proof fn lemma_parts_match_binds(&self) {
    }
}

/// The filter-row artifact: one optional value per column of the full
/// field set, used to assemble dynamic predicate fragments. Numbering is
/// the same dense, present-only scheme as the update row, but the counter
/// may start at a caller-supplied base position; composing the base with
/// other fragments' placeholders is the caller's responsibility.
pub struct Row {
    cols: Vec<String>,
    values: Vec<Option<Value>>,
}

impl Row {
    /// The column names, in declaration order.
    pub closed spec fn cols_model(&self) -> Seq<Seq<char>> {
        self.cols.deep_view()
    }

    /// The optional values, one per column, in the same order.
    pub closed spec fn values_model(&self) -> Seq<Option<ValueModel>> {
        self.values.deep_view()
    }

    /// Emits the fragment with the placeholder counter starting at `base`
    /// instead of 1.
    pub fn to_sql_parts_from(&self, base: usize) -> (r: Fragment)
        requires
            self.sql_wf(),
            1 <= base,
            base - 1 + self.values_model().len() <= usize::MAX,
        ensures
            r.tokens.deep_view() == present_cols(self.cols_model(), self.values_model()),
            r.placeholders.deep_view() == Some(
                placeholder_tokens(
                    dense_idxs(base as int, present_values(self.values_model()).len() as int),
                ),
            ),
    {
        optional_parts(&self.cols, &self.values, base)
    }
}

impl Schema {
    /// The filter-row artifact over the given optional values.
    ///
    /// Succeeds exactly when one optional value is supplied for each column
    /// of the full field set, in declaration order.
    pub fn filter_row(&self, values: Vec<Option<Value>>) -> (r: Option<Row>)
        ensures
            match r {
                Some(row) => {
                    &&& values@.len() == row_fields(self@.fields, RowKind::Filter).len()
                    &&& row.cols_model() == field_names(row_fields(self@.fields, RowKind::Filter))
                    &&& row.values_model() == values.deep_view()
                },
                None => values@.len() != row_fields(self@.fields, RowKind::Filter).len(),
            },
    {
        let flds = self.to_row(RowKind::Filter);
        if values.len() != flds.len() {
            return None;
        }
        let cols = names_of(&flds);
        Some(Row { cols, values })
    }
}

impl ToSqlParts for Row {
    open spec fn sql_wf(&self) -> bool {
        self.cols_model().len() == self.values_model().len()
    }

    open spec fn frag_cols(&self) -> Seq<Seq<char>> {
        present_cols(self.cols_model(), self.values_model())
    }

    open spec fn frag_idxs(&self) -> Option<Seq<int>> {
        Some(dense_idxs(1, present_values(self.values_model()).len() as int))
    }

    fn to_sql_parts(&self) -> (r: Fragment) {
        let n = self.values.len();
        proof {
            lemma_present_values_len(self.values_model());
            assert(self.values_model().len() == n);
        }
        optional_parts(&self.cols, &self.values, 1)
    }
}

impl BindArgs for Row {
    open spec fn bind_model(&self) -> Seq<ValueModel> {
        present_values(self.values_model())
    }

    fn bind(&self, args: &mut BindSink) {
        optional_bind(&self.values, args);
    }

    fn bind_len(&self) -> (n: usize) {
        optional_bind_len(&self.values)
    }

    proof fn lemma_parts_match_binds(&self) {
    }
}

} // verus!
