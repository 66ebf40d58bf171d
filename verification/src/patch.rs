//! The single-field patch artifact.
//!
//! A [`PatchField`] carries exactly one column and one value, for a partial
//! update of that column alone. It can only be obtained through
//! [`Schema::patch_field`], which refuses every column whose policy is
//! `Locked` or `InsertOnly`; the exclusion is structural, not a runtime
//! check inside the artifact.

use vstd::prelude::*;

use crate::fragment::{BindSink, Fragment, ToSqlParts, BindArgs, Value, ValueModel};
use crate::schema::{Policy, Schema, patch_included};

verus! {

/// One column-and-value pair for a single-column update.
pub struct PatchField {
    name: String,
    value: Value,
}

impl PatchField {
    /// The column name this patch sets.
    pub closed spec fn name_model(&self) -> Seq<char> {
        self.name@
    }

    /// The value this patch binds.
    pub closed spec fn value_model(&self) -> ValueModel {
        self.value@
    }

    /// Renders the patch: its bare column name.
    pub fn render(&self) -> (r: String)
        ensures
            r@ == self.name_model(),
    {
        self.name.clone()
    }
}

impl Schema {
    /// The patch artifact for the column at `i` and the given value.
    ///
    /// Succeeds exactly when `i` names a column whose policy is neither
    /// `Locked` nor `InsertOnly`.
    pub fn patch_field(&self, i: usize, value: Value) -> (r: Option<PatchField>)
        ensures
            match r {
                Some(p) => {
                    &&& i < self@.fields.len()
                    &&& patch_included(self@.fields[i as int].policy)
                    &&& p.name_model() == self@.fields[i as int].name
                    &&& p.value_model() == value@
                },
                None => i >= self@.fields.len() || !patch_included(
                    self@.fields[i as int].policy,
                ),
            },
    {
        if i < self.fields.len() {
            let f = &self.fields[i];
            if f.policy != Policy::Locked && f.policy != Policy::InsertOnly {
                Some(PatchField { name: f.name.clone(), value })
            } else {
                None
            }
        } else {
            None
        }
    }
}

impl ToSqlParts for PatchField {
    open spec fn sql_wf(&self) -> bool {
        true
    }

    open spec fn frag_cols(&self) -> Seq<Seq<char>> {
        seq![self.name_model()]
    }

    open spec fn frag_idxs(&self) -> Option<Seq<int>> {
        None
    }

    fn to_sql_parts(&self) -> (r: Fragment) {
        let mut tokens: Vec<String> = Vec::new();
        tokens.push(self.render());
        proof {
            assert(tokens.deep_view() =~= seq![self.name_model()]);
        }
        Fragment { tokens, placeholders: None }
    }
}

impl BindArgs for PatchField {
    open spec fn bind_model(&self) -> Seq<ValueModel> {
        seq![self.value_model()]
    }

    fn bind(&self, args: &mut BindSink) {
        args.add(self.value.duplicate());
        proof {
            assert(args@ =~= old(args)@ + self.bind_model());
        }
    }

    fn bind_len(&self) -> (n: usize) {
        1
    }

    proof fn lemma_parts_match_binds(&self) {
    }
}

} // verus!
