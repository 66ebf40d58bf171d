//! The column-enumerator artifact.
//!
//! A [`Field`] identifies columns rather than data: the synthetic `All`
//! selector covers every column of its schema and renders to the
//! comma-joined column list in declaration order; a single-column selector
//! renders to its own bare name. The artifact carries no values, so its bind
//! sequence is always empty.

use vstd::prelude::*;
use vstd::string::StringExecFns;

use crate::fragment::{BindSink, Fragment, ToSqlParts, BindArgs, ValueModel};
use crate::schema::{Schema, field_names};

verus! {

/// The separator between joined column names.
pub open spec fn comma_sep() -> Seq<char> {
    seq![',', ' ']
}

/// The comma-joined rendering of a name list, in order.
pub open spec fn comma_join(names: Seq<Seq<char>>) -> Seq<char>
    decreases names.len(),
{
    if names.len() == 0 {
        Seq::empty()
    } else if names.len() == 1 {
        names[0]
    } else {
        comma_join(names.drop_last()) + comma_sep() + names.last()
    }
}

/// Joining one more name appends a separator first, except to an empty list.
proof fn lemma_comma_join_push(names: Seq<Seq<char>>, x: Seq<char>)
    ensures
        comma_join(names.push(x)) == if names.len() == 0 {
            x
        } else {
            comma_join(names) + comma_sep() + x
        },
{
    let p = names.push(x);
    assert(p.drop_last() =~= names);
    assert(p.last() == x);
    if names.len() == 0 {
        assert(p[0] == x);
    }
}

/// Joins a name list with `", "`.
pub fn comma_join_strings(names: &Vec<String>) -> (r: String)
    ensures
        r@ == comma_join(names.deep_view()),
{
    let ghost nm = names.deep_view();
    let mut out = String::new();
    let n = names.len();
    for i in 0..n
        invariant
            n == names@.len(),
            nm == names.deep_view(),
            out@ == comma_join(nm.take(i as int)),
    {
        if i > 0 {
            out.append(", ");
        }
        out.append(names[i].as_str());
        proof {
            reveal_strlit(", ");
            nm.lemma_take_succ_push(i as int);
            lemma_comma_join_push(nm.take(i as int), nm[i as int]);
            assert(out@ =~= comma_join(nm.take(i as int + 1)));
        }
    }
    proof {
        assert(nm.take(n as int) =~= nm);
    }
    out
}

/// A column selector: the synthetic `All` covering every column of its
/// schema, or one named column.
pub enum Field {
    All { cols: Vec<String> },
    Col { name: String },
}

impl Field {
    /// What the selector renders to: the comma-joined column list for
    /// `All`, the bare column name otherwise.
    pub open spec fn render_model(&self) -> Seq<char> {
        match self {
            Field::All { cols } => comma_join(cols.deep_view()),
            Field::Col { name } => name@,
        }
    }

    /// Renders the selector.
    pub fn render(&self) -> (r: String)
        ensures
            r@ == self.render_model(),
    {
        match self {
            Field::All { cols } => comma_join_strings(cols),
            Field::Col { name } => name.clone(),
        }
    }
}

impl Schema {
    /// The `All` selector of this schema: it covers every column,
    /// regardless of policy, in declaration order.
    pub fn field_all(&self) -> (f: Field)
        ensures
            (f matches Field::All { cols } && cols.deep_view() == field_names(self@.fields)),
    {
        Field::All { cols: self.to_fields() }
    }

    /// The selector of the single column at `i`, if there is one.
    pub fn field_col(&self, i: usize) -> (r: Option<Field>)
        ensures
            match r {
                Some(f) => {
                    &&& i < self@.fields.len()
                    &&& (f matches Field::Col { name } && name@ == self@.fields[i as int].name)
                },
                None => i >= self@.fields.len(),
            },
    {
        if i < self.fields.len() {
            Some(Field::Col { name: self.fields[i].name.clone() })
        } else {
            None
        }
    }
}

impl ToSqlParts for Field {
    open spec fn sql_wf(&self) -> bool {
        true
    }

    open spec fn frag_cols(&self) -> Seq<Seq<char>> {
        seq![self.render_model()]
    }

    open spec fn frag_idxs(&self) -> Option<Seq<int>> {
        None
    }

    fn to_sql_parts(&self) -> (r: Fragment) {
        let mut tokens: Vec<String> = Vec::new();
        tokens.push(self.render());
        proof {
            assert(tokens.deep_view() =~= seq![self.render_model()]);
        }
        Fragment { tokens, placeholders: None }
    }
}

impl BindArgs for Field {
    open spec fn bind_model(&self) -> Seq<ValueModel> {
        Seq::empty()
    }

    fn bind(&self, args: &mut BindSink) {
        proof {
            assert(args@ + self.bind_model() =~= args@);
        }
    }

    fn bind_len(&self) -> (n: usize) {
        0
    }

    proof fn lemma_parts_match_binds(&self) {
    }
}

} // verus!
