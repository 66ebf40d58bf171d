//! The fragment-and-bind contract every derived artifact implements.
//!
//! A [`Fragment`] is SQL text tokens plus an optional ordered list of
//! positional placeholder tokens; a [`BindSink`] receives the concrete values
//! an artifact binds, one at a time, in call order. The [`ToSqlParts`] and
//! [`BindArgs`] traits tie the two together: the placeholder list an artifact
//! emits and the value sequence it binds must have the same length and the
//! same left-to-right order.

use vstd::prelude::*;
use vstd::string::StringExecFns;

verus! {

/// A concrete value an artifact binds into a prepared statement.
#[derive(Clone, Debug, PartialEq, Eq)]
pub enum Value {
    Int(i64),
    Text(String),
    Boolean(bool),
    Null,
}

/// Mathematical model of a [`Value`].
pub ghost enum ValueModel {
    Int(i64),
    Text(Seq<char>),
    Boolean(bool),
    Null,
}

impl View for Value {
    type V = ValueModel;

    open spec fn view(&self) -> ValueModel {
        match self {
            Value::Int(x) => ValueModel::Int(*x),
            Value::Text(s) => ValueModel::Text(s@),
            Value::Boolean(b) => ValueModel::Boolean(*b),
            Value::Null => ValueModel::Null,
        }
    }
}

impl DeepView for Value {
    type V = ValueModel;

    open spec fn deep_view(&self) -> ValueModel {
        self.view()
    }
}

impl Value {
    /// An owned copy; derived `Clone` would tell the verifier nothing.
    pub fn duplicate(&self) -> (r: Value)
        ensures
            r@ == self@,
    {
        match self {
            Value::Int(x) => Value::Int(*x),
            Value::Text(s) => Value::Text(s.clone()),
            Value::Boolean(b) => Value::Boolean(*b),
            Value::Null => Value::Null,
        }
    }
}

/// A value-binding sink: it accepts one value at a time and keeps them in
/// call order, standing in for the argument buffer of a prepared statement.
pub struct BindSink {
    pub values: Vec<Value>,
}

impl View for BindSink {
    type V = Seq<ValueModel>;

    open spec fn view(&self) -> Seq<ValueModel> {
        self.values.deep_view()
    }
}

impl BindSink {
    /// An empty sink.
    pub fn new() -> (s: BindSink)
        ensures
            s@ == Seq::<ValueModel>::empty(),
    {
        let s = BindSink { values: Vec::new() };
        proof {
            assert(s@ =~= Seq::<ValueModel>::empty());
        }
        s
    }

    /// Appends one value.
    pub fn add(&mut self, v: Value)
        ensures
            final(self)@ == old(self)@.push(v@),
    {
        self.values.push(v);
        proof {
            assert(self@ =~= old(self)@.push(v@));
        }
    }

    /// How many values have been bound.
    pub fn len(&self) -> (n: usize)
        ensures
            n == self@.len(),
    {
        self.values.len()
    }
}

/// The decimal digit character of `d`.
pub open spec fn digit_char(d: int) -> char
    recommends
        0 <= d < 10,
{
    if d == 0 {
        '0'
    } else if d == 1 {
        '1'
    } else if d == 2 {
        '2'
    } else if d == 3 {
        '3'
    } else if d == 4 {
        '4'
    } else if d == 5 {
        '5'
    } else if d == 6 {
        '6'
    } else if d == 7 {
        '7'
    } else if d == 8 {
        '8'
    } else {
        '9'
    }
}

/// The decimal digits of `n`, most significant first.
pub open spec fn dec_digits(n: int) -> Seq<char>
    recommends
        0 <= n,
    decreases n,
{
    if n < 10 {
        seq![digit_char(n)]
    } else {
        dec_digits(n / 10).push(digit_char(n % 10))
    }
}

/// The positional placeholder token for position `n`: a dollar sign followed
/// by the decimal digits of `n`.
pub open spec fn placeholder_chars(n: int) -> Seq<char> {
    seq!['$'] + dec_digits(n)
}

/// Appends the decimal digits of `n`.
fn push_decimal(out: &mut String, n: usize)
    ensures
        final(out)@ == old(out)@ + dec_digits(n as int),
    decreases n,
{
    if n >= 10 {
        push_decimal(out, n / 10);
    }
    let d = n % 10;
    let s: &str = if d == 0 {
        "0"
    } else if d == 1 {
        "1"
    } else if d == 2 {
        "2"
    } else if d == 3 {
        "3"
    } else if d == 4 {
        "4"
    } else if d == 5 {
        "5"
    } else if d == 6 {
        "6"
    } else if d == 7 {
        "7"
    } else if d == 8 {
        "8"
    } else {
        "9"
    };
    proof {
        reveal_strlit("0");
        reveal_strlit("1");
        reveal_strlit("2");
        reveal_strlit("3");
        reveal_strlit("4");
        reveal_strlit("5");
        reveal_strlit("6");
        reveal_strlit("7");
        reveal_strlit("8");
        reveal_strlit("9");
        assert(s@ =~= seq![digit_char(d as int)]);
    }
    out.append(s);
    proof {
        assert(out@ =~= old(out)@ + dec_digits(n as int));
    }
}

/// Renders the positional placeholder token `$n`.
pub fn placeholder(n: usize) -> (r: String)
    ensures
        r@ == placeholder_chars(n as int),
{
    let mut out = String::from_str("$");
    proof {
        reveal_strlit("$");
        assert(out@ =~= seq!['$']);
    }
    push_decimal(&mut out, n);
    proof {
        assert(out@ =~= placeholder_chars(n as int));
    }
    out
}

/// The dense index run `base, base + 1, ..., base + m - 1`.
pub open spec fn dense_idxs(base: int, m: int) -> Seq<int> {
    Seq::new(m as nat, |j: int| base + j)
}

/// The placeholder tokens of an index sequence.
pub open spec fn placeholder_tokens(idxs: Seq<int>) -> Seq<Seq<char>> {
    idxs.map_values(|k: int| placeholder_chars(k))
}

/// The placeholder-token list of an optional index sequence.
pub open spec fn placeholders_of(idxs: Option<Seq<int>>) -> Option<Seq<Seq<char>>> {
    match idxs {
        Some(s) => Some(placeholder_tokens(s)),
        None => None,
    }
}

/// An index sequence is strictly increasing.
pub open spec fn strictly_increasing(s: Seq<int>) -> bool {
    forall|a: int, b: int| 0 <= a < b < s.len() ==> s[a] < s[b]
}

/// An ordered pair of SQL text tokens and, where the artifact numbers its
/// own placeholders, the placeholder tokens in emission order.
pub struct Fragment {
    pub tokens: Vec<String>,
    pub placeholders: Option<Vec<String>>,
}

/// What SQL text an artifact emits. The model spec functions pin down, per
/// implementing type, which column tokens come out and which placeholder
/// indices accompany them.
pub trait ToSqlParts {
    /// The artifact is internally consistent.
    spec fn sql_wf(&self) -> bool;

    /// The column tokens the artifact emits, in order.
    spec fn frag_cols(&self) -> Seq<Seq<char>>;

    /// The placeholder indices the artifact emits, in order, where it
    /// numbers its own placeholders.
    spec fn frag_idxs(&self) -> Option<Seq<int>>;

    /// Emits the fragment: exactly the modelled column tokens, and exactly
    /// the placeholder tokens of the modelled indices.
    fn to_sql_parts(&self) -> (r: Fragment)
        requires
            self.sql_wf(),
        ensures
            r.tokens.deep_view() == self.frag_cols(),
            r.placeholders.deep_view() == placeholders_of(self.frag_idxs()),
    ;
}

/// What values an artifact binds, and in what order.
pub trait BindArgs: ToSqlParts {
    /// The values the artifact binds, in binding order.
    spec fn bind_model(&self) -> Seq<ValueModel>;

    /// Binds exactly the modelled values, in order, after whatever the sink
    /// already holds.
    fn bind(&self, args: &mut BindSink)
        requires
            self.sql_wf(),
        ensures
            final(args)@ == old(args)@ + self.bind_model(),
    ;

    /// How many values [`BindArgs::bind`] will supply.
    fn bind_len(&self) -> (n: usize)
        requires
            self.sql_wf(),
        ensures
            n == self.bind_model().len(),
    ;

    /// The fragment/bind contract: where the artifact numbers its own
    /// placeholders, it emits exactly one placeholder per bound value, with
    /// strictly increasing indices in emission order.
    proof fn lemma_parts_match_binds(&self)
        requires
            self.sql_wf(),
        ensures
            match self.frag_idxs() {
                Some(idxs) => {
                    &&& idxs.len() == self.bind_model().len()
                    &&& strictly_increasing(idxs)
                },
                None => true,
            },
    ;
}

} // verus!
