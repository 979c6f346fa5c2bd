//! Arithmetic expressions over integers, labels, macro parameters and
//! expression-macro invocations, and their evaluation.

use crate::bigint::{trunc_div, Int};
use crate::ops::{def_name, MacroDefinition};
use vstd::prelude::*;

verus! {

broadcast use vstd::std_specs::vec::group_vec_axioms;

/// An invocation of an expression macro, with one argument per parameter.
#[derive(Debug)]
pub struct ExpressionMacroInvocation {
    pub name: String,
    pub parameters: Vec<Expression>,
}

/// An expression macro: a named expression over its parameters.
#[derive(Debug)]
pub struct ExpressionMacroDefinition {
    pub name: String,
    pub parameters: Vec<String>,
    pub content: Expression,
}

/// An arithmetic tree.
#[derive(Debug)]
pub enum Expression {
    Number(Int),
    Label(String),
    Variable(String),
    Macro(ExpressionMacroInvocation),
    Plus(Box<Expression>, Box<Expression>),
    Minus(Box<Expression>, Box<Expression>),
    Times(Box<Expression>, Box<Expression>),
    Divide(Box<Expression>, Box<Expression>),
    Negate(Box<Expression>),
}

/// Why an expression has no value.
#[derive(Debug, Clone)]
pub enum ExprError {
    /// A label that is not declared, or whose address is not known yet.
    UnknownLabel(String),
    /// An expression macro that is not defined.
    UnknownMacro(String),
    /// A variable that no enclosing macro binds.
    UndefinedVariable(String),
    /// A macro invoked with the wrong number of arguments.
    MacroArity(String),
    /// A division by zero.
    DivisionByZero,
    /// Macros that expand into each other too deeply.
    RecursionLimit,
}

/// A declared label and its address, once known.
#[derive(Debug, Clone)]
pub struct LabelEntry {
    pub name: String,
    pub address: Option<usize>,
}

/// The value of a macro parameter during evaluation.
#[derive(Debug)]
pub struct Binding {
    pub name: String,
    pub value: Int,
}

/// The entry of the first label named `name`: `Some(None)` for a label
/// declared without a known address.
pub open spec fn find_label(t: Seq<LabelEntry>, name: Seq<char>) -> Option<Option<usize>>
    decreases t.len(),
{
    if t.len() == 0 {
        None
    } else if t[0].name@ == name {
        Some(t[0].address)
    } else {
        find_label(t.subrange(1, t.len() as int), name)
    }
}

/// The index of the first macro named `name`.
pub open spec fn find_macro(t: Seq<MacroDefinition>, name: Seq<char>) -> Option<int>
    decreases t.len(),
{
    if t.len() == 0 {
        None
    } else if def_name(t[0]) == name {
        Some(0)
    } else {
        match find_macro(t.subrange(1, t.len() as int), name) {
            Some(i) => Some(i + 1),
            None => None,
        }
    }
}

/// The value bound to the first parameter named `name`.
pub open spec fn find_binding(env: Seq<(Seq<char>, int)>, name: Seq<char>) -> Option<int>
    decreases env.len(),
{
    if env.len() == 0 {
        None
    } else if env[0].0 == name {
        Some(env[0].1)
    } else {
        find_binding(env.subrange(1, env.len() as int), name)
    }
}

/// The parameter bindings as names and values.
pub open spec fn env_of(b: Seq<Binding>) -> Seq<(Seq<char>, int)> {
    b.map_values(|x: Binding| (x.name@, x.value@))
}

/// Binds each parameter name to the value at the same place.
pub open spec fn bind(names: Seq<String>, values: Seq<int>) -> Seq<(Seq<char>, int)> {
    Seq::new(names.len(), |i: int| (names[i]@, values[i]))
}

/// The result of an arithmetic step on two evaluated operands; the left
/// operand's error comes first.
pub open spec fn combine(
    a: Result<int, ExprError>,
    b: Result<int, ExprError>,
    f: spec_fn(int, int) -> int,
) -> Result<int, ExprError> {
    match a {
        Err(e) => Err(e),
        Ok(x) => match b {
            Err(e) => Err(e),
            Ok(y) => Ok(f(x, y)),
        },
    }
}

/// The value of `e` where the parameters of enclosing macros are bound by
/// `env`; `fuel` bounds how deeply macros may expand.
pub open spec fn eval_spec(
    e: Expression,
    env: Seq<(Seq<char>, int)>,
    labels: Seq<LabelEntry>,
    macros: Seq<MacroDefinition>,
    fuel: nat,
) -> Result<int, ExprError>
    decreases fuel, e, 0nat,
{
    match e {
        Expression::Number(n) => Ok(n@),
        Expression::Label(l) => match find_label(labels, l@) {
            Some(Some(a)) => Ok(a as int),
            _ => Err(ExprError::UnknownLabel(l)),
        },
        Expression::Variable(v) => match find_binding(env, v@) {
            Some(x) => Ok(x),
            None => Err(ExprError::UndefinedVariable(v)),
        },
        Expression::Macro(inv) => match find_macro(macros, inv.name@) {
            Some(i) => match macros[i] {
                MacroDefinition::Expression(d) => {
                    if d.parameters.len() != inv.parameters.len() {
                        Err(ExprError::MacroArity(inv.name))
                    } else if fuel == 0 {
                        Err(ExprError::RecursionLimit)
                    } else {
                        match eval_args(inv.parameters@, 0, env, labels, macros, fuel) {
                            Err(err) => Err(err),
                            Ok(vals) => eval_spec(
                                d.content,
                                bind(d.parameters@, vals),
                                labels,
                                macros,
                                (fuel - 1) as nat,
                            ),
                        }
                    }
                },
                _ => Err(ExprError::UnknownMacro(inv.name)),
            },
            None => Err(ExprError::UnknownMacro(inv.name)),
        },
        Expression::Plus(a, b) => combine(
            eval_spec(*a, env, labels, macros, fuel),
            eval_spec(*b, env, labels, macros, fuel),
            |x: int, y: int| x + y,
        ),
        Expression::Minus(a, b) => combine(
            eval_spec(*a, env, labels, macros, fuel),
            eval_spec(*b, env, labels, macros, fuel),
            |x: int, y: int| x - y,
        ),
        Expression::Times(a, b) => combine(
            eval_spec(*a, env, labels, macros, fuel),
            eval_spec(*b, env, labels, macros, fuel),
            |x: int, y: int| x * y,
        ),
        Expression::Divide(a, b) => match eval_spec(*a, env, labels, macros, fuel) {
            Err(err) => Err(err),
            Ok(x) => match eval_spec(*b, env, labels, macros, fuel) {
                Err(err) => Err(err),
                Ok(y) => if y == 0 {
                    Err(ExprError::DivisionByZero)
                } else {
                    Ok(trunc_div(x, y))
                },
            },
        },
        Expression::Negate(a) => match eval_spec(*a, env, labels, macros, fuel) {
            Err(err) => Err(err),
            Ok(x) => Ok(-x),
        },
    }
}

/// The values of the arguments from index `i` on, evaluated in order; the
/// first error stops the evaluation.
pub open spec fn eval_args(
    args: Seq<Expression>,
    i: int,
    env: Seq<(Seq<char>, int)>,
    labels: Seq<LabelEntry>,
    macros: Seq<MacroDefinition>,
    fuel: nat,
) -> Result<Seq<int>, ExprError>
    decreases fuel, args, args.len() - i,
{
    if i < 0 || i >= args.len() {
        Ok(Seq::empty())
    } else {
        match eval_spec(args[i], env, labels, macros, fuel) {
            Err(err) => Err(err),
            Ok(x) => match eval_args(args, i + 1, env, labels, macros, fuel) {
                Err(err) => Err(err),
                Ok(rest) => Ok(seq![x] + rest),
            },
        }
    }
}


/// Evaluating the arguments one by one: once the first `i` have values
/// `vals`, the whole evaluation is those values followed by the rest.
proof fn lemma_eval_args_prefix(
    args: Seq<Expression>,
    vals: Seq<int>,
    k: int,
    i: int,
    env: Seq<(Seq<char>, int)>,
    labels: Seq<LabelEntry>,
    macros: Seq<MacroDefinition>,
    fuel: nat,
)
    requires
        0 <= k <= i <= args.len(),
        vals.len() == i,
        forall|j: int| 0 <= j < i ==> eval_spec(args[j], env, labels, macros, fuel) == Ok::<int, ExprError>(vals[j]),
    ensures
        eval_args(args, k, env, labels, macros, fuel) == match eval_args(args, i, env, labels, macros, fuel) {
            Err(err) => Err(err),
            Ok(rest) => Ok(vals.subrange(k, i) + rest),
        },
    decreases i - k,
{
    if k < i {
        lemma_eval_args_prefix(args, vals, k + 1, i, env, labels, macros, fuel);
        match eval_args(args, i, env, labels, macros, fuel) {
            Err(err) => {},
            Ok(rest) => {
                assert(seq![vals[k]] + (vals.subrange(k + 1, i) + rest) =~= vals.subrange(k, i) + rest);
            },
        }
    } else {
        match eval_args(args, i, env, labels, macros, fuel) {
            Err(err) => {},
            Ok(rest) => {
                assert(vals.subrange(k, i) + rest =~= rest);
            },
        }
    }
}

/// Finds the entry of the first label named `name`.
pub fn lookup_label(t: &Vec<LabelEntry>, name: &String) -> (r: Option<Option<usize>>)
    ensures
        r == find_label(t@, name@),
{
    let mut i: usize = 0;
    assert(t@.subrange(0, t@.len() as int) =~= t@);
    while i < t.len()
        invariant
            i <= t@.len(),
            find_label(t@, name@) == find_label(t@.subrange(i as int, t@.len() as int), name@),
        decreases t@.len() - i,
    {
        let ghost rest = t@.subrange(i as int, t@.len() as int);
        if t[i].name == *name {
            return Some(t[i].address);
        }
        proof {
            assert(rest.subrange(1, rest.len() as int) =~= t@.subrange(i + 1, t@.len() as int));
        }
        i += 1;
    }
    None
}

/// Finds the index of the first macro named `name`.
pub fn lookup_macro(t: &Vec<MacroDefinition>, name: &String) -> (r: Option<usize>)
    ensures
        match r {
            Some(i) => find_macro(t@, name@) == Some(i as int) && i < t@.len(),
            None => find_macro(t@, name@) is None,
        },
{
    let mut i: usize = 0;
    assert(t@.subrange(0, t@.len() as int) =~= t@);
    while i < t.len()
        invariant
            i <= t@.len(),
            find_macro(t@, name@) == match find_macro(t@.subrange(i as int, t@.len() as int), name@) {
                Some(j) => Some(j + i),
                None => None,
            },
        decreases t@.len() - i,
    {
        let ghost rest = t@.subrange(i as int, t@.len() as int);
        if *t[i].name() == *name {
            return Some(i);
        }
        proof {
            assert(rest.subrange(1, rest.len() as int) =~= t@.subrange(i + 1, t@.len() as int));
        }
        i += 1;
    }
    None
}

/// Finds the index of the first binding of `name`.
fn lookup_binding(env: &Vec<Binding>, name: &String) -> (r: Option<usize>)
    ensures
        match r {
            Some(i) => i < env@.len() && find_binding(env_of(env@), name@) == Some(env@[i as int].value@),
            None => find_binding(env_of(env@), name@) is None,
        },
{
    let mut i: usize = 0;
    assert(env@.subrange(0, env@.len() as int) =~= env@);
    while i < env.len()
        invariant
            i <= env@.len(),
            find_binding(env_of(env@), name@) == find_binding(env_of(env@.subrange(i as int, env@.len() as int)), name@),
        decreases env@.len() - i,
    {
        let ghost rest = env@.subrange(i as int, env@.len() as int);
        if env[i].name == *name {
            return Some(i);
        }
        proof {
            assert(env_of(rest).subrange(1, rest.len() as int) =~= env_of(env@.subrange(i + 1, env@.len() as int)));
        }
        i += 1;
    }
    proof {
        assert(env_of(env@.subrange(i as int, env@.len() as int)).len() == 0);
    }
    None
}

impl Expression {
    /// Evaluates the expression; `fuel` bounds how deeply macros expand.
    #[verifier::loop_isolation(false)]
    pub fn eval(
        &self,
        env: &Vec<Binding>,
        labels: &Vec<LabelEntry>,
        macros: &Vec<MacroDefinition>,
        fuel: usize,
    ) -> (r: Result<Int, ExprError>)
        ensures
            match r {
                Ok(v) => eval_spec(*self, env_of(env@), labels@, macros@, fuel as nat) == Ok::<int, ExprError>(v@),
                Err(err) => eval_spec(*self, env_of(env@), labels@, macros@, fuel as nat) == Err::<int, ExprError>(err),
            },
        decreases fuel, self, 0nat,
    {
        match self {
            Expression::Number(n) => Ok(n.copy()),
            Expression::Label(l) => match lookup_label(labels, l) {
                Some(Some(a)) => Ok(Int::from_i128(a as i128)),
                _ => Err(ExprError::UnknownLabel(l.clone())),
            },
            Expression::Variable(v) => match lookup_binding(env, v) {
                Some(i) => Ok(env[i].value.copy()),
                None => Err(ExprError::UndefinedVariable(v.clone())),
            },
            Expression::Macro(inv) => {
                let found = lookup_macro(macros, &inv.name);
                match found {
                    Some(k) => match &macros[k] {
                        MacroDefinition::Expression(d) => {
                            if d.parameters.len() != inv.parameters.len() {
                                return Err(ExprError::MacroArity(inv.name.clone()));
                            }
                            if fuel == 0 {
                                return Err(ExprError::RecursionLimit);
                            }
                            let ghost spec_env = env_of(env@);
                            let mut vals: Vec<Int> = Vec::new();
                            let mut i: usize = 0;
                            while i < inv.parameters.len()
                                invariant
                                    i <= inv.parameters@.len(),
                                    vals@.len() == i,
                                    forall|j: int| 0 <= j < i ==> eval_spec(inv.parameters@[j], spec_env, labels@, macros@, fuel as nat)
                                        == Ok::<int, ExprError>(vals@[j]@),
                                decreases inv.parameters@.len() - i,
                            {
                                proof {
                                    assert(decreases_to!(*self => *inv));
                                    assert(decreases_to!(*inv => inv.parameters));
                                    assert(decreases_to!(inv.parameters => inv.parameters@));
                                    assert(decreases_to!(inv.parameters@ => inv.parameters@[i as int]));
                                }
                                match inv.parameters[i].eval(env, labels, macros, fuel) {
                                    Ok(x) => {
                                        vals.push(x);
                                    },
                                    Err(err) => {
                                        proof {
                                            let vs = vals@.map_values(|x: Int| x@);
                                            lemma_eval_args_prefix(inv.parameters@, vs, 0, i as int, spec_env, labels@, macros@, fuel as nat);
                                        }
                                        return Err(err);
                                    },
                                }
                                i += 1;
                            }
                            let ghost vs = vals@.map_values(|x: Int| x@);
                            proof {
                                lemma_eval_args_prefix(inv.parameters@, vs, 0, i as int, spec_env, labels@, macros@, fuel as nat);
                                assert(vs.subrange(0, i as int) + Seq::<int>::empty() =~= vs);
                            }
                            let mut inner: Vec<Binding> = Vec::new();
                            let mut j: usize = 0;
                            while j < d.parameters.len()
                                invariant
                                    j <= d.parameters@.len(),
                                    d.parameters@.len() == vals@.len(),
                                    vs == vals@.map_values(|x: Int| x@),
                                    env_of(inner@) =~= bind(d.parameters@.subrange(0, j as int), vs.subrange(0, j as int)),
                                decreases d.parameters@.len() - j,
                            {
                                let b = Binding { name: d.parameters[j].clone(), value: vals[j].copy() };
                                let ghost before = inner@;
                                inner.push(b);
                                proof {
                                    assert(env_of(inner@) =~= env_of(before).push((b.name@, b.value@)));
                                }
                                j += 1;
                                assert(env_of(inner@) =~= bind(d.parameters@.subrange(0, j as int), vs.subrange(0, j as int)));
                            }
                            proof {
                                assert(d.parameters@.subrange(0, j as int) =~= d.parameters@);
                                assert(vs.subrange(0, j as int) =~= vs);
                            }
                            d.content.eval(&inner, labels, macros, fuel - 1)
                        },
                        _ => Err(ExprError::UnknownMacro(inv.name.clone())),
                    },
                    None => Err(ExprError::UnknownMacro(inv.name.clone())),
                }
            },
            Expression::Plus(a, b) => match a.eval(env, labels, macros, fuel) {
                Err(err) => Err(err),
                Ok(x) => match b.eval(env, labels, macros, fuel) {
                    Err(err) => Err(err),
                    Ok(y) => Ok(x.add(&y)),
                },
            },
            Expression::Minus(a, b) => match a.eval(env, labels, macros, fuel) {
                Err(err) => Err(err),
                Ok(x) => match b.eval(env, labels, macros, fuel) {
                    Err(err) => Err(err),
                    Ok(y) => Ok(x.sub(&y)),
                },
            },
            Expression::Times(a, b) => match a.eval(env, labels, macros, fuel) {
                Err(err) => Err(err),
                Ok(x) => match b.eval(env, labels, macros, fuel) {
                    Err(err) => Err(err),
                    Ok(y) => Ok(x.mul(&y)),
                },
            },
            Expression::Divide(a, b) => match a.eval(env, labels, macros, fuel) {
                Err(err) => Err(err),
                Ok(x) => match b.eval(env, labels, macros, fuel) {
                    Err(err) => Err(err),
                    Ok(y) => match x.div(&y) {
                        Some(q) => Ok(q),
                        None => Err(ExprError::DivisionByZero),
                    },
                },
            },
            Expression::Negate(a) => match a.eval(env, labels, macros, fuel) {
                Err(err) => Err(err),
                Ok(x) => Ok(x.neg()),
            },
        }
    }
}


/// A label of a macro body and the fresh name it takes in one expansion.
#[derive(Debug, Clone)]
pub struct Rename {
    pub from: String,
    pub to: String,
}

/// The name that `l` takes under the first rename of it, if any.
pub open spec fn renamed(renames: Seq<Rename>, l: Seq<char>) -> Seq<char>
    decreases renames.len(),
{
    if renames.len() == 0 {
        l
    } else if renames[0].from@ == l {
        renames[0].to@
    } else {
        renamed(renames.subrange(1, renames.len() as int), l)
    }
}

/// Finds the first rename of `name`.
pub(crate) fn lookup_rename(renames: &Vec<Rename>, name: &String) -> (r: Option<usize>)
    ensures
        r matches Some(i) ==> i < renames@.len() && renames@[i as int].from@ == name@
            && renamed(renames@, name@) == renames@[i as int].to@,
        r is None ==> (forall|i: int| 0 <= i < renames@.len() ==> renames@[i].from@ != name@)
            && renamed(renames@, name@) == name@,
{
    let mut i: usize = 0;
    assert(renames@.subrange(0, renames@.len() as int) =~= renames@);
    while i < renames.len()
        invariant
            i <= renames@.len(),
            forall|j: int| 0 <= j < i ==> renames@[j].from@ != name@,
            renamed(renames@, name@) == renamed(renames@.subrange(i as int, renames@.len() as int), name@),
        decreases renames@.len() - i,
    {
        let ghost rest = renames@.subrange(i as int, renames@.len() as int);
        if renames[i].from == *name {
            return Some(i);
        }
        proof {
            assert(rest.subrange(1, rest.len() as int) =~= renames@.subrange(i + 1, renames@.len() as int));
        }
        i += 1;
    }
    None
}

/// Finds the first parameter named `name`.
fn lookup_param(params: &Vec<String>, name: &String) -> (r: Option<usize>)
    ensures
        match r {
            Some(i) => param_index(params@, name@) == Some(i as int) && i < params@.len(),
            None => param_index(params@, name@) is None,
        },
{
    let mut i: usize = 0;
    assert(params@.subrange(0, params@.len() as int) =~= params@);
    while i < params.len()
        invariant
            i <= params@.len(),
            param_index(params@, name@) == match param_index(params@.subrange(i as int, params@.len() as int), name@) {
                Some(j) => Some(j + i),
                None => None,
            },
        decreases params@.len() - i,
    {
        let ghost rest = params@.subrange(i as int, params@.len() as int);
        if params[i] == *name {
            return Some(i);
        }
        proof {
            assert(rest.subrange(1, rest.len() as int) =~= params@.subrange(i + 1, params@.len() as int));
        }
        i += 1;
    }
    None
}

/// The index of the first parameter named `name`.
pub open spec fn param_index(params: Seq<String>, name: Seq<char>) -> Option<int>
    decreases params.len(),
{
    if params.len() == 0 {
        None
    } else if params[0]@ == name {
        Some(0)
    } else {
        match param_index(params.subrange(1, params.len() as int), name) {
            Some(i) => Some(i + 1),
            None => None,
        }
    }
}

/// Whether `r` is a copy of `e`: the same tree, with the same numbers and
/// names.
pub open spec fn copied(e: Expression, r: Expression) -> bool
    decreases e, 0nat,
{
    match e {
        Expression::Number(n) => r matches Expression::Number(x) && x.bytes@ == n.bytes@,
        Expression::Label(l) => r matches Expression::Label(x) && x@ == l@,
        Expression::Variable(v) => r matches Expression::Variable(x) && x@ == v@,
        Expression::Macro(inv) => match r {
            Expression::Macro(out) => out.name@ == inv.name@ && out.parameters@.len() == inv.parameters@.len()
                && copied_args(inv.parameters@, out.parameters@, 0),
            _ => false,
        },
        Expression::Plus(a, b) => match r {
            Expression::Plus(x, y) => copied(*a, *x) && copied(*b, *y),
            _ => false,
        },
        Expression::Minus(a, b) => match r {
            Expression::Minus(x, y) => copied(*a, *x) && copied(*b, *y),
            _ => false,
        },
        Expression::Times(a, b) => match r {
            Expression::Times(x, y) => copied(*a, *x) && copied(*b, *y),
            _ => false,
        },
        Expression::Divide(a, b) => match r {
            Expression::Divide(x, y) => copied(*a, *x) && copied(*b, *y),
            _ => false,
        },
        Expression::Negate(a) => match r {
            Expression::Negate(x) => copied(*a, *x),
            _ => false,
        },
    }
}

/// Whether each argument from index `i` on is copied at the same place of
/// `outs`.
pub open spec fn copied_args(args: Seq<Expression>, outs: Seq<Expression>, i: int) -> bool
    decreases args, args.len() - i,
{
    if i < 0 || i >= args.len() {
        true
    } else {
        copied(args[i], outs[i]) && copied_args(args, outs, i + 1)
    }
}

/// Arguments copied one by one are copied together.
proof fn lemma_copied_args(args: Seq<Expression>, outs: Seq<Expression>, i: int)
    requires
        0 <= i <= args.len(),
        args.len() <= outs.len(),
        forall|j: int| i <= j < args.len() ==> copied(#[trigger] args[j], outs[j]),
    ensures
        copied_args(args, outs, i),
    decreases args.len() - i,
{
    if i < args.len() {
        lemma_copied_args(args, outs, i + 1);
    }
}

/// The labels that `e` refers to, in order, including those of the bodies of
/// the expression macros it invokes, down to `fuel` levels.
pub open spec fn labels_of(e: Expression, macros: Seq<MacroDefinition>, fuel: nat) -> Seq<Seq<char>>
    decreases fuel, e, 0nat,
{
    match e {
        Expression::Number(_) => Seq::empty(),
        Expression::Variable(_) => Seq::empty(),
        Expression::Label(l) => seq![l@],
        Expression::Macro(inv) => labels_of_args(inv.parameters@, 0, macros, fuel) + match find_macro(macros, inv.name@) {
            Some(i) => match macros[i] {
                MacroDefinition::Expression(d) => if fuel == 0 {
                    Seq::empty()
                } else {
                    labels_of(d.content, macros, (fuel - 1) as nat)
                },
                _ => Seq::empty(),
            },
            None => Seq::empty(),
        },
        Expression::Plus(a, b) => labels_of(*a, macros, fuel) + labels_of(*b, macros, fuel),
        Expression::Minus(a, b) => labels_of(*a, macros, fuel) + labels_of(*b, macros, fuel),
        Expression::Times(a, b) => labels_of(*a, macros, fuel) + labels_of(*b, macros, fuel),
        Expression::Divide(a, b) => labels_of(*a, macros, fuel) + labels_of(*b, macros, fuel),
        Expression::Negate(a) => labels_of(*a, macros, fuel),
    }
}

/// The labels that the arguments from index `i` on refer to.
pub open spec fn labels_of_args(args: Seq<Expression>, i: int, macros: Seq<MacroDefinition>, fuel: nat) -> Seq<Seq<char>>
    decreases fuel, args, args.len() - i,
{
    if i < 0 || i >= args.len() {
        Seq::empty()
    } else {
        labels_of(args[i], macros, fuel) + labels_of_args(args, i + 1, macros, fuel)
    }
}

/// The names held by strings.
pub open spec fn names_of(v: Seq<String>) -> Seq<Seq<char>> {
    v.map_values(|s: String| s@)
}

/// Appends the names of `src` to `dst`.
fn append_names(dst: &mut Vec<String>, src: Vec<String>)
    ensures
        names_of(final(dst)@) == names_of(old(dst)@) + names_of(src@),
{
    let ghost start = dst@;
    let mut i: usize = 0;
    while i < src.len()
        invariant
            i <= src@.len(),
            names_of(dst@) == names_of(start) + names_of(src@.subrange(0, i as int)),
        decreases src@.len() - i,
    {
        let ghost before = dst@;
        dst.push(src[i].clone());
        i += 1;
        proof {
            assert(names_of(dst@) =~= names_of(before).push(src@[i - 1]@));
            assert(names_of(src@.subrange(0, i as int)) =~= names_of(src@.subrange(0, i - 1)).push(src@[i - 1]@));
        }
    }
    assert(src@.subrange(0, i as int) =~= src@);
}

/// Whether `r` is `e` with each label `l` replaced by `f(l)`, and each
/// variable named as a parameter replaced by a copy of the argument at the
/// place of the first such parameter; other variables stay.
pub open spec fn relabeled(
    e: Expression,
    r: Expression,
    f: spec_fn(Seq<char>) -> Seq<char>,
    params: Seq<String>,
    args: Seq<Expression>,
) -> bool
    decreases e, 0nat,
{
    match e {
        Expression::Number(n) => r matches Expression::Number(x) && x.bytes@ == n.bytes@,
        Expression::Label(l) => r matches Expression::Label(n) && n@ == f(l@),
        Expression::Variable(v) => match param_index(params, v@) {
            Some(i) => copied(args[i], r),
            None => r matches Expression::Variable(x) && x@ == v@,
        },
        Expression::Macro(inv) => match r {
            Expression::Macro(out) => out.name@ == inv.name@ && out.parameters@.len() == inv.parameters@.len()
                && relabeled_args(inv.parameters@, out.parameters@, 0, f, params, args),
            _ => false,
        },
        Expression::Plus(a, b) => match r {
            Expression::Plus(x, y) => relabeled(*a, *x, f, params, args) && relabeled(*b, *y, f, params, args),
            _ => false,
        },
        Expression::Minus(a, b) => match r {
            Expression::Minus(x, y) => relabeled(*a, *x, f, params, args) && relabeled(*b, *y, f, params, args),
            _ => false,
        },
        Expression::Times(a, b) => match r {
            Expression::Times(x, y) => relabeled(*a, *x, f, params, args) && relabeled(*b, *y, f, params, args),
            _ => false,
        },
        Expression::Divide(a, b) => match r {
            Expression::Divide(x, y) => relabeled(*a, *x, f, params, args) && relabeled(*b, *y, f, params, args),
            _ => false,
        },
        Expression::Negate(a) => match r {
            Expression::Negate(x) => relabeled(*a, *x, f, params, args),
            _ => false,
        },
    }
}

/// Whether each argument from index `i` on is relabeled by `f` at the same
/// place of `outs`.
pub open spec fn relabeled_args(
    args: Seq<Expression>,
    outs: Seq<Expression>,
    i: int,
    f: spec_fn(Seq<char>) -> Seq<char>,
    params: Seq<String>,
    bound: Seq<Expression>,
) -> bool
    decreases args, args.len() - i,
{
    if i < 0 || i >= args.len() {
        true
    } else {
        relabeled(args[i], outs[i], f, params, bound) && relabeled_args(args, outs, i + 1, f, params, bound)
    }
}

/// Arguments relabeled one by one are relabeled together.
proof fn lemma_relabeled_args(
    args: Seq<Expression>,
    outs: Seq<Expression>,
    i: int,
    f: spec_fn(Seq<char>) -> Seq<char>,
    params: Seq<String>,
    bound: Seq<Expression>,
)
    requires
        0 <= i <= args.len(),
        args.len() <= outs.len(),
        forall|j: int| i <= j < args.len() ==> relabeled(#[trigger] args[j], outs[j], f, params, bound),
    ensures
        relabeled_args(args, outs, i, f, params, bound),
    decreases args.len() - i,
{
    if i < args.len() {
        lemma_relabeled_args(args, outs, i + 1, f, params, bound);
    }
}

impl Expression {
    /// A copy of the expression.
    #[verifier::loop_isolation(false)]
    pub(crate) fn copy(&self) -> (r: Expression)
        ensures
            copied(*self, r),
        decreases self,
    {
        match self {
            Expression::Number(n) => Expression::Number(n.copy()),
            Expression::Label(l) => Expression::Label(l.clone()),
            Expression::Variable(v) => Expression::Variable(v.clone()),
            Expression::Macro(inv) => {
                let mut args: Vec<Expression> = Vec::new();
                let mut i: usize = 0;
                while i < inv.parameters.len()
                    invariant
                        i <= inv.parameters@.len(),
                        args@.len() == i,
                        forall|j: int| 0 <= j < i ==> copied(#[trigger] inv.parameters@[j], args@[j]),
                    decreases inv.parameters@.len() - i,
                {
                    proof {
                        assert(decreases_to!(*self => *inv));
                        assert(decreases_to!(*inv => inv.parameters));
                        assert(decreases_to!(inv.parameters => inv.parameters@));
                        assert(decreases_to!(inv.parameters@ => inv.parameters@[i as int]));
                    }
                    let ghost before = args@;
                    args.push(inv.parameters[i].copy());
                    proof {
                        assert forall|j: int| 0 <= j < i + 1 implies copied(#[trigger] inv.parameters@[j], args@[j]) by {
                            if j < i {
                                assert(args@[j] == before[j]);
                            }
                        }
                    }
                    i += 1;
                }
                proof {
                    lemma_copied_args(inv.parameters@, args@, 0);
                }
                Expression::Macro(ExpressionMacroInvocation { name: inv.name.clone(), parameters: args })
            },
            Expression::Plus(a, b) => Expression::Plus(Box::new(a.copy()), Box::new(b.copy())),
            Expression::Minus(a, b) => Expression::Minus(Box::new(a.copy()), Box::new(b.copy())),
            Expression::Times(a, b) => Expression::Times(Box::new(a.copy()), Box::new(b.copy())),
            Expression::Divide(a, b) => Expression::Divide(Box::new(a.copy()), Box::new(b.copy())),
            Expression::Negate(a) => Expression::Negate(Box::new(a.copy())),
        }
    }

    /// A copy of the expression for one expansion of a macro body: labels
    /// local to the body take their fresh names, and each parameter is
    /// replaced by its argument.
    #[verifier::loop_isolation(false)]
    pub(crate) fn instantiate(&self, renames: &Vec<Rename>, params: &Vec<String>, args: &Vec<Expression>) -> (r: Expression)
        requires
            params@.len() == args@.len(),
        ensures
            relabeled(*self, r, |l: Seq<char>| renamed(renames@, l), params@, args@),
        decreases self,
    {
        match self {
            Expression::Number(n) => Expression::Number(n.copy()),
            Expression::Label(l) => match lookup_rename(renames, l) {
                Some(i) => Expression::Label(renames[i].to.clone()),
                None => Expression::Label(l.clone()),
            },
            Expression::Variable(v) => match lookup_param(params, v) {
                Some(i) => args[i].copy(),
                None => Expression::Variable(v.clone()),
            },
            Expression::Macro(inv) => {
                let ghost f = |l: Seq<char>| renamed(renames@, l);
                let mut new_args: Vec<Expression> = Vec::new();
                let mut i: usize = 0;
                while i < inv.parameters.len()
                    invariant
                        i <= inv.parameters@.len(),
                        params@.len() == args@.len(),
                        new_args@.len() == i,
                        forall|j: int| 0 <= j < i ==> relabeled(#[trigger] inv.parameters@[j], new_args@[j], f, params@, args@),
                    decreases inv.parameters@.len() - i,
                {
                    proof {
                        assert(decreases_to!(*self => *inv));
                        assert(decreases_to!(*inv => inv.parameters));
                        assert(decreases_to!(inv.parameters => inv.parameters@));
                        assert(decreases_to!(inv.parameters@ => inv.parameters@[i as int]));
                    }
                    let ghost before = new_args@;
                    new_args.push(inv.parameters[i].instantiate(renames, params, args));
                    proof {
                        assert forall|j: int| 0 <= j < i + 1 implies relabeled(#[trigger] inv.parameters@[j], new_args@[j], f, params@, args@) by {
                            if j < i {
                                assert(new_args@[j] == before[j]);
                            }
                        }
                    }
                    i += 1;
                }
                proof {
                    lemma_relabeled_args(inv.parameters@, new_args@, 0, f, params@, args@);
                }
                Expression::Macro(ExpressionMacroInvocation { name: inv.name.clone(), parameters: new_args })
            },
            Expression::Plus(a, b) => Expression::Plus(
                Box::new(a.instantiate(renames, params, args)),
                Box::new(b.instantiate(renames, params, args)),
            ),
            Expression::Minus(a, b) => Expression::Minus(
                Box::new(a.instantiate(renames, params, args)),
                Box::new(b.instantiate(renames, params, args)),
            ),
            Expression::Times(a, b) => Expression::Times(
                Box::new(a.instantiate(renames, params, args)),
                Box::new(b.instantiate(renames, params, args)),
            ),
            Expression::Divide(a, b) => Expression::Divide(
                Box::new(a.instantiate(renames, params, args)),
                Box::new(b.instantiate(renames, params, args)),
            ),
            Expression::Negate(a) => Expression::Negate(Box::new(a.instantiate(renames, params, args))),
        }
    }

    /// The labels that the expression refers to, in order, including those
    /// of the bodies of the expression macros it invokes.
    #[verifier::loop_isolation(false)]
    pub fn labels(&self, macros: &Vec<MacroDefinition>, fuel: usize) -> (r: Vec<String>)
        ensures
            names_of(r@) == labels_of(*self, macros@, fuel as nat),
        decreases fuel, self, 0nat,
    {
        match self {
            Expression::Number(_) => Vec::new(),
            Expression::Variable(_) => Vec::new(),
            Expression::Label(l) => {
                let mut out: Vec<String> = Vec::new();
                out.push(l.clone());
                assert(names_of(out@) =~= seq![l@]);
                out
            },
            Expression::Macro(inv) => {
                let mut out: Vec<String> = Vec::new();
                let mut i: usize = 0;
                let ghost args = inv.parameters@;
                assert(names_of(out@) =~= Seq::empty());
                while i < inv.parameters.len()
                    invariant
                        i <= args.len(),
                        labels_of_args(args, 0, macros@, fuel as nat) == names_of(out@) + labels_of_args(args, i as int, macros@, fuel as nat),
                    decreases args.len() - i,
                {
                    proof {
                        assert(decreases_to!(*self => *inv));
                        assert(decreases_to!(*inv => inv.parameters));
                        assert(decreases_to!(inv.parameters => inv.parameters@));
                        assert(decreases_to!(inv.parameters@ => inv.parameters@[i as int]));
                    }
                    let part = inv.parameters[i].labels(macros, fuel);
                    let ghost before = out@;
                    append_names(&mut out, part);
                    i += 1;
                    proof {
                        assert(names_of(before) + labels_of_args(args, i - 1, macros@, fuel as nat)
                            =~= names_of(out@) + labels_of_args(args, i as int, macros@, fuel as nat));
                    }
                }
                match lookup_macro(macros, &inv.name) {
                    Some(k) => match &macros[k] {
                        MacroDefinition::Expression(d) => {
                            if fuel > 0 {
                                let inner = d.content.labels(macros, fuel - 1);
                                append_names(&mut out, inner);
                            }
                        },
                        _ => {},
                    },
                    None => {},
                }
                proof {
                    assert(labels_of_args(args, i as int, macros@, fuel as nat) =~= Seq::empty());
                }
                out
            },
            Expression::Plus(a, b) | Expression::Minus(a, b) | Expression::Times(a, b) | Expression::Divide(a, b) => {
                let mut out = a.labels(macros, fuel);
                let rest = b.labels(macros, fuel);
                append_names(&mut out, rest);
                out
            },
            Expression::Negate(a) => a.labels(macros, fuel),
        }
    }
}

} // verus!
