//! Macro expansion: the fresh names that the labels of a macro body take in
//! each expansion, and the body of one expansion.

use crate::expression::{lookup_rename, relabeled, renamed, Expression, Rename};
use crate::ops::{AbstractOp, Imm, InstructionMacroDefinition};
use vstd::prelude::*;
use vstd::string::*;

verus! {

/// Relies on `rand::random::<u64>`: a fresh number, about which nothing is
/// known.
#[verifier::external_body]
pub(crate) fn fresh_id() -> (r: u64) {
    rand::random::<u64>()
}

/// The character of a decimal digit.
pub open spec fn digit_char(d: nat) -> char {
    if d == 0 {
        '0'
    } else if d == 1 {
        '1'
    } else if d == 2 {
        '2'
    } else if d == 3 {
        '3'
    } else if d == 4 {
        '4'
    } else if d == 5 {
        '5'
    } else if d == 6 {
        '6'
    } else if d == 7 {
        '7'
    } else if d == 8 {
        '8'
    } else {
        '9'
    }
}

/// The decimal digits of `n`.
pub open spec fn decimal(n: nat) -> Seq<char>
    decreases n,
{
    if n < 10 {
        seq![digit_char(n)]
    } else {
        decimal(n / 10).push(digit_char(n % 10))
    }
}

/// The decimal digit `d`, as a string.
fn digit(d: u64) -> (r: &'static str)
    requires
        d < 10,
    ensures
        r@ == seq![digit_char(d as nat)],
{
    proof {
        reveal_strlit("0");
        reveal_strlit("1");
        reveal_strlit("2");
        reveal_strlit("3");
        reveal_strlit("4");
        reveal_strlit("5");
        reveal_strlit("6");
        reveal_strlit("7");
        reveal_strlit("8");
        reveal_strlit("9");
    }
    let r = match d {
        0 => "0",
        1 => "1",
        2 => "2",
        3 => "3",
        4 => "4",
        5 => "5",
        6 => "6",
        7 => "7",
        8 => "8",
        _ => "9",
    };
    assert(r@ =~= seq![digit_char(d as nat)]);
    r
}

/// The decimal digits of `n`, as a string.
fn decimal_string(n: u64) -> (r: String)
    ensures
        r@ == decimal(n as nat),
    decreases n,
{
    if n < 10 {
        String::from_str(digit(n))
    } else {
        let mut s = decimal_string(n / 10);
        s.append(digit(n % 10));
        assert(s@ =~= decimal(n as nat));
        s
    }
}

/// The name that a label `l` of the macro `m` takes in the expansion drawn
/// as `id`.
pub open spec fn mangled(m: Seq<char>, l: Seq<char>, id: nat) -> Seq<char> {
    m + seq!['_'] + l + seq!['_'] + decimal(id)
}

/// The fresh name of the label `l` of the macro `m` in the expansion `id`.
fn mangle(m: &String, l: &String, id: u64) -> (r: String)
    ensures
        r@ == mangled(m@, l@, id as nat),
{
    proof {
        reveal_strlit("_");
    }
    let mut s = m.clone();
    s.append("_");
    s.append(l.as_str());
    s.append("_");
    let digits = decimal_string(id);
    s.append(digits.as_str());
    assert(s@ =~= mangled(m@, l@, id as nat));
    s
}


/// Numbers from ten on have at least two digits.
proof fn lemma_decimal_len(n: nat)
    ensures
        decimal(n).len() >= 1,
        n >= 10 ==> decimal(n).len() >= 2,
    decreases n,
{
    if n >= 10 {
        lemma_decimal_len(n / 10);
    }
}

/// Different numbers have different decimal digits.
proof fn lemma_decimal_injective(a: nat, b: nat)
    requires
        decimal(a) == decimal(b),
    ensures
        a == b,
    decreases a,
{
    lemma_decimal_len(a);
    lemma_decimal_len(b);
    if a >= 10 && b >= 10 {
        let da = decimal(a);
        let db = decimal(b);
        assert(da.last() == digit_char(a % 10));
        assert(db.last() == digit_char(b % 10));
        assert(da.drop_last() == decimal(a / 10));
        assert(db.drop_last() == decimal(b / 10));
        lemma_decimal_injective(a / 10, b / 10);
    } else if a < 10 && b < 10 {
        assert(decimal(a)[0] == digit_char(a));
        assert(decimal(b)[0] == digit_char(b));
    }
}

/// Two expansions of a macro that draw different numbers give each label of
/// the body two different names.
pub proof fn law_expansion_names_differ(m: Seq<char>, l: Seq<char>, a: nat, b: nat)
    requires
        a != b,
    ensures
        mangled(m, l, a) != mangled(m, l, b),
{
    let prefix = m + seq!['_'] + l + seq!['_'];
    if mangled(m, l, a) == mangled(m, l, b) {
        let x = mangled(m, l, a);
        assert(x.subrange(prefix.len() as int, x.len() as int) =~= decimal(a));
        assert(mangled(m, l, b).subrange(prefix.len() as int, x.len() as int) =~= decimal(b));
        lemma_decimal_injective(a, b);
    }
}

/// The label that the operation at `i` declares, if it is a label.
pub open spec fn label_at(contents: Seq<AbstractOp>, i: int) -> Option<Seq<char>> {
    match contents[i] {
        AbstractOp::Label(n) => Some(n@),
        _ => None,
    }
}

/// Whether the body declares the label `l`.
pub open spec fn declares(contents: Seq<AbstractOp>, l: Seq<char>) -> bool {
    exists|i: int| 0 <= i < contents.len() && label_at(contents, i) == Some(l)
}

/// Whether the body declares some label twice.
pub open spec fn declares_twice(contents: Seq<AbstractOp>) -> bool {
    exists|i: int, j: int|
        0 <= i < j < contents.len() && label_at(contents, i) is Some && #[trigger] label_at(contents, i)
            == #[trigger] label_at(contents, j)
}

/// The name that the label `l` has inside the expansion drawn as `id` of the
/// macro `m`: its fresh name if the body declares it, else its own.
pub open spec fn local_name(m: Seq<char>, contents: Seq<AbstractOp>, l: Seq<char>, id: nat) -> Seq<char> {
    if declares(contents, l) {
        mangled(m, l, id)
    } else {
        l
    }
}

/// How an operation of the body appears in the expansion drawn as `id`: a
/// declared label takes its fresh name, and a push of a label, or of an
/// expression over labels, refers to each label by its name inside the
/// expansion.
pub open spec fn hygienic(
    op: AbstractOp,
    out: AbstractOp,
    m: Seq<char>,
    contents: Seq<AbstractOp>,
    params: Seq<String>,
    args: Seq<Expression>,
    id: nat,
) -> bool {
    match op {
        AbstractOp::Label(l) => out matches AbstractOp::Label(n) && n@ == mangled(m, l@, id),
        AbstractOp::Op(spec, Some(Imm::Label(l))) => out matches AbstractOp::Op(s, Some(Imm::Label(n))) && s == spec
            && n@ == local_name(m, contents, l@, id),
        AbstractOp::Push(Imm::Label(l)) => out matches AbstractOp::Push(Imm::Label(n)) && n@ == local_name(
            m,
            contents,
            l@,
            id,
        ),
        AbstractOp::Op(spec, Some(Imm::Expression(e))) => out matches AbstractOp::Op(s, Some(Imm::Expression(x)))
            && s == spec && relabeled(e, x, local_names(m, contents, id), params, args),
        AbstractOp::Push(Imm::Expression(e)) => out matches AbstractOp::Push(Imm::Expression(x)) && relabeled(
            e,
            x,
            local_names(m, contents, id),
            params,
            args,
        ),
        _ => true,
    }
}

/// Each label's name inside the expansion drawn as `id`.
pub open spec fn local_names(m: Seq<char>, contents: Seq<AbstractOp>, id: nat) -> spec_fn(Seq<char>) -> Seq<char> {
    |l: Seq<char>| local_name(m, contents, l, id)
}

/// Whether `body` is the expansion drawn as `id` of the macro `m` whose body
/// is `contents`, with `args` for its parameters `params`.
pub open spec fn expansion_of(
    m: Seq<char>,
    contents: Seq<AbstractOp>,
    params: Seq<String>,
    args: Seq<Expression>,
    id: nat,
    body: Seq<AbstractOp>,
) -> bool {
    &&& body.len() == contents.len()
    &&& forall|k: int| 0 <= k < contents.len() ==> hygienic(#[trigger] contents[k], body[k], m, contents, params, args, id)
}

/// The label that the operation pushes, if it pushes one.
pub open spec fn pushed_label(op: AbstractOp) -> Option<Seq<char>> {
    match op {
        AbstractOp::Op(_, Some(Imm::Label(l))) => Some(l@),
        AbstractOp::Push(Imm::Label(l)) => Some(l@),
        _ => None,
    }
}

/// A label is renamed by the first rename of it, and kept when there is none.
proof fn lemma_renamed_first(renames: Seq<Rename>, l: Seq<char>)
    ensures
        (forall|k: int| 0 <= k < renames.len() ==> renames[k].from@ != l) ==> renamed(renames, l) == l,
        (exists|k: int| 0 <= k < renames.len() && renames[k].from@ == l) ==> exists|k: int|
            0 <= k < renames.len() && renames[k].from@ == l && renamed(renames, l) == renames[k].to@,
    decreases renames.len(),
{
    if renames.len() > 0 {
        let rest = renames.subrange(1, renames.len() as int);
        lemma_renamed_first(rest, l);
        if renames[0].from@ != l {
            if exists|k: int| 0 <= k < renames.len() && renames[k].from@ == l {
                let k = choose|k: int| 0 <= k < renames.len() && renames[k].from@ == l;
                assert(rest[k - 1] == renames[k]);
                let k2 = choose|k2: int| 0 <= k2 < rest.len() && rest[k2].from@ == l && renamed(rest, l) == rest[k2].to@;
                assert(renames[k2 + 1] == rest[k2]);
            }
            assert forall|k: int| 0 <= k < rest.len() implies rest[k] == renames[k + 1] by {}
        }
    }
}

/// Renames that give each label declared in the body its fresh name, and
/// nothing else, give every label its name inside the expansion.
proof fn lemma_renamed_local(m: Seq<char>, contents: Seq<AbstractOp>, renames: Seq<Rename>, id: nat, l: Seq<char>)
    requires
        forall|k: int| 0 <= k < renames.len() ==> #[trigger] renames[k].to@ == mangled(m, renames[k].from@, id),
        forall|k: int| 0 <= k < renames.len() ==> declares(contents, #[trigger] renames[k].from@),
        forall|j: int| 0 <= j < contents.len() && #[trigger] label_at(contents, j) is Some ==> exists|k: int|
            0 <= k < renames.len() && renames[k].from@ == label_at(contents, j).unwrap(),
    ensures
        renamed(renames, l) == local_name(m, contents, l, id),
{
    lemma_renamed_first(renames, l);
    if declares(contents, l) {
        let j = choose|j: int| 0 <= j < contents.len() && label_at(contents, j) == Some(l);
        assert(label_at(contents, j) is Some);
    } else {
        assert forall|k: int| 0 <= k < renames.len() implies renames[k].from@ != l by {
            assert(declares(contents, renames[k].from@));
        }
    }
}

/// The renames that give each label declared in the body of `m` its fresh
/// name for the expansion drawn as `id`; a label declared twice is returned
/// as the error.
fn fresh_renames(m: &InstructionMacroDefinition, id: u64) -> (r: Result<Vec<Rename>, String>)
    ensures
        r is Err <==> declares_twice(m.contents@),
        r matches Err(l) ==> declares(m.contents@, l@),
        r matches Ok(renames) ==> forall|l: Seq<char>| #[trigger] renamed(renames@, l) == local_name(
            m.name@,
            m.contents@,
            l,
            id as nat,
        ),
{
    let ghost c = m.contents@;
    let ghost name = m.name@;
    let mut renames: Vec<Rename> = Vec::new();
    // `src[k]` is where the label of rename `k` is declared; `slot[j]` is the
    // rename of the label declared at `j`.
    let ghost mut src: Seq<int> = Seq::empty();
    let ghost mut slot: Seq<int> = Seq::empty();
    let mut i: usize = 0;
    while i < m.contents.len()
        invariant
            i <= c.len(),
            c == m.contents@,
            name == m.name@,
            src.len() == renames@.len(),
            slot.len() == i,
            forall|k: int| 0 <= k < renames@.len() ==> #[trigger] renames@[k].to@ == mangled(name, renames@[k].from@, id as nat),
            forall|k: int| 0 <= k < renames@.len() ==> 0 <= #[trigger] src[k] < i && label_at(c, src[k]) == Some(renames@[k].from@),
            forall|j: int| 0 <= j < i && #[trigger] label_at(c, j) is Some ==> 0 <= slot[j] < renames@.len()
                && renames@[slot[j]].from@ == label_at(c, j).unwrap(),
            forall|j1: int, j2: int| 0 <= j1 < j2 < i && label_at(c, j1) is Some ==> #[trigger] label_at(c, j1) != #[trigger] label_at(c, j2),
        decreases c.len() - i,
    {
        if let AbstractOp::Label(l) = &m.contents[i] {
            assert(label_at(c, i as int) == Some(l@));
            match lookup_rename(&renames, l) {
                Some(k) => {
                    proof {
                        let j = src[k as int];
                        assert(label_at(c, j) == label_at(c, i as int));
                        assert(declares(c, l@));
                    }
                    return Err(l.clone());
                },
                None => {},
            }
            let ghost before = renames@;
            let fresh = mangle(&m.name, l, id);
            renames.push(Rename { from: l.clone(), to: fresh });
            proof {
                src = src.push(i as int);
                slot = slot.push(before.len() as int);
                assert forall|k: int| 0 <= k < renames@.len() implies #[trigger] renames@[k].to@ == mangled(name, renames@[k].from@, id as nat) by {
                    if k < before.len() {
                        assert(renames@[k] == before[k]);
                    }
                }
                assert forall|k: int| 0 <= k < renames@.len() implies 0 <= #[trigger] src[k] < i + 1 && label_at(c, src[k]) == Some(renames@[k].from@) by {
                    if k < before.len() {
                        assert(renames@[k] == before[k]);
                    }
                }
                assert forall|j: int| 0 <= j < i + 1 && #[trigger] label_at(c, j) is Some implies 0 <= slot[j] < renames@.len()
                    && renames@[slot[j]].from@ == label_at(c, j).unwrap() by {
                    if j < i {
                        assert(renames@[slot[j]] == before[slot[j]]);
                    }
                }
                assert forall|j1: int, j2: int| 0 <= j1 < j2 < i + 1 && label_at(c, j1) is Some implies #[trigger] label_at(c, j1)
                    != #[trigger] label_at(c, j2) by {
                    if j2 == i {
                        assert(before[slot[j1]].from@ == label_at(c, j1).unwrap());
                    }
                }
            }
        } else {
            proof {
                slot = slot.push(0);
            }
        }
        i += 1;
    }
    proof {
        assert forall|k: int| 0 <= k < renames@.len() implies declares(c, #[trigger] renames@[k].from@) by {
            assert(label_at(c, src[k]) == Some(renames@[k].from@));
        }
        assert forall|j: int| 0 <= j < c.len() && #[trigger] label_at(c, j) is Some implies exists|k: int|
            0 <= k < renames@.len() && renames@[k].from@ == label_at(c, j).unwrap() by {
            assert(renames@[slot[j]].from@ == label_at(c, j).unwrap());
        }
        if declares_twice(c) {
            let (j1, j2) = choose|j1: int, j2: int| 0 <= j1 < j2 < c.len() && label_at(c, j1) is Some
                && #[trigger] label_at(c, j1) == #[trigger] label_at(c, j2);
            assert(false);
        }
        assert forall|l: Seq<char>| #[trigger] renamed(renames@, l) == local_name(name, c, l, id as nat) by {
            lemma_renamed_local(name, c, renames@, id as nat, l);
        }
    }
    Ok(renames)
}

/// The body of one expansion of `m`, drawn as `id`: each label the body
/// declares takes its fresh name, pushes of those labels follow, and each
/// parameter is replaced by its argument. A label declared twice in the body
/// is returned as the error. A label of the body may share its name with a
/// label outside the macro: inside the expansion, the body's own label is
/// meant, under its fresh name.
pub fn expand_body(m: &InstructionMacroDefinition, args: &Vec<Expression>, id: u64) -> (r: Result<Vec<AbstractOp>, String>)
    requires
        m.parameters@.len() == args@.len(),
    ensures
        r is Err <==> declares_twice(m.contents@),
        r matches Err(l) ==> declares(m.contents@, l@),
        r matches Ok(body) ==> expansion_of(m.name@, m.contents@, m.parameters@, args@, id as nat, body@),
{
    let ghost c = m.contents@;
    let ghost name = m.name@;
    let renames = match fresh_renames(m, id) {
        Ok(renames) => renames,
        Err(l) => {
            return Err(l);
        },
    };
    let mut body: Vec<AbstractOp> = Vec::new();
    let mut j: usize = 0;
    while j < m.contents.len()
        invariant
            j <= c.len(),
            c == m.contents@,
            name == m.name@,
            m.parameters@.len() == args@.len(),
            body@.len() == j,
            forall|l: Seq<char>| #[trigger] renamed(renames@, l) == local_name(name, c, l, id as nat),
            forall|k: int| 0 <= k < j ==> hygienic(#[trigger] c[k], body@[k], name, c, m.parameters@, args@, id as nat),
        decreases c.len() - j,
    {
        let out = m.contents[j].instantiate(&renames, &m.parameters, args);
        proof {
            if let AbstractOp::Label(l) = c[j as int] {
                assert(label_at(c, j as int) == Some(l@));
            }
            assert((|l: Seq<char>| renamed(renames@, l)) =~= local_names(name, c, id as nat));
        }
        let ghost before = body@;
        body.push(out);
        proof {
            assert forall|k: int| 0 <= k < j + 1 implies hygienic(#[trigger] c[k], body@[k], name, c, m.parameters@, args@, id as nat) by {
                if k < j {
                    assert(body@[k] == before[k]);
                }
            }
        }
        j += 1;
    }
    Ok(body)
}

/// The expression that the operation pushes, if it pushes one.
pub open spec fn pushed_expr(op: AbstractOp) -> Option<Expression> {
    match op {
        AbstractOp::Op(_, Some(Imm::Expression(e))) => Some(e),
        AbstractOp::Push(Imm::Expression(e)) => Some(e),
        _ => None,
    }
}

/// Two expansions of the same macro, drawn with different numbers: a label
/// that the body declares gets a different name in each, and in each, a push
/// of that label, or of an expression over labels, refers to the name each
/// label has in the same expansion, with each parameter replaced by its
/// argument.
pub proof fn law_hygiene(
    m: Seq<char>,
    contents: Seq<AbstractOp>,
    params: Seq<String>,
    args: Seq<Expression>,
    a: nat,
    body_a: Seq<AbstractOp>,
    b: nat,
    body_b: Seq<AbstractOp>,
    i: int,
    j: int,
)
    requires
        a != b,
        expansion_of(m, contents, params, args, a, body_a),
        expansion_of(m, contents, params, args, b, body_b),
        0 <= i < contents.len(),
        0 <= j < contents.len(),
        label_at(contents, i) is Some,
        pushed_label(contents[j]) == label_at(contents, i),
    ensures
        label_at(body_a, i) is Some && label_at(body_b, i) is Some,
        label_at(body_a, i) != label_at(body_b, i),
        label_at(body_a, i) == Some(local_names(m, contents, a)(label_at(contents, i).unwrap())),
        label_at(body_b, i) == Some(local_names(m, contents, b)(label_at(contents, i).unwrap())),
        pushed_label(body_a[j]) == label_at(body_a, i),
        pushed_label(body_b[j]) == label_at(body_b, i),
        forall|k: int| 0 <= k < contents.len() && #[trigger] pushed_expr(contents[k]) is Some ==> (pushed_expr(body_a[k]) matches Some(x)
            && relabeled(pushed_expr(contents[k]).unwrap(), x, local_names(m, contents, a), params, args)),
{
    let l = label_at(contents, i).unwrap();
    assert(hygienic(contents[i], body_a[i], m, contents, params, args, a));
    assert(hygienic(contents[i], body_b[i], m, contents, params, args, b));
    assert(hygienic(contents[j], body_a[j], m, contents, params, args, a));
    assert(hygienic(contents[j], body_b[j], m, contents, params, args, b));
    assert(declares(contents, l));
    law_expansion_names_differ(m, l, a, b);
    assert forall|k: int| 0 <= k < contents.len() && #[trigger] pushed_expr(contents[k]) is Some implies (pushed_expr(body_a[k]) matches Some(x)
        && relabeled(pushed_expr(contents[k]).unwrap(), x, local_names(m, contents, a), params, args)) by {
        assert(hygienic(contents[k], body_a[k], m, contents, params, args, a));
    }
}

} // verus!
