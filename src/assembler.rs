//! The assembler: takes in a stream of operations, tracks labels and
//! macros, and hands out the bytes that are ready.

use crate::bigint::{be_value, Int};
use crate::expansion::{declares, declares_twice, expand_body, expansion_of, fresh_id};
use crate::expression::{
    find_label, find_macro, lookup_label, lookup_macro, names_of, ExprError, Expression, LabelEntry,
};
use crate::opcodes::{min_push_width, pow256, Op};
use crate::ops::{
    concretize_result, def_name, encode, imm_value, op_labels, AbstractOp, ConcreteOp, Imm,
    MacroDefinition, OpError, MAX_EXPANSION_DEPTH,
};
use vstd::prelude::*;

verus! {

/// An item to assemble: an operation, or bytes to copy to the output as
/// they are.
#[derive(Debug)]
pub enum RawOp {
    Op(AbstractOp),
    Raw(Vec<u8>),
}

/// A reference to a label not declared yet, and the place in the buffer of
/// the item that made it.
#[derive(Debug, Clone)]
pub struct PendingLabel {
    pub label: String,
    pub position: usize,
}

/// An invocation of an instruction macro not defined yet, and the place in
/// the buffer where its expansion goes.
#[derive(Debug)]
pub struct PendingMacro {
    pub name: String,
    pub parameters: Vec<Expression>,
    pub position: usize,
}

/// Errors that can occur while assembling.
#[derive(Debug)]
pub enum Error {
    /// A label was declared twice.
    DuplicateLabel { label: String },
    /// A macro was defined twice.
    DuplicateMacro { name: String },
    /// An immediate's value does not fit its push.
    ExpressionTooLarge { imm: Imm, value: Int, spec: Op },
    /// An immediate's value is negative.
    ExpressionNegative { imm: Imm, value: Int },
    /// Labels were referred to and never declared.
    UndeclaredLabels { labels: Vec<String> },
    /// An instruction macro was invoked and never defined.
    UndeclaredInstructionMacro { name: String },
    /// An expression macro was invoked and never defined.
    UndeclaredExpressionMacro { name: String },
    /// A variable is bound by no enclosing macro.
    UndefinedVariable { name: String },
    /// A macro was invoked with the wrong number of arguments.
    MacroArity { name: String },
    /// An expression divides by zero.
    DivisionByZero,
    /// Macros expand into one another too deeply.
    RecursionLimit,
    /// An instruction's immediate does not suit its specifier.
    InvalidImmediate,
    /// The output grew past the largest offset that can be held.
    ProgramTooLarge,
}

/// The state of an assembler, as seen from outside.
pub struct AssemblerView {
    /// Items admitted and not taken yet, in output order.
    pub ready: Seq<RawOp>,
    /// The length of the output so far, taken or not, with the widths
    /// currently assumed.
    pub concrete_len: nat,
    /// The smallest total size of the items already taken.
    pub drained: nat,
    /// The labels declared so far.
    pub labels: Seq<LabelEntry>,
    /// The macros defined so far.
    pub macros: Seq<MacroDefinition>,
    /// References to labels not declared yet: the name and the place in
    /// `ready` of the item that made it.
    pub pending_labels: Seq<(Seq<char>, int)>,
    /// Invocations of macros not defined yet: the name, the arguments and
    /// the place in `ready` where the expansion goes.
    pub pending_macros: Seq<(Seq<char>, Seq<Expression>, int)>,
}

/// The fewest bytes that an item in the buffer can take: an unsized push
/// takes at least two.
pub open spec fn min_size(r: RawOp) -> nat {
    match r {
        RawOp::Raw(b) => b@.len(),
        RawOp::Op(AbstractOp::Op(spec, _)) => 1 + spec.imm_len(),
        RawOp::Op(AbstractOp::Push(_)) => 2,
        RawOp::Op(_) => 0,
    }
}

/// The fewest bytes that the items of `s` can take together.
pub open spec fn min_total(s: Seq<RawOp>) -> nat
    decreases s.len(),
{
    if s.len() == 0 {
        0
    } else {
        min_total(s.drop_last()) + min_size(s.last())
    }
}

/// The `n` big-endian bytes of `v`.
pub open spec fn be_bytes(v: nat, n: nat) -> Seq<u8>
    decreases n,
{
    if n == 0 {
        Seq::empty()
    } else {
        be_bytes(v / 256, (n - 1) as nat).push((v % 256) as u8)
    }
}

/// The encoding of an operation, if every label and macro it needs is known
/// and its value fits.
pub open spec fn op_bytes(op: AbstractOp, labels: Seq<LabelEntry>, macros: Seq<MacroDefinition>) -> Option<Seq<u8>> {
    match op {
        AbstractOp::Op(spec, None) => Some(seq![spec.byte()]),
        AbstractOp::Op(spec, Some(imm)) => match imm_value(imm, labels, macros) {
            Ok(v) => if 0 <= v < pow256(spec.imm_len()) {
                Some(seq![spec.byte()] + be_bytes(v as nat, spec.imm_len()))
            } else {
                None
            },
            Err(_) => None,
        },
        AbstractOp::Push(imm) => match imm_value(imm, labels, macros) {
            Ok(v) => if 0 <= v && min_push_width(v as nat) <= 32 {
                let w = min_push_width(v as nat);
                Some(seq![Op::push_of_width(w).byte()] + be_bytes(v as nat, w))
            } else {
                None
            },
            Err(_) => None,
        },
        _ => None,
    }
}

/// The output of the items of `ready`, if each of them can be made concrete.
pub open spec fn drain_spec(ready: Seq<RawOp>, labels: Seq<LabelEntry>, macros: Seq<MacroDefinition>) -> Option<Seq<u8>>
    decreases ready.len(),
{
    if ready.len() == 0 {
        Some(Seq::empty())
    } else {
        match drain_spec(ready.drop_last(), labels, macros) {
            None => None,
            Some(prefix) => match ready.last() {
                RawOp::Raw(b) => Some(prefix + b@),
                RawOp::Op(op) => match op_bytes(op, labels, macros) {
                    Some(enc) => Some(prefix + enc),
                    None => None,
                },
            },
        }
    }
}

/// What `take` returns and leaves: all the buffered bytes, if every item can
/// be made concrete, and otherwise nothing, with the state unchanged.
pub open spec fn take_spec(s: AssemblerView) -> (Seq<u8>, AssemblerView) {
    match drain_spec(s.ready, s.labels, s.macros) {
        Some(out) => (out, AssemblerView { ready: Seq::empty(), drained: s.drained + min_total(s.ready), ..s }),
        None => (Seq::empty(), s),
    }
}

/// Bytes of the right length and value are the big-endian bytes of the value.
pub proof fn lemma_be_bytes_unique(b: Seq<u8>, v: nat)
    requires
        be_value(b) == v,
    ensures
        b == be_bytes(v, b.len()),
    decreases b.len(),
{
    if b.len() > 0 {
        let d = b.drop_last();
        let x = be_value(d);
        let l = b.last() as nat;
        assert(v == x * 256 + l);
        assert(v / 256 == x && v % 256 == l) by (nonlinear_arith)
            requires
                v == x * 256 + l,
                l < 256,
        ;
        lemma_be_bytes_unique(d, x);
        assert(b =~= be_bytes(x, d.len()).push(l as u8));
    } else {
        assert(b =~= Seq::<u8>::empty());
    }
}

/// What a successful concretization encodes to is what `op_bytes` says, and
/// concretization fails exactly where `op_bytes` has nothing.
pub proof fn lemma_concretize_bytes(
    op: AbstractOp,
    labels: Seq<LabelEntry>,
    macros: Seq<MacroDefinition>,
    r: Result<ConcreteOp, OpError>,
)
    requires
        concretize_result(op, labels, macros, r),
    ensures
        r is Ok <==> op_bytes(op, labels, macros) is Some,
        r matches Ok(c) ==> op_bytes(op, labels, macros) == Some(encode(c)),
{
    match op {
        AbstractOp::Push(imm) => match imm_value(imm, labels, macros) {
            Ok(v) => if v >= 0 {
                crate::ops::lemma_fits_min_width(v as nat);
                let w = min_push_width(v as nat);
                if w <= 32 {
                    crate::ops::lemma_push_of_width(w);
                }
            },
            Err(_) => {},
        },
        _ => {},
    }
    match r {
        Ok(c) => {
            lemma_be_bytes_unique(c.imm@, be_value(c.imm@));
            match op {
                AbstractOp::Op(spec, None) => {
                    assert(encode(c) =~= seq![spec.byte()]);
                },
                _ => {},
            }
        },
        Err(_) => {},
    }
}

/// Assembles a stream of items into bytes, resolving labels and macros,
/// and choosing the width of unsized pushes.
pub struct Assembler {
    ready: Vec<RawOp>,
    concrete_len: usize,
    drained: Ghost<nat>,
    declared_labels: Vec<LabelEntry>,
    declared_macros: Vec<MacroDefinition>,
    undefined_labels: Vec<PendingLabel>,
    undefined_macros: Vec<PendingMacro>,
}

/// The pending label references as names and places.
pub open spec fn pending_label_view(p: Seq<PendingLabel>) -> Seq<(Seq<char>, int)> {
    p.map_values(|x: PendingLabel| (x.label@, x.position as int))
}

/// The pending macro invocations as names and places.
pub open spec fn pending_macro_view(p: Seq<PendingMacro>) -> Seq<(Seq<char>, Seq<Expression>, int)> {
    p.map_values(|x: PendingMacro| (x.name@, x.parameters@, x.position as int))
}

impl View for Assembler {
    type V = AssemblerView;

    closed spec fn view(&self) -> AssemblerView {
        AssemblerView {
            ready: self.ready@,
            concrete_len: self.concrete_len as nat,
            drained: self.drained@,
            labels: self.declared_labels@,
            macros: self.declared_macros@,
            pending_labels: pending_label_view(self.undefined_labels@),
            pending_macros: pending_macro_view(self.undefined_macros@),
        }
    }
}

/// Whether a buffered item can be made concrete once its labels are known.
pub open spec fn item_wf(r: RawOp) -> bool {
    match r {
        RawOp::Raw(_) => true,
        RawOp::Op(op) => op.wf() && (op is Op || op is Push),
    }
}

impl AssemblerView {
    /// The invariant of the assembler: every buffered item can be made
    /// concrete, and the length so far covers at least the smallest sizes of
    /// all items admitted.
    pub open spec fn wf(&self) -> bool {
        &&& forall|i: int| 0 <= i < self.ready.len() ==> item_wf(#[trigger] self.ready[i])
        &&& self.concrete_len >= self.drained + min_total(self.ready)
        &&& self.concrete_len <= usize::MAX
    }
}

/// What `finish` reports: the labels still pending, else the first macro
/// still pending, else success.
pub open spec fn finish_ok(s: AssemblerView) -> bool {
    s.pending_labels.len() == 0 && s.pending_macros.len() == 0
}

impl Assembler {
    /// A new assembler, with nothing admitted.
    pub fn new() -> (r: Assembler)
        ensures
            r@.wf(),
            r@.ready.len() == 0,
            r@.concrete_len == 0,
            r@.labels.len() == 0,
            r@.macros.len() == 0,
            r@.pending_labels.len() == 0,
            r@.pending_macros.len() == 0,
    {
        let r = Assembler {
            ready: Vec::new(),
            concrete_len: 0,
            drained: Ghost(0),
            declared_labels: Vec::new(),
            declared_macros: Vec::new(),
            undefined_labels: Vec::new(),
            undefined_macros: Vec::new(),
        };
        proof {
            assert(pending_label_view(r.undefined_labels@).len() == 0);
            assert(pending_macro_view(r.undefined_macros@).len() == 0);
        }
        r
    }

    /// The encoding of every buffered item; as soon as one cannot be made
    /// concrete yet, the labels still pending.
    fn concretize_ops(&self) -> (r: Result<Vec<u8>, Error>)
        requires
            self@.wf(),
        ensures
            match r {
                Ok(out) => drain_spec(self@.ready, self@.labels, self@.macros) == Some(out@),
                Err(e) => drain_spec(self@.ready, self@.labels, self@.macros) is None && (e matches Error::UndeclaredLabels {
                    labels,
                } && labels@.map_values(|s: String| s@) == self@.pending_labels.map_values(|p: (Seq<char>, int)| p.0)),
            },
    {
        let mut out: Vec<u8> = Vec::new();
        let mut i: usize = 0;
        let ghost ready = self.ready@;
        assert(ready.subrange(0, 0) =~= Seq::<RawOp>::empty());
        while i < self.ready.len()
            invariant
                ready == self.ready@,
                self@.wf(),
                i <= ready.len(),
                drain_spec(ready.subrange(0, i as int), self@.labels, self@.macros) == Some(out@),
            decreases ready.len() - i,
        {
            let ghost prefix = ready.subrange(0, i as int + 1);
            assert(prefix.drop_last() =~= ready.subrange(0, i as int));
            assert(item_wf(ready[i as int]));
            match &self.ready[i] {
                RawOp::Raw(b) => {
                    let mut j: usize = 0;
                    let ghost start = out@;
                    while j < b.len()
                        invariant
                            j <= b@.len(),
                            out@ == start + b@.subrange(0, j as int),
                        decreases b@.len() - j,
                    {
                        out.push(b[j]);
                        j += 1;
                        assert(out@ =~= start + b@.subrange(0, j as int));
                    }
                    assert(b@.subrange(0, j as int) =~= b@);
                },
                RawOp::Op(op) => {
                    let c = op.concretize(&self.declared_labels, &self.declared_macros);
                    proof {
                        lemma_concretize_bytes(*op, self@.labels, self@.macros, c);
                    }
                    match c {
                        Ok(c) => {
                            c.assemble(&mut out);
                        },
                        Err(_) => {
                            proof {
                                lemma_drain_stuck(ready, i as int, self@.labels, self@.macros);
                            }
                            return Err(Error::UndeclaredLabels { labels: self.pending_names() });
                        },
                    }
                },
            }
            i += 1;
        }
        assert(ready.subrange(0, i as int) =~= ready);
        Ok(out)
    }

    /// Hands out the bytes of everything admitted so far and empties the
    /// buffer, if every item can be made concrete; otherwise hands out
    /// nothing and keeps the buffer.
    pub fn take(&mut self) -> (r: Vec<u8>)
        requires
            old(self)@.wf(),
        ensures
            final(self)@.wf(),
            (r@, final(self)@) == take_spec(old(self)@),
    {
        match self.concretize_ops() {
            Ok(out) => {
                proof {
                    self.drained = Ghost(self.drained@ + min_total(self.ready@));
                }
                self.ready.clear();
                proof {
                    assert(self@.ready =~= Seq::<RawOp>::empty());
                }
                out
            },
            Err(_) => Vec::new(),
        }
    }

    /// The names of the labels referred to and not declared yet, in the
    /// order of the references.
    fn pending_names(&self) -> (r: Vec<String>)
        ensures
            r@.map_values(|s: String| s@) == self@.pending_labels.map_values(|p: (Seq<char>, int)| p.0),
    {
        let mut labels: Vec<String> = Vec::new();
        let mut i: usize = 0;
        while i < self.undefined_labels.len()
            invariant
                i <= self.undefined_labels@.len(),
                labels@.map_values(|s: String| s@) =~= self.undefined_labels@.subrange(0, i as int).map_values(
                    |p: PendingLabel| p.label@,
                ),
            decreases self.undefined_labels@.len() - i,
        {
            let ghost before = labels@;
            labels.push(self.undefined_labels[i].label.clone());
            i += 1;
            proof {
                assert(labels@.map_values(|s: String| s@) =~= before.map_values(|s: String| s@).push(
                    self.undefined_labels@[i - 1].label@,
                ));
                assert(self.undefined_labels@.subrange(0, i as int).map_values(|p: PendingLabel| p.label@)
                    =~= self.undefined_labels@.subrange(0, i - 1).map_values(|p: PendingLabel| p.label@).push(
                    self.undefined_labels@[i - 1].label@,
                ));
            }
        }
        proof {
            assert(self.undefined_labels@.subrange(0, i as int) =~= self.undefined_labels@);
            assert(self@.pending_labels.map_values(|p: (Seq<char>, int)| p.0) =~= self.undefined_labels@.map_values(
                |p: PendingLabel| p.label@,
            ));
        }
        labels
    }

    /// Checks that nothing is left pending: every label referred to is
    /// declared, and every macro invoked is defined.
    pub fn finish(&self) -> (r: Result<(), Error>)
        ensures
            r is Ok <==> finish_ok(self@),
            self@.pending_labels.len() > 0 ==> (r matches Err(Error::UndeclaredLabels { labels })
                && labels@.map_values(|s: String| s@) == self@.pending_labels.map_values(|p: (Seq<char>, int)| p.0)),
            self@.pending_labels.len() == 0 && self@.pending_macros.len() > 0 ==> (r matches Err(
                Error::UndeclaredInstructionMacro { name },
            ) && name@ == self@.pending_macros[0].0),
    {
        if self.undefined_labels.len() > 0 {
            return Err(Error::UndeclaredLabels { labels: self.pending_names() });
        }
        if self.undefined_macros.len() > 0 {
            return Err(Error::UndeclaredInstructionMacro { name: self.undefined_macros[0].name.clone() });
        }
        Ok(())
    }
}

/// Once an item cannot be made concrete, neither can any buffer that holds
/// it.
proof fn lemma_drain_stuck(ready: Seq<RawOp>, i: int, labels: Seq<LabelEntry>, macros: Seq<MacroDefinition>)
    requires
        0 <= i < ready.len(),
        ready[i] matches RawOp::Op(op) && op_bytes(op, labels, macros) is None,
    ensures
        drain_spec(ready, labels, macros) is None,
    decreases ready.len(),
{
    if i < ready.len() - 1 {
        lemma_drain_stuck(ready.drop_last(), i, labels, macros);
    }
}


/// Where an item goes: at the end, or at a place in the buffer (the end, if
/// the place is past it).
pub open spec fn place(ready: Seq<RawOp>, pos: Option<usize>, item: RawOp) -> Seq<RawOp> {
    match pos {
        Some(p) => if p <= ready.len() {
            ready.insert(p as int, item)
        } else {
            ready.push(item)
        },
        None => ready.push(item),
    }
}

/// How far a label declared now is pushed out, to leave room for widening
/// the unsized pushes that referred to it before: for each such reference,
/// one byte per 256 bytes between it and the label, and the largest of
/// these.
pub open spec fn correction(p: Seq<(Seq<char>, int)>, l: Seq<char>, len: nat) -> nat
    decreases p.len(),
{
    if p.len() == 0 {
        0
    } else {
        let rest = correction(p.drop_last(), l, len);
        let (name, pos) = p.last();
        let here: nat = if name == l && pos <= len {
            ((len - pos) / 256) as nat
        } else {
            0
        };
        if here > rest {
            here
        } else {
            rest
        }
    }
}

/// The pending references without those to `l`.
pub open spec fn without_label(p: Seq<(Seq<char>, int)>, l: Seq<char>) -> Seq<(Seq<char>, int)>
    decreases p.len(),
{
    if p.len() == 0 {
        Seq::empty()
    } else {
        let rest = without_label(p.drop_last(), l);
        if p.last().0 == l {
            rest
        } else {
            rest.push(p.last())
        }
    }
}

/// The references, made at `pos`, to those of `names` not declared yet.
pub open spec fn new_refs(names: Seq<Seq<char>>, labels: Seq<LabelEntry>, pos: int) -> Seq<(Seq<char>, int)>
    decreases names.len(),
{
    if names.len() == 0 {
        Seq::empty()
    } else {
        let rest = new_refs(names.drop_last(), labels, pos);
        if find_label(labels, names.last()) is None {
            rest.push((names.last(), pos))
        } else {
            rest
        }
    }
}

/// The error that admitting an instruction gives when its immediate has no
/// value for a reason other than a label not declared yet.
pub open spec fn eval_error(e: ExprError, r: Result<(), Error>) -> bool {
    match e {
        ExprError::UnknownLabel(_) => true,
        ExprError::UnknownMacro(n) => r matches Err(Error::UndeclaredExpressionMacro { name }) && name@ == n@,
        ExprError::UndefinedVariable(n) => r matches Err(Error::UndefinedVariable { name }) && name@ == n@,
        ExprError::MacroArity(n) => r matches Err(Error::MacroArity { name }) && name@ == n@,
        ExprError::DivisionByZero => r matches Err(Error::DivisionByZero),
        ExprError::RecursionLimit => r matches Err(Error::RecursionLimit),
    }
}

/// The value of an instruction's immediate, if it has one.
pub open spec fn op_value(op: AbstractOp, labels: Seq<LabelEntry>, macros: Seq<MacroDefinition>) -> Option<Result<int, ExprError>> {
    match op {
        AbstractOp::Op(_, Some(imm)) => Some(imm_value(imm, labels, macros)),
        AbstractOp::Push(imm) => Some(imm_value(imm, labels, macros)),
        _ => None,
    }
}

/// The size an instruction takes in the buffer once admitted: its final
/// size if its value is known, else its specifier's size, or two bytes for
/// an unsized push.
pub open spec fn admitted_size(op: AbstractOp, labels: Seq<LabelEntry>, macros: Seq<MacroDefinition>) -> nat {
    match op {
        AbstractOp::Op(spec, _) => 1 + spec.imm_len(),
        AbstractOp::Push(imm) => match imm_value(imm, labels, macros) {
            Ok(v) => if v >= 0 {
                1 + min_push_width(v as nat)
            } else {
                2
            },
            Err(_) => 2,
        },
        _ => 0,
    }
}

/// Whether admitting an instruction succeeds: its value, if any, is either
/// waiting for a label or fits.
pub open spec fn op_admissible(op: AbstractOp, labels: Seq<LabelEntry>, macros: Seq<MacroDefinition>) -> bool {
    match op_value(op, labels, macros) {
        None => true,
        Some(Err(ExprError::UnknownLabel(_))) => true,
        Some(Err(_)) => false,
        Some(Ok(v)) => v >= 0 && match op {
            AbstractOp::Op(spec, _) => v < pow256(spec.imm_len()),
            _ => min_push_width(v as nat) <= 32,
        },
    }
}

/// The error of an instruction that cannot be admitted.
pub open spec fn op_refusal(op: AbstractOp, labels: Seq<LabelEntry>, macros: Seq<MacroDefinition>, r: Result<(), Error>) -> bool {
    match op_value(op, labels, macros) {
        Some(Err(e)) => eval_error(e, r),
        Some(Ok(v)) => if v < 0 {
            r matches Err(Error::ExpressionNegative { imm, value }) && value@ == v && op_imm(op) == Some(imm)
        } else {
            r matches Err(Error::ExpressionTooLarge { imm, value, spec }) && value@ == v && op_imm(op) == Some(imm)
                && spec == match op {
                AbstractOp::Op(s, _) => s,
                _ => Op::push_of_width(32),
            }
        },
        None => false,
    }
}

/// What admitting `rop` at `pos` does, with macros expanding at most
/// `depth` levels deep: `r` is the result and `new` the state after.
pub open spec fn admitted(
    old: AssemblerView,
    rop: RawOp,
    pos: Option<usize>,
    depth: nat,
    r: Result<(), Error>,
    new: AssemblerView,
) -> bool
    decreases depth, 4nat,
{
    match rop {
        RawOp::Raw(b) => if old.concrete_len + b@.len() > usize::MAX {
            r matches Err(Error::ProgramTooLarge) && new == old
        } else {
            r is Ok && new == AssemblerView {
                ready: place(old.ready, pos, rop),
                concrete_len: old.concrete_len + b@.len(),
                ..old
            }
        },
        RawOp::Op(AbstractOp::Label(l)) => if find_label(old.labels, l@) is Some {
            r matches Err(Error::DuplicateLabel { label }) && label@ == l@ && new == old
        } else if old.concrete_len + correction(old.pending_labels, l@, old.concrete_len) > usize::MAX {
            r matches Err(Error::ProgramTooLarge) && new == old
        } else {
            r is Ok && new == AssemblerView {
                labels: old.labels.push(
                    LabelEntry {
                        name: l,
                        address: Some(
                            (old.concrete_len + correction(old.pending_labels, l@, old.concrete_len)) as usize,
                        ),
                    },
                ),
                pending_labels: without_label(old.pending_labels, l@),
                ..old
            }
        },
        RawOp::Op(AbstractOp::MacroDefinition(d)) => defined(old, d, depth, r, new),
        RawOp::Op(AbstractOp::Macro(inv)) => invoked(old, inv.name@, inv.parameters@, None, depth, r, new),
        RawOp::Op(op) => if !op.wf() {
            r matches Err(Error::InvalidImmediate) && new == old
        } else if !op_admissible(op, old.labels, old.macros) {
            op_refusal(op, old.labels, old.macros, r) && new == old
        } else if old.concrete_len + admitted_size(op, old.labels, old.macros) > usize::MAX {
            r matches Err(Error::ProgramTooLarge) && new == old
        } else {
            r is Ok && new == AssemblerView {
                ready: place(old.ready, pos, rop),
                concrete_len: old.concrete_len + admitted_size(op, old.labels, old.macros),
                pending_labels: old.pending_labels + new_refs(
                    op_labels(op, old.macros),
                    old.labels,
                    old.ready.len() as int,
                ),
                ..old
            }
        },
    }
}

/// `a + b`, or the largest `usize` if that is more.
pub open spec fn sat_add(a: nat, b: nat) -> nat {
    if a + b > usize::MAX {
        usize::MAX as nat
    } else {
        a + b
    }
}

/// Where an item of an expansion placed at `position` goes, once the
/// buffer has grown from `start` to `len` items: after those inserted
/// before it, or at the end.
pub open spec fn item_pos(position: Option<usize>, start: nat, len: nat) -> Option<usize> {
    match position {
        Some(p) => Some(sat_add(p as nat, if len >= start { (len - start) as nat } else { 0 }) as usize),
        None => None,
    }
}

/// Admitting the operations of `items` in turn, from `states[0]`, the
/// states in between being `states`: each succeeds, up to the last, which
/// gives `r` and `new`.
pub open spec fn in_turn(
    items: Seq<AbstractOp>,
    states: Seq<AssemblerView>,
    position: Option<usize>,
    start: nat,
    depth: nat,
    r: Result<(), Error>,
    new: AssemblerView,
) -> bool
    decreases depth, 5nat,
{
    &&& 1 <= states.len() <= items.len() + 1
    &&& forall|k: int|
        0 <= k < states.len() - 1 ==> admitted(
            #[trigger] states[k],
            RawOp::Op(items[k]),
            item_pos(position, start, states[k].ready.len()),
            depth,
            Ok(()),
            states[k + 1],
        )
    &&& match r {
        Ok(()) => states.len() == items.len() + 1 && states.last() == new,
        Err(_) => states.len() <= items.len() && admitted(
            states.last(),
            RawOp::Op(items[states.len() - 1]),
            item_pos(position, start, states.last().ready.len()),
            depth,
            r,
            new,
        ),
    }
}

/// What invoking the macro `name` with `args`, to expand at `position` or
/// at the end, does. An invocation of a macro that is not an instruction
/// macro defined so far waits for its definition. Otherwise, with the
/// right number of arguments and depth to spare, and no label declared
/// twice in the body, the body of one expansion (each label under a fresh
/// name) is admitted item by item.
pub open spec fn invoked(
    old: AssemblerView,
    name: Seq<char>,
    args: Seq<Expression>,
    position: Option<usize>,
    depth: nat,
    r: Result<(), Error>,
    new: AssemblerView,
) -> bool
    decreases depth, 1nat,
{
    match find_macro(old.macros, name) {
        Some(k) if old.macros[k] is Instruction => {
            let m = old.macros[k]->Instruction_0;
            if m.parameters@.len() != args.len() {
                r matches Err(Error::MacroArity { name: e }) && e@ == name && new == old
            } else if depth == 0 {
                r matches Err(Error::RecursionLimit) && new == old
            } else if declares_twice(m.contents@) {
                r matches Err(Error::DuplicateLabel { label }) && declares(m.contents@, label@) && new == old
            } else {
                exists|id: nat, body: Seq<AbstractOp>, states: Seq<AssemblerView>|
                    #[trigger] expansion_of(m.name@, m.contents@, m.parameters@, args, id, body) && #[trigger] states[0] == old && in_turn(
                        body,
                        states,
                        position,
                        old.ready.len(),
                        (depth - 1) as nat,
                        r,
                        new,
                    )
            }
        },
        _ => r is Ok && new == AssemblerView {
            pending_macros: old.pending_macros.push((name, args, old.ready.len() as int)),
            ..old
        },
    }
}

/// The pending invocations of the macro `name`, in order.
pub open spec fn waiting_for(p: Seq<(Seq<char>, Seq<Expression>, int)>, name: Seq<char>) -> Seq<(Seq<char>, Seq<Expression>, int)>
    decreases p.len(),
{
    if p.len() == 0 {
        Seq::empty()
    } else if p.last().0 == name {
        waiting_for(p.drop_last(), name).push(p.last())
    } else {
        waiting_for(p.drop_last(), name)
    }
}

/// The pending invocations of macros other than `name`, in order.
pub open spec fn not_waiting_for(p: Seq<(Seq<char>, Seq<Expression>, int)>, name: Seq<char>) -> Seq<(Seq<char>, Seq<Expression>, int)>
    decreases p.len(),
{
    if p.len() == 0 {
        Seq::empty()
    } else if p.last().0 == name {
        not_waiting_for(p.drop_last(), name)
    } else {
        not_waiting_for(p.drop_last(), name).push(p.last())
    }
}

/// How many items the `i`-th expansion inserted.
pub open spec fn grew(states: Seq<AssemblerView>, i: int) -> nat {
    if states[i + 1].ready.len() >= states[i].ready.len() {
        (states[i + 1].ready.len() - states[i].ready.len()) as nat
    } else {
        0
    }
}

/// `wait_pos` looks only at the states up to the expansions it counts.
pub proof fn lemma_wait_pos_prefix(
    w: Seq<(Seq<char>, Seq<Expression>, int)>,
    s1: Seq<AssemblerView>,
    s2: Seq<AssemblerView>,
    k: int,
    i: int,
)
    requires
        i < s1.len(),
        i < s2.len(),
        forall|j: int| 0 <= j <= i ==> s1[j] == s2[j],
    ensures
        wait_pos(w, s1, k, i) == wait_pos(w, s2, k, i),
    decreases i,
{
    if i > 0 {
        lemma_wait_pos_prefix(w, s1, s2, k, i - 1);
        assert(s1[i - 1] == s2[i - 1] && s1[i] == s2[i]);
    }
}

/// Where the `k`-th waiting invocation expands, counting the items that the
/// first `i` expansions inserted at or before its place.
pub open spec fn wait_pos(w: Seq<(Seq<char>, Seq<Expression>, int)>, states: Seq<AssemblerView>, k: int, i: int) -> nat
    decreases i,
{
    if i <= 0 {
        w[k].2 as nat
    } else if w[i - 1].2 <= w[k].2 {
        sat_add(wait_pos(w, states, k, i - 1), grew(states, i - 1))
    } else {
        wait_pos(w, states, k, i - 1)
    }
}

/// Expanding the waiting invocations `w` in turn, from `states[0]`: each
/// at its recorded place, moved past the items that earlier ones inserted
/// at or before it.
pub open spec fn waits_in_turn(
    w: Seq<(Seq<char>, Seq<Expression>, int)>,
    states: Seq<AssemblerView>,
    depth: nat,
    r: Result<(), Error>,
    new: AssemblerView,
) -> bool
    decreases depth, 2nat,
{
    &&& 1 <= states.len() <= w.len() + 1
    &&& forall|k: int|
        0 <= k < states.len() - 1 ==> invoked(
            #[trigger] states[k],
            w[k].0,
            w[k].1,
            Some(wait_pos(w, states, k, k) as usize),
            depth,
            Ok(()),
            states[k + 1],
        )
    &&& match r {
        Ok(()) => states.len() == w.len() + 1 && states.last() == new,
        Err(_) => states.len() <= w.len() && invoked(
            states.last(),
            w[states.len() - 1].0,
            w[states.len() - 1].1,
            Some(wait_pos(w, states, states.len() - 1, states.len() - 1) as usize),
            depth,
            r,
            new,
        ),
    }
}

/// What defining `d` does: a second definition of a name fails; a new one
/// is registered, and the invocations waiting for it are expanded in turn.
pub open spec fn defined(old: AssemblerView, d: MacroDefinition, depth: nat, r: Result<(), Error>, new: AssemblerView) -> bool
    decreases depth, 3nat,
{
    if find_macro(old.macros, def_name(d)) is Some {
        r matches Err(Error::DuplicateMacro { name }) && name@ == def_name(d) && new == old
    } else {
        exists|states: Seq<AssemblerView>|
            #[trigger] states[0] == AssemblerView {
                macros: old.macros.push(d),
                pending_macros: not_waiting_for(old.pending_macros, def_name(d)),
                ..old
            } && waits_in_turn(waiting_for(old.pending_macros, def_name(d)), states, depth, r, new)
    }
}

/// Admitting an item that is not a macro does not depend on the depth, and
/// admitting a macro definition or invocation is defining or invoking it.
proof fn lemma_admitted_depth(old: AssemblerView, rop: RawOp, pos: Option<usize>, depth: nat, r: Result<(), Error>, new: AssemblerView)
    requires
        match rop {
            RawOp::Op(AbstractOp::MacroDefinition(d)) => defined(old, d, depth, r, new),
            RawOp::Op(AbstractOp::Macro(inv)) => invoked(old, inv.name@, inv.parameters@, None, depth, r, new),
            _ => admitted(old, rop, pos, 0, r, new),
        },
    ensures
        admitted(old, rop, pos, depth, r, new),
{
}

/// Declarations only accumulate: labels and macros, once there, stay.
pub open spec fn grows(old: AssemblerView, new: AssemblerView) -> bool {
    &&& old.labels.len() <= new.labels.len()
    &&& new.labels.subrange(0, old.labels.len() as int) == old.labels
    &&& old.macros.len() <= new.macros.len()
    &&& new.macros.subrange(0, old.macros.len() as int) == old.macros
}

/// Any state grows into itself.
pub proof fn lemma_grows_refl(s: AssemblerView)
    ensures
        grows(s, s),
{
    assert(s.labels.subrange(0, s.labels.len() as int) =~= s.labels);
    assert(s.macros.subrange(0, s.macros.len() as int) =~= s.macros);
}

/// Appending an item adds its smallest size.
pub proof fn lemma_min_total_push(s: Seq<RawOp>, x: RawOp)
    ensures
        min_total(s.push(x)) == min_total(s) + min_size(x),
{
    assert(s.push(x).drop_last() =~= s);
}

/// Inserting an item anywhere adds its smallest size.
pub proof fn lemma_min_total_insert(s: Seq<RawOp>, i: int, x: RawOp)
    requires
        0 <= i <= s.len(),
    ensures
        min_total(s.insert(i, x)) == min_total(s) + min_size(x),
    decreases s.len(),
{
    if i == s.len() {
        assert(s.insert(i, x) =~= s.push(x));
        lemma_min_total_push(s, x);
    } else {
        let t = s.insert(i, x);
        assert(t.drop_last() =~= s.drop_last().insert(i, x));
        assert(t.last() == s.last());
        lemma_min_total_insert(s.drop_last(), i, x);
    }
}

/// Placing an item adds its smallest size, and keeps every other item.
pub proof fn lemma_place(s: Seq<RawOp>, pos: Option<usize>, x: RawOp)
    ensures
        min_total(place(s, pos, x)) == min_total(s) + min_size(x),
        place(s, pos, x).len() == s.len() + 1,
        forall|i: int| 0 <= i < place(s, pos, x).len() ==> #[trigger] place(s, pos, x)[i] == x || exists|j: int|
            0 <= j < s.len() && place(s, pos, x)[i] == s[j],
{
    match pos {
        Some(p) => if p <= s.len() {
            lemma_min_total_insert(s, p as int, x);
            assert forall|i: int| 0 <= i < place(s, pos, x).len() implies #[trigger] place(s, pos, x)[i] == x || exists|j: int|
                0 <= j < s.len() && place(s, pos, x)[i] == s[j] by {
                if i < p {
                    assert(place(s, pos, x)[i] == s[i]);
                } else if i > p {
                    assert(place(s, pos, x)[i] == s[i - 1]);
                }
            }
        } else {
            lemma_min_total_push(s, x);
            assert forall|i: int| 0 <= i < place(s, pos, x).len() implies #[trigger] place(s, pos, x)[i] == x || exists|j: int|
                0 <= j < s.len() && place(s, pos, x)[i] == s[j] by {
                if i < s.len() {
                    assert(place(s, pos, x)[i] == s[i]);
                }
            }
        },
        None => {
            lemma_min_total_push(s, x);
            assert forall|i: int| 0 <= i < place(s, pos, x).len() implies #[trigger] place(s, pos, x)[i] == x || exists|j: int|
                0 <= j < s.len() && place(s, pos, x)[i] == s[j] by {
                if i < s.len() {
                    assert(place(s, pos, x)[i] == s[i]);
                }
            }
        },
    }
}

impl Assembler {
    /// Puts an item into the buffer, at `pos` or at the end.
    fn place_item(&mut self, item: RawOp, pos: Option<usize>)
        ensures
            final(self)@ == (AssemblerView { ready: place(old(self)@.ready, pos, item), ..old(self)@ }),
    {
        match pos {
            Some(p) => {
                if p <= self.ready.len() {
                    self.ready.insert(p, item);
                } else {
                    self.ready.push(item);
                }
            },
            None => {
                self.ready.push(item);
            },
        }
    }

    /// Declares the label `l` at the current offset, pushed out to leave room
    /// for widening the unsized pushes that referred to it before.
    fn declare_label(&mut self, l: String) -> (r: Result<(), Error>)
        requires
            old(self)@.wf(),
        ensures
            final(self)@.wf(),
            grows(old(self)@, final(self)@),
            admitted(old(self)@, RawOp::Op(AbstractOp::Label(l)), None, 0, r, final(self)@),
    {
        proof {
            lemma_grows_refl(self@);
        }
        if lookup_label(&self.declared_labels, &l).is_some() {
            return Err(Error::DuplicateLabel { label: l });
        }
        let ghost pend = self@.pending_labels;
        let len = self.concrete_len;
        let mut dst: usize = 0;
        let mut kept: Vec<PendingLabel> = Vec::new();
        let mut i: usize = 0;
        while i < self.undefined_labels.len()
            invariant
                i <= self.undefined_labels@.len(),
                pend == pending_label_view(self.undefined_labels@),
                len == self.concrete_len,
                dst == correction(pend.subrange(0, i as int), l@, len as nat),
                pending_label_view(kept@) == without_label(pend.subrange(0, i as int), l@),
                dst <= len,
            decreases self.undefined_labels@.len() - i,
        {
            let ghost sub = pend.subrange(0, i as int + 1);
            assert(sub.drop_last() =~= pend.subrange(0, i as int));
            let p = &self.undefined_labels[i];
            if p.label == l {
                if p.position <= len {
                    let here = (len - p.position) / 256;
                    if here > dst {
                        dst = here;
                    }
                }
            } else {
                let ghost before = kept@;
                kept.push(PendingLabel { label: p.label.clone(), position: p.position });
                assert(pending_label_view(kept@) =~= pending_label_view(before).push(sub.last()));
            }
            i += 1;
        }
        assert(pend.subrange(0, i as int) =~= pend);
        if len > usize::MAX - dst {
            return Err(Error::ProgramTooLarge);
        }
        let addr = len + dst;
        self.undefined_labels = kept;
        let ghost before = self.declared_labels@;
        self.declared_labels.push(LabelEntry { name: l, address: Some(addr) });
        proof {
            assert(self.declared_labels@.subrange(0, before.len() as int) =~= before);
            assert(self@.macros.subrange(0, self@.macros.len() as int) =~= self@.macros);
        }
        Ok(())
    }

    /// Admits bytes to copy to the output as they are.
    fn push_raw(&mut self, b: Vec<u8>, pos: Option<usize>) -> (r: Result<(), Error>)
        requires
            old(self)@.wf(),
        ensures
            final(self)@.wf(),
            grows(old(self)@, final(self)@),
            admitted(old(self)@, RawOp::Raw(b), pos, 0, r, final(self)@),
    {
        proof {
            lemma_grows_refl(self@);
        }
        if self.concrete_len > usize::MAX - b.len() {
            return Err(Error::ProgramTooLarge);
        }
        self.concrete_len = self.concrete_len + b.len();
        let ghost old_ready = self.ready@;
        let ghost item = RawOp::Raw(b);
        self.place_item(RawOp::Raw(b), pos);
        proof {
            lemma_place(old_ready, pos, item);
            assert forall|i: int| 0 <= i < self@.ready.len() implies item_wf(#[trigger] self@.ready[i]) by {
                if self@.ready[i] != item {
                    let j = choose|j: int| 0 <= j < old_ready.len() && place(old_ready, pos, item)[i] == old_ready[j];
                    assert(item_wf(old_ready[j]));
                }
            }
            assert(self@.labels.subrange(0, self@.labels.len() as int) =~= self@.labels);
            assert(self@.macros.subrange(0, self@.macros.len() as int) =~= self@.macros);
        }
        Ok(())
    }

    /// Records the references of an instruction to labels not declared yet.
    fn record_refs(&mut self, op: &AbstractOp)
        ensures
            final(self)@ == (AssemblerView {
                pending_labels: old(self)@.pending_labels + new_refs(
                    op_labels(*op, old(self)@.macros),
                    old(self)@.labels,
                    old(self)@.ready.len() as int,
                ),
                ..old(self)@
            }),
    {
        let names = op.labels(&self.declared_macros);
        let position = self.ready.len();
        let ghost start = self@.pending_labels;
        let ghost v0 = self@;
        let ghost ns = names_of(names@);
        let mut i: usize = 0;
        assert(ns.subrange(0, 0) =~= Seq::<Seq<char>>::empty());
        assert(start + Seq::<(Seq<char>, int)>::empty() =~= start);
        while i < names.len()
            invariant
                i <= names@.len(),
                ns == names_of(names@),
                ns == op_labels(*op, self@.macros),
                position == self@.ready.len(),
                self@ == (AssemblerView { pending_labels: self@.pending_labels, ..v0 }),
                self@.pending_labels == start + new_refs(ns.subrange(0, i as int), self@.labels, position as int),
            decreases names@.len() - i,
        {
            let ghost sub = ns.subrange(0, i as int + 1);
            assert(sub.drop_last() =~= ns.subrange(0, i as int));
            let ghost before = self@.pending_labels;
            if lookup_label(&self.declared_labels, &names[i]).is_none() {
                self.undefined_labels.push(PendingLabel { label: names[i].clone(), position });
                assert(pending_label_view(self.undefined_labels@) =~= before.push((ns[i as int], position as int)));
            }
            i += 1;
        }
        assert(ns.subrange(0, i as int) =~= ns);
    }

    /// Admits an instruction or an unsized push.
    fn push_op(&mut self, op: AbstractOp, pos: Option<usize>) -> (r: Result<(), Error>)
        requires
            old(self)@.wf(),
            op is Op || op is Push,
        ensures
            final(self)@.wf(),
            grows(old(self)@, final(self)@),
            admitted(old(self)@, RawOp::Op(op), pos, 0, r, final(self)@),
    {
        proof {
            lemma_grows_refl(self@);
        }
        if !op.is_wf() {
            return Err(Error::InvalidImmediate);
        }
        let ghost old_view = self@;
        let c = op.concretize(&self.declared_labels, &self.declared_macros);
        proof {
            match op_value(op, old_view.labels, old_view.macros) {
                Some(Ok(v)) => if v >= 0 {
                    crate::ops::lemma_fits_min_width(v as nat);
                    if min_push_width(v as nat) <= 32 {
                        crate::ops::lemma_push_of_width(min_push_width(v as nat));
                    }
                },
                _ => {},
            }
        }
        let size: usize = match c {
            Ok(cop) => cop.size(),
            Err(OpError::ContextIncomplete(ExprError::UnknownLabel(_))) => match op.size() {
                Some(n) => n as usize,
                None => 2,
            },
            Err(OpError::ContextIncomplete(e)) => {
                return Err(
                    match e {
                        ExprError::UnknownMacro(name) => Error::UndeclaredExpressionMacro { name },
                        ExprError::UndefinedVariable(name) => Error::UndefinedVariable { name },
                        ExprError::MacroArity(name) => Error::MacroArity { name },
                        ExprError::DivisionByZero => Error::DivisionByZero,
                        _ => Error::RecursionLimit,
                    },
                );
            },
            Err(OpError::ExpressionTooLarge { value, spec }) => {
                return Err(Error::ExpressionTooLarge { imm: into_imm(op), value, spec });
            },
            Err(OpError::ExpressionNegative { value }) => {
                return Err(Error::ExpressionNegative { imm: into_imm(op), value });
            },
        };
        if self.concrete_len > usize::MAX - size {
            return Err(Error::ProgramTooLarge);
        }
        self.record_refs(&op);
        proof {
            lemma_grows_refl(self@);
        }
        self.concrete_len = self.concrete_len + size;
        let ghost old_ready = self.ready@;
        let ghost item = RawOp::Op(op);
        self.place_item(RawOp::Op(op), pos);
        proof {
            lemma_place(old_ready, pos, item);
            assert forall|i: int| 0 <= i < self@.ready.len() implies item_wf(#[trigger] self@.ready[i]) by {
                if self@.ready[i] != item {
                    let j = choose|j: int| 0 <= j < old_ready.len() && place(old_ready, pos, item)[i] == old_ready[j];
                    assert(item_wf(old_ready[j]));
                }
            }
        }
        Ok(())
    }

    /// Expands an invocation of the instruction macro `name` at `position`,
    /// or at the end; an invocation of a macro not defined yet waits for its
    /// definition. Each expansion gives the labels declared in the body
    /// fresh names, and replaces each parameter by its argument.
    fn expand_macro(&mut self, name: String, params: Vec<Expression>, position: Option<usize>, depth: usize) -> (r: Result<(), Error>)
        requires
            old(self)@.wf(),
        ensures
            final(self)@.wf(),
            grows(old(self)@, final(self)@),
            invoked(old(self)@, name@, params@, position, depth as nat, r, final(self)@),
        decreases depth, 0nat,
    {
        proof {
            lemma_grows_refl(self@);
        }
        let ghost v0 = self@;
        let ghost mut id_g: nat = 0;
        let found = lookup_macro(&self.declared_macros, &name);
        let body: Option<Vec<AbstractOp>> = match found {
            Some(k) => match &self.declared_macros[k] {
                MacroDefinition::Instruction(m) => {
                    if m.parameters.len() != params.len() {
                        return Err(Error::MacroArity { name });
                    }
                    if depth == 0 {
                        return Err(Error::RecursionLimit);
                    }
                    let id = fresh_id();
                    proof {
                        id_g = id as nat;
                    }
                    match expand_body(m, &params, id) {
                        Ok(body) => Some(body),
                        Err(label) => {
                            return Err(Error::DuplicateLabel { label });
                        },
                    }
                },
                _ => None,
            },
            None => None,
        };
        match body {
            None => {
                let position = self.ready.len();
                let ghost before = self@.pending_macros;
                let ghost key = (name@, params@, position as int);
                self.undefined_macros.push(PendingMacro { name, parameters: params, position });
                proof {
                    lemma_grows_refl(self@);
                    assert(self@.pending_macros =~= before.push(key));
                }
                Ok(())
            },
            Some(body) => {
                let ghost m = v0.macros[find_macro(v0.macros, name@).unwrap()]->Instruction_0;
                assert(expansion_of(m.name@, m.contents@, m.parameters@, params@, id_g, body@));
                let ghost items = body@;
                let r = self.admit_body(body, position, depth - 1);
                proof {
                    let states = choose|states: Seq<AssemblerView>| #[trigger] states[0] == v0 && in_turn(
                        items,
                        states,
                        position,
                        v0.ready.len(),
                        (depth - 1) as nat,
                        r,
                        self@,
                    );
                    assert(expansion_of(m.name@, m.contents@, m.parameters@, params@, id_g, items) && states[0] == v0);
                }
                r
            },
        }
    }

    /// Admits the operations of a macro body in turn, the first at
    /// `position` and each next one after it (or all at the end), stopping
    /// at the first error.
    #[verifier::loop_isolation(false)]
    fn admit_body(&mut self, body: Vec<AbstractOp>, position: Option<usize>, depth: usize) -> (r: Result<(), Error>)
        requires
            old(self)@.wf(),
        ensures
            final(self)@.wf(),
            grows(old(self)@, final(self)@),
            exists|states: Seq<AssemblerView>| #[trigger] states[0] == old(self)@ && in_turn(
                body@,
                states,
                position,
                old(self)@.ready.len(),
                depth as nat,
                r,
                final(self)@,
            ),
        decreases depth, 3nat,
    {
        proof {
            lemma_grows_refl(self@);
        }
        let ghost v0 = self@;
        let ghost items = body@;
        let ghost n = items.len();
        let mut body = body;
        let start = self.ready.len();
        let ghost mut states: Seq<AssemblerView> = seq![v0];
        assert(body@ =~= items.subrange(0, n as int));
        while body.len() > 0
            invariant
                self@.wf(),
                grows(v0, self@),
                n == items.len(),
                body@.len() <= n,
                body@ == items.subrange(n - body@.len(), n as int),
                states.len() == n - body@.len() + 1,
                states[0] == v0,
                states.last() == self@,
                start == v0.ready.len(),
                forall|k: int|
                    0 <= k < states.len() - 1 ==> admitted(
                        #[trigger] states[k],
                        RawOp::Op(items[k]),
                        item_pos(position, start as nat, states[k].ready.len()),
                        depth as nat,
                        Ok(()),
                        states[k + 1],
                    ),
            decreases body@.len(),
        {
            let ghost k = n - body@.len();
            let ghost bvec = body@;
            let op = body.remove(0);
            proof {
                assert(op == items[k]);
                assert(body@ =~= items.subrange(k + 1, n as int));
            }
            let at = match position {
                Some(p) => Some(p.saturating_add(self.ready.len().saturating_sub(start))),
                None => None,
            };
            assert(at == item_pos(position, start as nat, self@.ready.len()));
            let ghost before = self@;
            let res = self.push_at(RawOp::Op(op), at, depth);
            proof {
                lemma_grows_trans(v0, before, self@);
            }
            match res {
                Ok(()) => {
                    proof {
                        let prev = states;
                        states = states.push(self@);
                        assert forall|i: int| 0 <= i < states.len() - 1 implies admitted(
                            #[trigger] states[i],
                            RawOp::Op(items[i]),
                            item_pos(position, start as nat, states[i].ready.len()),
                            depth as nat,
                            Ok(()),
                            states[i + 1],
                        ) by {
                            if i < prev.len() - 1 {
                                assert(states[i] == prev[i] && states[i + 1] == prev[i + 1]);
                            } else {
                                assert(states[i] == before && states[i + 1] == self@);
                            }
                        }
                    }
                },
                Err(e) => {
                    proof {
                        assert(in_turn(items, states, position, v0.ready.len(), depth as nat, Err(e), self@));
                    }
                    return Err(e);
                },
            }
        }
        proof {
            assert(in_turn(items, states, position, v0.ready.len(), depth as nat, Ok(()), self@));
        }
        Ok(())
    }

    /// Defines a macro, and expands the invocations of it that were waiting.
    #[verifier::loop_isolation(false)]
    fn define_macro(&mut self, d: MacroDefinition, depth: usize) -> (r: Result<(), Error>)
        requires
            old(self)@.wf(),
        ensures
            final(self)@.wf(),
            grows(old(self)@, final(self)@),
            defined(old(self)@, d, depth as nat, r, final(self)@),
        decreases depth, 1nat,
    {
        proof {
            lemma_grows_refl(self@);
        }
        let name = d.name().clone();
        if lookup_macro(&self.declared_macros, &name).is_some() {
            return Err(Error::DuplicateMacro { name });
        }
        let ghost start = self@;
        let ghost dn = def_name(d);
        self.declared_macros.push(d);
        let ghost pushed = self@;
        let ghost p0 = start.pending_macros;
        let ghost total = p0.len();
        let mut waiting: Vec<PendingMacro> = Vec::new();
        let mut others: Vec<PendingMacro> = Vec::new();
        assert(p0.subrange(0, 0) =~= Seq::<(Seq<char>, Seq<Expression>, int)>::empty());
        assert(pending_macro_view(waiting@) =~= Seq::<(Seq<char>, Seq<Expression>, int)>::empty());
        assert(pending_macro_view(others@) =~= Seq::<(Seq<char>, Seq<Expression>, int)>::empty());
        assert(p0.subrange(0, total as int) =~= p0);
        while self.undefined_macros.len() > 0
            invariant
                name@ == dn,
                total == p0.len(),
                self.undefined_macros@.len() <= total,
                pending_macro_view(self.undefined_macros@) == p0.subrange(total - self.undefined_macros@.len(), total as int),
                pending_macro_view(waiting@) == waiting_for(p0.subrange(0, total - self.undefined_macros@.len()), dn),
                pending_macro_view(others@) == not_waiting_for(p0.subrange(0, total - self.undefined_macros@.len()), dn),
                self@ == (AssemblerView { pending_macros: self@.pending_macros, ..pushed }),
            decreases self.undefined_macros@.len(),
        {
            let ghost i = total - self.undefined_macros@.len();
            let ghost rest = pending_macro_view(self.undefined_macros@);
            let ghost vec_before = self.undefined_macros@;
            let p = self.undefined_macros.remove(0);
            proof {
                assert(rest[0] == p0[i]);
                assert(self.undefined_macros@ =~= vec_before.subrange(1, vec_before.len() as int));
                assert(pending_macro_view(self.undefined_macros@) =~= rest.subrange(1, rest.len() as int));
                assert(pending_macro_view(self.undefined_macros@) =~= p0.subrange(i + 1, total as int));
                assert(p0.subrange(0, i + 1).drop_last() =~= p0.subrange(0, i));
                assert(p0.subrange(0, i + 1).last() == p0[i]);
                assert(self@.pending_macros =~= pending_macro_view(self.undefined_macros@));
            }
            let ghost wv = waiting@;
            let ghost ov = others@;
            if p.name == name {
                waiting.push(p);
                assert(pending_macro_view(waiting@) =~= pending_macro_view(wv).push(p0[i]));
            } else {
                others.push(p);
                assert(pending_macro_view(others@) =~= pending_macro_view(ov).push(p0[i]));
            }
        }
        self.undefined_macros = others;
        let ghost v0 = self@;
        let ghost w = waiting_for(p0, dn);
        let ghost nw = w.len();
        proof {
            assert(v0 == AssemblerView { macros: start.macros.push(d), pending_macros: not_waiting_for(p0, dn), ..start });
            assert(v0.macros.subrange(0, start.macros.len() as int) =~= start.macros);
            assert(v0.labels.subrange(0, start.labels.len() as int) =~= start.labels);
            assert(grows(start, v0));
            lemma_grows_refl(v0);
            assert(w.subrange(0, nw as int) =~= w);
        }
        let ghost mut states: Seq<AssemblerView> = seq![v0];
        let mut done: Vec<(usize, usize)> = Vec::new();
        // Each expansion moves the items after it: a later invocation at
        // or after its place goes after the items it inserted.
        while waiting.len() > 0
            invariant
                self@.wf(),
                grows(v0, self@),
                nw == w.len(),
                waiting@.len() <= nw,
                pending_macro_view(waiting@) == w.subrange(nw - waiting@.len(), nw as int),
                states.len() == nw - waiting@.len() + 1,
                states[0] == v0,
                states.last() == self@,
                done@.len() == states.len() - 1,
                forall|i: int| 0 <= i < done@.len() ==> (#[trigger] done@[i]).0 as int == w[i].2 && done@[i].1 as nat == grew(states, i),
                forall|k: int|
                    0 <= k < states.len() - 1 ==> invoked(
                        #[trigger] states[k],
                        w[k].0,
                        w[k].1,
                        Some(wait_pos(w, states, k, k) as usize),
                        depth as nat,
                        Ok(()),
                        states[k + 1],
                    ),
            decreases waiting@.len(),
        {
            let ghost k = nw - waiting@.len();
            let ghost wl = pending_macro_view(waiting@);
            let ghost wvec = waiting@;
            let p = waiting.remove(0);
            proof {
                assert(wl[0] == w[k]);
                assert(waiting@ =~= wvec.subrange(1, wvec.len() as int));
                assert(pending_macro_view(waiting@) =~= wl.subrange(1, wl.len() as int));
                assert(pending_macro_view(waiting@) =~= w.subrange(k + 1, nw as int));
            }
            let recorded = p.position;
            let mut at = recorded;
            let mut j: usize = 0;
            while j < done.len()
                invariant
                    j <= done@.len(),
                    done@.len() == k,
                    recorded as int == w[k].2,
                    at as nat == wait_pos(w, states, k, j as int),
                decreases done@.len() - j,
            {
                let (q, grown) = done[j];
                if q <= recorded {
                    at = at.saturating_add(grown);
                }
                j += 1;
            }
            let len_before = self.ready.len();
            let ghost before = self@;
            let res = self.expand_macro(p.name, p.parameters, Some(at), depth);
            proof {
                lemma_grows_trans(v0, before, self@);
            }
            done.push((recorded, self.ready.len().saturating_sub(len_before)));
            match res {
                Ok(()) => {
                    proof {
                        let prev = states;
                        states = states.push(self@);
                        assert forall|i: int| 0 <= i < states.len() - 1 implies #[trigger] grew(states, i) == grew(prev, i) || i == k by {}
                        assert forall|i: int| 0 <= i < done@.len() implies (#[trigger] done@[i]).0 as int == w[i].2 && done@[i].1 as nat == grew(states, i) by {
                            if i < k {
                                assert(states[i] == prev[i] && states[i + 1] == prev[i + 1]);
                            }
                        }
                        assert forall|i: int| 0 <= i < states.len() - 1 implies invoked(
                            #[trigger] states[i],
                            w[i].0,
                            w[i].1,
                            Some(wait_pos(w, states, i, i) as usize),
                            depth as nat,
                            Ok(()),
                            states[i + 1],
                        ) by {
                            lemma_wait_pos_prefix(w, prev, states, i, i);
                            if i < k {
                                assert(states[i] == prev[i] && states[i + 1] == prev[i + 1]);
                            }
                        }
                    }
                },
                Err(e) => {
                    proof {
                        lemma_grows_trans(start, v0, self@);
                        assert(waits_in_turn(w, states, depth as nat, Err(e), self@));
                        assert(states[0] == v0 && waits_in_turn(w, states, depth as nat, Err(e), self@));
                    }
                    return Err(e);
                },
            }
        }
        proof {
            assert(waits_in_turn(w, states, depth as nat, Ok(()), self@));
            assert(states[0] == v0 && waits_in_turn(w, states, depth as nat, Ok(()), self@));
            lemma_grows_trans(start, v0, self@);
        }
        Ok(())
    }

    /// The number of labels declared so far.
    pub fn label_count(&self) -> (r: usize)
        ensures
            r == self@.labels.len(),
    {
        self.declared_labels.len()
    }

    /// The address of the label `name`: `None` if it is not declared.
    pub fn label_address(&self, name: &String) -> (r: Option<Option<usize>>)
        ensures
            r == find_label(self@.labels, name@),
    {
        lookup_label(&self.declared_labels, name)
    }

    /// Admits one item; macros may expand `depth` levels deep.
    fn push_at(&mut self, rop: RawOp, pos: Option<usize>, depth: usize) -> (r: Result<(), Error>)
        requires
            old(self)@.wf(),
        ensures
            final(self)@.wf(),
            grows(old(self)@, final(self)@),
            admitted(old(self)@, rop, pos, depth as nat, r, final(self)@),
        decreases depth, 2nat,
    {
        let ghost old_view = self@;
        let ghost item = rop;
        let r = match rop {
            RawOp::Raw(b) => self.push_raw(b, pos),
            RawOp::Op(AbstractOp::Label(l)) => self.declare_label(l),
            RawOp::Op(AbstractOp::MacroDefinition(d)) => self.define_macro(d, depth),
            RawOp::Op(AbstractOp::Macro(inv)) => self.expand_macro(inv.name, inv.parameters, None, depth),
            RawOp::Op(op) => self.push_op(op, pos),
        };
        proof {
            lemma_admitted_depth(old_view, item, pos, depth as nat, r, self@);
        }
        r
    }

    /// Admits one item, at `pos` in the buffer or at the end, and returns the
    /// length of the output so far.
    pub fn push(&mut self, rop: RawOp, pos: Option<usize>) -> (r: Result<usize, Error>)
        requires
            old(self)@.wf(),
        ensures
            final(self)@.wf(),
            grows(old(self)@, final(self)@),
            admitted(
                old(self)@,
                rop,
                pos,
                MAX_EXPANSION_DEPTH as nat,
                match r {
                    Ok(_) => Ok(()),
                    Err(e) => Err(e),
                },
                final(self)@,
            ),
            r matches Ok(n) ==> n == final(self)@.concrete_len,
    {
        match self.push_at(rop, pos, MAX_EXPANSION_DEPTH) {
            Ok(()) => Ok(self.concrete_len),
            Err(e) => Err(e),
        }
    }

    /// Admits the items in order, stopping at the first error, and returns
    /// the length of the output so far: each item is admitted as `push`
    /// admits it, from the state the one before left.
    #[verifier::loop_isolation(false)]
    pub fn push_all(&mut self, ops: Vec<RawOp>) -> (r: Result<usize, Error>)
        requires
            old(self)@.wf(),
        ensures
            final(self)@.wf(),
            grows(old(self)@, final(self)@),
            r matches Ok(n) ==> n == final(self)@.concrete_len && exists|states: Seq<AssemblerView>|
                admitted_in_turn(ops@, states) && states[0] == old(self)@ && states.last() == final(self)@,
            r matches Err(e) ==> exists|k: int, states: Seq<AssemblerView>|
                0 <= k < ops@.len() && admitted_in_turn(ops@.subrange(0, k), states) && states[0] == old(self)@
                    && admitted(states.last(), ops@[k], None, MAX_EXPANSION_DEPTH as nat, Err(e), final(self)@),
    {
        proof {
            lemma_grows_refl(self@);
        }
        let ghost v0 = self@;
        let ghost all = ops@;
        let ghost n = all.len();
        let mut ops = ops;
        let mut rev: Vec<RawOp> = Vec::new();
        while ops.len() > 0
            invariant
                self@ == v0,
                ops@ == all.subrange(0, ops@.len() as int),
                rev@.len() == n - ops@.len(),
                forall|j: int| 0 <= j < rev@.len() ==> rev@[j] == all[n - 1 - j],
            decreases ops@.len(),
        {
            let x = ops.pop().unwrap();
            rev.push(x);
        }
        let ghost mut states: Seq<AssemblerView> = seq![v0];
        while rev.len() > 0
            invariant
                self@.wf(),
                grows(v0, self@),
                rev@.len() <= n,
                forall|j: int| 0 <= j < rev@.len() ==> rev@[j] == all[n - 1 - j],
                admitted_in_turn(all.subrange(0, n - rev@.len()), states),
                states[0] == v0,
                states.last() == self@,
            decreases rev@.len(),
        {
            let ghost k = n - rev@.len();
            let op = rev.pop().unwrap();
            assert(op == all[k]);
            let ghost before = self@;
            let res = self.push(op, None);
            proof {
                lemma_grows_trans(v0, before, self@);
            }
            match res {
                Ok(_) => {
                    proof {
                        let prev = states;
                        states = states.push(self@);
                        assert(all.subrange(0, k + 1).subrange(0, k) =~= all.subrange(0, k));
                        assert forall|i: int| 0 <= i < k + 1 implies admitted(
                            #[trigger] states[i],
                            all.subrange(0, k + 1)[i],
                            None,
                            MAX_EXPANSION_DEPTH as nat,
                            Ok(()),
                            states[i + 1],
                        ) by {
                            if i < k {
                                assert(all.subrange(0, k)[i] == all.subrange(0, k + 1)[i]);
                            }
                        }
                    }
                },
                Err(e) => {
                    proof {
                        assert(admitted_in_turn(all.subrange(0, k), states));
                    }
                    return Err(e);
                },
            }
        }
        proof {
            assert(all.subrange(0, n as int) =~= all);
        }
        Ok(self.concrete_len)
    }
}

/// The states that admitting the items of `ops` one after the other goes
/// through, each step as `push` does it.
pub open spec fn admitted_in_turn(ops: Seq<RawOp>, states: Seq<AssemblerView>) -> bool {
    &&& states.len() == ops.len() + 1
    &&& forall|i: int| 0 <= i < ops.len() ==> admitted(#[trigger] states[i], ops[i], None, MAX_EXPANSION_DEPTH as nat, Ok(()), states[i + 1])
}

/// A macro defined before stays at its index.
proof fn lemma_grows_keeps_macro(a: AssemblerView, b: AssemblerView, i: int)
    requires
        grows(a, b),
        0 <= i < a.macros.len(),
    ensures
        b.macros[i] == a.macros[i],
{
    assert(b.macros.subrange(0, a.macros.len() as int)[i] == b.macros[i]);
}

/// Growing is transitive.
pub proof fn lemma_grows_trans(a: AssemblerView, b: AssemblerView, c: AssemblerView)
    requires
        grows(a, b),
        grows(b, c),
    ensures
        grows(a, c),
{
    assert(c.labels.subrange(0, a.labels.len() as int) =~= b.labels.subrange(0, a.labels.len() as int));
    assert(c.macros.subrange(0, a.macros.len() as int) =~= b.macros.subrange(0, a.macros.len() as int));
}

/// The size of an item in the output once it is concrete: the opcode byte
/// and the immediate of the specifier chosen for it, or the raw bytes.
pub open spec fn concrete_size(r: RawOp, labels: Seq<LabelEntry>, macros: Seq<MacroDefinition>) -> nat {
    match r {
        RawOp::Raw(b) => b@.len(),
        RawOp::Op(AbstractOp::Op(spec, _)) => 1 + spec.imm_len(),
        RawOp::Op(AbstractOp::Push(imm)) => match imm_value(imm, labels, macros) {
            Ok(v) => 1 + Op::push_of_width(min_push_width(v as nat)).imm_len(),
            Err(_) => 0,
        },
        RawOp::Op(_) => 0,
    }
}

/// The total size of the items of `s` once concrete.
pub open spec fn output_len(s: Seq<RawOp>, labels: Seq<LabelEntry>, macros: Seq<MacroDefinition>) -> nat
    decreases s.len(),
{
    if s.len() == 0 {
        0
    } else {
        output_len(s.drop_last(), labels, macros) + concrete_size(s.last(), labels, macros)
    }
}

/// `be_bytes(v, n)` has `n` bytes.
proof fn lemma_be_bytes_len(v: nat, n: nat)
    ensures
        be_bytes(v, n).len() == n,
    decreases n,
{
    if n > 0 {
        lemma_be_bytes_len(v / 256, (n - 1) as nat);
    }
}

/// The output of a buffer whose every item is concrete is as long as the
/// opcode byte and immediate of each instruction, plus the raw bytes.
pub proof fn law_output_length(ready: Seq<RawOp>, labels: Seq<LabelEntry>, macros: Seq<MacroDefinition>)
    requires
        forall|i: int| 0 <= i < ready.len() ==> item_wf(#[trigger] ready[i]),
        drain_spec(ready, labels, macros) is Some,
    ensures
        drain_spec(ready, labels, macros).unwrap().len() == output_len(ready, labels, macros),
    decreases ready.len(),
{
    if ready.len() > 0 {
        assert(item_wf(ready[ready.len() - 1]));
        assert forall|i: int| 0 <= i < ready.drop_last().len() implies item_wf(#[trigger] ready.drop_last()[i]) by {
            assert(item_wf(ready[i]));
        }
        law_output_length(ready.drop_last(), labels, macros);
        match ready.last() {
            RawOp::Op(AbstractOp::Op(spec, Some(imm))) => {
                lemma_be_bytes_len(imm_value(imm, labels, macros).unwrap() as nat, spec.imm_len());
            },
            RawOp::Op(AbstractOp::Push(imm)) => {
                let v = imm_value(imm, labels, macros).unwrap();
                let w = min_push_width(v as nat);
                crate::ops::lemma_fits_min_width(v as nat);
                crate::ops::lemma_push_of_width(w);
                lemma_be_bytes_len(v as nat, w);
            },
            _ => {},
        }
    }
}

/// The bytes that `take` hands out from a well-formed assembler are as many
/// as the opcode bytes and immediates of its buffered instructions plus its
/// raw bytes, or none when some item is not concrete yet.
pub proof fn law_take_length(s: AssemblerView)
    requires
        s.wf(),
    ensures
        take_spec(s).0.len() == if drain_spec(s.ready, s.labels, s.macros) is Some {
            output_len(s.ready, s.labels, s.macros)
        } else {
            0
        },
{
    if drain_spec(s.ready, s.labels, s.macros) is Some {
        law_output_length(s.ready, s.labels, s.macros);
    }
}

/// A label appended to a table that lacks it is found at the new entry.
proof fn lemma_find_label_push(t: Seq<LabelEntry>, e: LabelEntry)
    requires
        find_label(t, e.name@) is None,
    ensures
        find_label(t.push(e), e.name@) == Some(e.address),
    decreases t.len(),
{
    if t.len() > 0 {
        assert(t.push(e).subrange(1, t.len() as int + 1) =~= t.subrange(1, t.len() as int).push(e));
        lemma_find_label_push(t.subrange(1, t.len() as int), e);
    }
}

/// A label declared after some items has an address no smaller than the
/// fewest bytes those items can take, whether or not they were taken
/// already.
pub proof fn law_label_after_prior_items(old: AssemblerView, l: String, r: Result<(), Error>, new: AssemblerView)
    requires
        old.wf(),
        admitted(old, RawOp::Op(AbstractOp::Label(l)), None, 0, r, new),
        r is Ok,
    ensures
        find_label(new.labels, l@) matches Some(Some(a)) && a >= old.concrete_len && a >= old.drained + min_total(old.ready),
{
    lemma_find_label_push(
        old.labels,
        LabelEntry { name: l, address: Some((old.concrete_len + correction(old.pending_labels, l@, old.concrete_len)) as usize) },
    );
}

/// A longer output before a label, as when earlier pushes are widened,
/// never gives the label a smaller address.
pub proof fn law_label_address_monotone(p: Seq<(Seq<char>, int)>, l: Seq<char>, len1: nat, len2: nat)
    requires
        len1 <= len2,
    ensures
        len1 + correction(p, l, len1) <= len2 + correction(p, l, len2),
        correction(p, l, len1) <= correction(p, l, len2),
    decreases p.len(),
{
    if p.len() > 0 {
        law_label_address_monotone(p.drop_last(), l, len1, len2);
        let (name, pos) = p.last();
        if name == l && pos <= len1 {
            assert((len1 - pos) / 256 <= (len2 - pos) / 256) by (nonlinear_arith)
                requires
                    pos <= len1 <= len2,
            ;
        }
    }
}

/// Taking twice with nothing admitted in between: the second take hands
/// out nothing.
pub proof fn law_take_twice(s: AssemblerView)
    ensures
        take_spec(take_spec(s).1).0 == Seq::<u8>::empty(),
        take_spec(take_spec(s).1).1 == take_spec(s).1,
{
    match drain_spec(s.ready, s.labels, s.macros) {
        Some(out) => {
            let after = take_spec(s).1;
            assert(drain_spec(after.ready, after.labels, after.macros) == Some(Seq::<u8>::empty()));
            assert(min_total(after.ready) == 0);
        },
        None => {},
    }
}

/// Once `finish` succeeds, no reference to a label and no invocation of a
/// macro is left waiting.
pub proof fn law_finish_leaves_nothing_pending(s: AssemblerView)
    requires
        finish_ok(s),
    ensures
        s.pending_labels.len() == 0,
        s.pending_macros.len() == 0,
{
}

/// The immediate of an instruction, if it has one.
pub open spec fn op_imm(op: AbstractOp) -> Option<Imm> {
    match op {
        AbstractOp::Op(_, imm) => imm,
        AbstractOp::Push(imm) => Some(imm),
        _ => None,
    }
}

/// The immediate of an instruction that has one.
fn into_imm(op: AbstractOp) -> (r: Imm)
    requires
        op matches AbstractOp::Op(_, Some(_)) || op is Push,
    ensures
        op_imm(op) == Some(r),
{
    match op {
        AbstractOp::Op(_, Some(imm)) => imm,
        AbstractOp::Push(imm) => imm,
        _ => Imm::Constant(Vec::new()),
    }
}

} // verus!
