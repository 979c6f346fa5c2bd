//! Abstract operations, as the assembler takes them in, and concrete
//! operations, as it writes them out.

use crate::bigint::{be_value, Int};
use crate::expression::{
    eval_spec, find_label, labels_of, lookup_label, lookup_rename, names_of, relabeled, renamed,
    ExprError, Expression, ExpressionMacroDefinition, LabelEntry, Rename,
};
use crate::opcodes::{min_push_width, pow256, Metadata, Op};
use vstd::prelude::*;

verus! {

/// How deeply macros may expand into one another.
pub const MAX_EXPANSION_DEPTH: usize = 128;

/// The immediate of a push: bytes already known, the address of a label, or
/// an expression to evaluate.
#[derive(Debug)]
pub enum Imm {
    Constant(Vec<u8>),
    Label(String),
    Expression(Expression),
}

/// An invocation of an instruction macro, with one argument per parameter.
#[derive(Debug)]
pub struct InstructionMacroInvocation {
    pub name: String,
    pub parameters: Vec<Expression>,
}

/// An instruction macro: a named sequence of operations over its parameters.
#[derive(Debug)]
pub struct InstructionMacroDefinition {
    pub name: String,
    pub parameters: Vec<String>,
    pub contents: Vec<AbstractOp>,
}

/// A macro of either kind.
#[derive(Debug)]
pub enum MacroDefinition {
    Instruction(InstructionMacroDefinition),
    Expression(ExpressionMacroDefinition),
}

/// The name of a macro.
pub open spec fn def_name(d: MacroDefinition) -> Seq<char> {
    match d {
        MacroDefinition::Instruction(m) => m.name@,
        MacroDefinition::Expression(m) => m.name@,
    }
}

impl MacroDefinition {
    /// The name of the macro.
    pub fn name(&self) -> (r: &String)
        ensures
            r@ == def_name(*self),
    {
        match self {
            MacroDefinition::Instruction(m) => &m.name,
            MacroDefinition::Expression(m) => &m.name,
        }
    }
}

/// An operation to assemble.
#[derive(Debug)]
pub enum AbstractOp {
    /// An instruction; its immediate is present exactly for a push.
    Op(Op, Option<Imm>),
    /// Declares a label at the current offset.
    Label(String),
    /// A push whose width is the smallest that holds its value.
    Push(Imm),
    /// Invokes an instruction macro.
    Macro(InstructionMacroInvocation),
    /// Defines a macro.
    MacroDefinition(MacroDefinition),
}


/// An instruction whose immediate is known: `imm` holds exactly as many bytes
/// as the specifier takes.
#[derive(Debug, Clone)]
pub struct ConcreteOp {
    pub spec: Op,
    pub imm: Vec<u8>,
}

/// Bytes that do not have the length that the specifier takes.
#[derive(Debug, Clone, Copy, PartialEq, Eq, Structural)]
pub struct TryFromSliceError;

/// A number too large for the immediate it is meant for.
#[derive(Debug, Clone, Copy, PartialEq, Eq, Structural)]
pub struct TryFromIntError;

/// Why an operation cannot be made concrete.
#[derive(Debug)]
pub enum OpError {
    /// The immediate refers to something not known yet, or not at all.
    ContextIncomplete(ExprError),
    /// The immediate's value does not fit the specifier.
    ExpressionTooLarge { value: Int, spec: Op },
    /// The immediate's value is negative.
    ExpressionNegative { value: Int },
}

/// Whether `imm` is a fitting immediate for `spec`.
pub open spec fn imm_fits(spec: Op, imm: Option<Imm>) -> bool {
    match imm {
        None => spec.imm_len() == 0,
        Some(Imm::Constant(b)) => spec.imm_len() > 0 && b@.len() == spec.imm_len(),
        Some(_) => spec.imm_len() > 0,
    }
}

/// The encoding of a concrete instruction: its opcode byte, then its
/// immediate.
pub open spec fn encode(c: ConcreteOp) -> Seq<u8> {
    seq![c.spec.byte()] + c.imm@
}

/// The value of an immediate, given the labels and macros declared so far.
pub open spec fn imm_value(imm: Imm, labels: Seq<LabelEntry>, macros: Seq<MacroDefinition>) -> Result<int, ExprError> {
    match imm {
        Imm::Constant(b) => Ok(be_value(b@) as int),
        Imm::Label(l) => match find_label(labels, l@) {
            Some(Some(a)) => Ok(a as int),
            _ => Err(ExprError::UnknownLabel(l)),
        },
        Imm::Expression(e) => eval_spec(e, Seq::empty(), labels, macros, MAX_EXPANSION_DEPTH as nat),
    }
}

/// What making an immediate of value `v` concrete for `spec` gives.
pub open spec fn fits_result(r: Result<ConcreteOp, OpError>, spec: Op, v: int) -> bool {
    if v < 0 {
        r matches Err(OpError::ExpressionNegative { value }) && value@ == v
    } else if v >= pow256(spec.imm_len()) {
        r matches Err(OpError::ExpressionTooLarge { value, spec: s }) && value@ == v && s == spec
    } else {
        r matches Ok(c) && c.spec == spec && c.imm@.len() == spec.imm_len() && be_value(c.imm@) == v
    }
}

/// What making an operation concrete gives, given the labels and macros
/// declared so far. An unsized push takes the narrowest push that holds its
/// value.
pub open spec fn concretize_result(
    op: AbstractOp,
    labels: Seq<LabelEntry>,
    macros: Seq<MacroDefinition>,
    r: Result<ConcreteOp, OpError>,
) -> bool {
    match op {
        AbstractOp::Op(spec, None) => r matches Ok(c) && c.spec == spec && c.imm@.len() == 0,
        AbstractOp::Op(spec, Some(imm)) => match imm_value(imm, labels, macros) {
            Err(e) => r == Err::<ConcreteOp, OpError>(OpError::ContextIncomplete(e)),
            Ok(v) => fits_result(r, spec, v),
        },
        AbstractOp::Push(imm) => match imm_value(imm, labels, macros) {
            Err(e) => r == Err::<ConcreteOp, OpError>(OpError::ContextIncomplete(e)),
            Ok(v) => if v >= 0 && min_push_width(v as nat) > 32 {
                r matches Err(OpError::ExpressionTooLarge { value, spec: s }) && value@ == v
                    && s == Op::push_of_width(32)
            } else {
                fits_result(r, Op::push_of_width(if v >= 0 { min_push_width(v as nat) } else { 1 }), v)
            },
        },
        _ => false,
    }
}

/// The value of an immediate.
fn eval_imm(imm: &Imm, labels: &Vec<LabelEntry>, macros: &Vec<MacroDefinition>) -> (r: Result<Int, ExprError>)
    ensures
        match r {
            Ok(v) => imm_value(*imm, labels@, macros@) == Ok::<int, ExprError>(v@),
            Err(e) => imm_value(*imm, labels@, macros@) == Err::<int, ExprError>(e),
        },
{
    match imm {
        Imm::Constant(b) => Ok(Int::from_be_bytes(b.as_slice())),
        Imm::Label(l) => match lookup_label(labels, l) {
            Some(Some(a)) => Ok(Int::from_i128(a as i128)),
            _ => Err(ExprError::UnknownLabel(l.clone())),
        },
        Imm::Expression(e) => {
            let env: Vec<crate::expression::Binding> = Vec::new();
            proof {
                assert(crate::expression::env_of(env@) =~= Seq::empty());
            }
            e.eval(&env, labels, macros, MAX_EXPANSION_DEPTH)
        },
    }
}

/// The concrete instruction for `spec` with immediate value `v`.
fn fit(spec: Op, v: Int) -> (r: Result<ConcreteOp, OpError>)
    ensures
        fits_result(r, spec, v@),
{
    if v.is_negative() {
        return Err(OpError::ExpressionNegative { value: v });
    }
    match v.to_be_bytes(spec.immediate_len() as usize) {
        Some(bytes) => Ok(ConcreteOp { spec, imm: bytes }),
        None => Err(OpError::ExpressionTooLarge { value: v, spec }),
    }
}

impl ConcreteOp {
    /// The number of bytes of the encoding.
    pub open spec fn spec_size(&self) -> nat {
        1 + self.imm@.len()
    }

    /// Appends the encoding of the instruction to `buf`.
    pub fn assemble(&self, buf: &mut Vec<u8>)
        ensures
            final(buf)@ == old(buf)@ + encode(*self),
    {
        let ghost start = buf@;
        buf.push(self.spec.to_byte());
        let mut i: usize = 0;
        while i < self.imm.len()
            invariant
                i <= self.imm@.len(),
                buf@ == start + seq![self.spec.byte()] + self.imm@.subrange(0, i as int),
            decreases self.imm@.len() - i,
        {
            buf.push(self.imm[i]);
            i += 1;
            assert(buf@ =~= start + seq![self.spec.byte()] + self.imm@.subrange(0, i as int));
        }
        assert(self.imm@.subrange(0, i as int) =~= self.imm@);
        assert(buf@ =~= start + encode(*self));
    }

    /// The number of bytes of the encoding.
    pub fn size(&self) -> (r: usize)
        requires
            self.imm@.len() <= 32,
        ensures
            r == self.spec_size(),
    {
        self.imm.len() + 1
    }
}

impl AbstractOp {
    /// The instruction `spec`, which takes no immediate.
    pub fn new(spec: Op) -> (r: Option<AbstractOp>)
        ensures
            spec.imm_len() == 0 ==> r == Some(AbstractOp::Op(spec, None)),
            spec.imm_len() > 0 ==> r is None,
    {
        if spec.immediate_len() == 0 {
            Some(AbstractOp::Op(spec, None))
        } else {
            None
        }
    }

    /// The push `spec` of the address of the label `lbl`.
    pub fn with_label(spec: Op, lbl: String) -> (r: AbstractOp)
        requires
            spec.is_push(),
        ensures
            r == AbstractOp::Op(spec, Some(Imm::Label(lbl))),
    {
        AbstractOp::Op(spec, Some(Imm::Label(lbl)))
    }

    /// The push `spec` of the value of an expression.
    pub fn with_expression(spec: Op, expr: Expression) -> (r: AbstractOp)
        requires
            spec.is_push(),
        ensures
            r == AbstractOp::Op(spec, Some(Imm::Expression(expr))),
    {
        AbstractOp::Op(spec, Some(Imm::Expression(expr)))
    }

    /// The push `spec` of the bytes `imm`, which must have the width of the
    /// push.
    pub fn with_immediate(spec: Op, imm: &[u8]) -> (r: Result<AbstractOp, TryFromSliceError>)
        requires
            spec.is_push(),
        ensures
            imm@.len() == spec.imm_len() ==> (r matches Ok(AbstractOp::Op(s, Some(Imm::Constant(b))))
                && s == spec && b@ == imm@),
            imm@.len() != spec.imm_len() ==> r is Err,
    {
        if imm.len() != spec.immediate_len() as usize {
            return Err(TryFromSliceError);
        }
        let mut b: Vec<u8> = Vec::new();
        let mut i: usize = 0;
        while i < imm.len()
            invariant
                i <= imm@.len(),
                b@ == imm@.subrange(0, i as int),
            decreases imm@.len() - i,
        {
            b.push(imm[i]);
            i += 1;
            assert(b@ =~= imm@.subrange(0, i as int));
        }
        assert(b@ =~= imm@);
        Ok(AbstractOp::Op(spec, Some(Imm::Constant(b))))
    }

    /// Whether the operation is well formed: an instruction carries an
    /// immediate exactly when its specifier takes one, of the right width.
    pub open spec fn wf(&self) -> bool {
        match *self {
            AbstractOp::Op(spec, imm) => imm_fits(spec, imm),
            _ => true,
        }
    }

    /// The number of bytes the operation takes, where that is fixed.
    pub open spec fn spec_size(&self) -> Option<nat> {
        match *self {
            AbstractOp::Op(spec, _) => Some(1 + spec.imm_len()),
            AbstractOp::Label(_) => Some(0),
            AbstractOp::MacroDefinition(_) => Some(0),
            AbstractOp::Push(_) => None,
            AbstractOp::Macro(_) => None,
        }
    }

    /// The number of bytes the operation takes: none for a label or a macro
    /// definition, and not yet known for an unsized push or a macro
    /// invocation.
    pub fn size(&self) -> (r: Option<u32>)
        ensures
            match r {
                Some(n) => self.spec_size() == Some(n as nat),
                None => self.spec_size() is None,
            },
    {
        match self {
            AbstractOp::Op(spec, _) => Some(spec.size()),
            AbstractOp::Label(_) => Some(0),
            AbstractOp::MacroDefinition(_) => Some(0),
            AbstractOp::Push(_) => None,
            AbstractOp::Macro(_) => None,
        }
    }

    /// The specifier of an instruction.
    pub fn specifier(&self) -> (r: Option<Op>)
        ensures
            match *self {
                AbstractOp::Op(spec, _) => r == Some(spec),
                _ => r is None,
            },
    {
        match self {
            AbstractOp::Op(spec, _) => Some(*spec),
            _ => None,
        }
    }

    /// Whether the operation pushes the address of a label.
    pub open spec fn pushes_label(&self) -> bool {
        match *self {
            AbstractOp::Op(_, Some(Imm::Label(_))) => true,
            AbstractOp::Push(Imm::Label(_)) => true,
            _ => false,
        }
    }

    /// The label whose address the operation pushes, if that is its
    /// immediate.
    pub fn immediate_label(&self) -> (r: Option<&String>)
        ensures
            match *self {
                AbstractOp::Op(_, Some(Imm::Label(l))) => r == Some(&l),
                AbstractOp::Push(Imm::Label(l)) => r == Some(&l),
                _ => r is None,
            },
    {
        match self {
            AbstractOp::Op(_, Some(Imm::Label(l))) => Some(l),
            AbstractOp::Push(Imm::Label(l)) => Some(l),
            _ => None,
        }
    }

    /// The expression of the operation's immediate, if it has one.
    pub fn expr(&self) -> (r: Option<&Expression>)
        ensures
            match *self {
                AbstractOp::Op(_, Some(Imm::Expression(e))) => r == Some(&e),
                AbstractOp::Push(Imm::Expression(e)) => r == Some(&e),
                _ => r is None,
            },
    {
        match self {
            AbstractOp::Op(_, Some(Imm::Expression(e))) => Some(e),
            AbstractOp::Push(Imm::Expression(e)) => Some(e),
            _ => None,
        }
    }

    /// The operation with its label immediate replaced by the bytes of
    /// `address`: an unsized push takes the narrowest push that holds it.
    pub fn realize(&self, address: u32) -> (r: Result<AbstractOp, TryFromIntError>)
        requires
            self.wf(),
            self.pushes_label(),
        ensures
            match *self {
                AbstractOp::Push(_) => r matches Ok(AbstractOp::Op(s, Some(Imm::Constant(b))))
                    && s == Op::push_of_width(min_push_width(address as nat))
                    && b@.len() == min_push_width(address as nat) && be_value(b@) == address,
                AbstractOp::Op(spec, _) => if address < pow256(spec.imm_len()) {
                    r matches Ok(AbstractOp::Op(s, Some(Imm::Constant(b)))) && s == spec
                        && b@.len() == spec.imm_len() && be_value(b@) == address
                } else {
                    r is Err
                },
                _ => false,
            },
    {
        let v = Int::from_i128(address as i128);
        match self {
            AbstractOp::Push(_) => {
                let width = v.push_width();
                proof {
                    lemma_width_of_u32(address);
                    lemma_fits_min_width(address as nat);
                }
                let spec = Op::from_byte((0x5f + width) as u8);
                match v.to_be_bytes(width) {
                    Some(b) => Ok(AbstractOp::Op(spec, Some(Imm::Constant(b)))),
                    None => Err(TryFromIntError),
                }
            },
            AbstractOp::Op(spec, _) => match v.to_be_bytes(spec.immediate_len() as usize) {
                Some(b) => Ok(AbstractOp::Op(*spec, Some(Imm::Constant(b)))),
                None => Err(TryFromIntError),
            },
            _ => Err(TryFromIntError),
        }
    }

    /// Makes the operation concrete against the labels and macros declared
    /// so far.
    pub fn concretize(&self, labels: &Vec<LabelEntry>, macros: &Vec<MacroDefinition>) -> (r: Result<ConcreteOp, OpError>)
        requires
            self.wf(),
            self is Op || self is Push,
        ensures
            concretize_result(*self, labels@, macros@, r),
            r matches Ok(c) ==> c.imm@.len() <= 32,
    {
        match self {
            AbstractOp::Op(spec, None) => Ok(ConcreteOp { spec: *spec, imm: Vec::new() }),
            AbstractOp::Op(spec, Some(imm)) => match eval_imm(imm, labels, macros) {
                Err(e) => Err(OpError::ContextIncomplete(e)),
                Ok(v) => fit(*spec, v),
            },
            AbstractOp::Push(imm) => match eval_imm(imm, labels, macros) {
                Err(e) => Err(OpError::ContextIncomplete(e)),
                Ok(v) => {
                    if v.is_negative() {
                        return Err(OpError::ExpressionNegative { value: v });
                    }
                    let width = v.push_width();
                    if width > 32 {
                        proof {
                            lemma_push_of_width(32);
                        }
                        return Err(OpError::ExpressionTooLarge { value: v, spec: Op::from_byte(0x7f) });
                    }
                    proof {
                        lemma_push_of_width(width as nat);
                        lemma_fits_min_width(v@ as nat);
                    }
                    fit(Op::from_byte((0x5f + width) as u8), v)
                },
            },
            // Labels and macros are never made concrete; the precondition
            // leaves them out.
            _ => Err(OpError::ContextIncomplete(ExprError::RecursionLimit)),
        }
    }
}

/// The push of width `n` takes `n` immediate bytes.
pub proof fn lemma_push_of_width(n: nat)
    requires
        1 <= n <= 32,
    ensures
        Op::push_of_width(n).imm_len() == n,
        Op::push_of_width(n).is_push(),
{
    crate::opcodes::lemma_byte_of_byte((0x5f + n) as u8);
}

/// A value fits the immediate of the narrowest push that holds it.
pub proof fn lemma_fits_min_width(v: nat)
    ensures
        v < pow256(min_push_width(v)),
        min_push_width(v) >= 1,
    decreases v,
{
    reveal_with_fuel(pow256, 2);
    if v >= 256 {
        lemma_fits_min_width(v / 256);
        let w = min_push_width(v / 256);
        let p = pow256(w);
        assert(pow256(w + 1) == 256 * p);
        assert(v < 256 * p) by (nonlinear_arith)
            requires
                v / 256 < p,
        ;
    }
}

/// A 32-bit value needs at most four bytes.
pub proof fn lemma_width_of_u32(v: u32)
    ensures
        1 <= min_push_width(v as nat) <= 4,
{
    reveal_with_fuel(min_push_width, 5);
}

impl Metadata for AbstractOp {
    open spec fn jumps(&self) -> bool {
        match *self {
            AbstractOp::Op(spec, _) => spec.jumps(),
            _ => false,
        }
    }

    open spec fn is_target(&self) -> bool {
        match *self {
            AbstractOp::Op(spec, _) => spec.is_target(),
            _ => false,
        }
    }

    open spec fn exits(&self) -> bool {
        match *self {
            AbstractOp::Op(spec, _) => spec.exits(),
            _ => false,
        }
    }

    fn is_jump(&self) -> (r: bool) {
        match self {
            AbstractOp::Op(spec, _) => spec.is_jump(),
            _ => false,
        }
    }

    fn is_jump_target(&self) -> (r: bool) {
        match self {
            AbstractOp::Op(spec, _) => spec.is_jump_target(),
            _ => false,
        }
    }

    fn is_exit(&self) -> (r: bool) {
        match self {
            AbstractOp::Op(spec, _) => spec.is_exit(),
            _ => false,
        }
    }
}


/// The labels that an operation's immediate refers to.
pub open spec fn op_labels(op: AbstractOp, macros: Seq<MacroDefinition>) -> Seq<Seq<char>> {
    match op {
        AbstractOp::Op(_, Some(Imm::Label(l))) => seq![l@],
        AbstractOp::Push(Imm::Label(l)) => seq![l@],
        AbstractOp::Op(_, Some(Imm::Expression(e))) => labels_of(e, macros, MAX_EXPANSION_DEPTH as nat),
        AbstractOp::Push(Imm::Expression(e)) => labels_of(e, macros, MAX_EXPANSION_DEPTH as nat),
        _ => Seq::empty(),
    }
}

/// How a copy for one expansion renames labels: a declared label, the label
/// that a push refers to, and each label in a pushed expression take the name
/// that the renames give them; in a pushed expression, each parameter is
/// replaced by its argument.
pub open spec fn renamed_op(
    op: AbstractOp,
    r: AbstractOp,
    renames: Seq<Rename>,
    params: Seq<String>,
    args: Seq<Expression>,
) -> bool {
    match op {
        AbstractOp::Label(l) => r matches AbstractOp::Label(n) && n@ == renamed(renames, l@),
        AbstractOp::Op(spec, Some(Imm::Label(l))) => r matches AbstractOp::Op(s, Some(Imm::Label(n))) && s == spec
            && n@ == renamed(renames, l@),
        AbstractOp::Push(Imm::Label(l)) => r matches AbstractOp::Push(Imm::Label(n)) && n@ == renamed(renames, l@),
        AbstractOp::Op(spec, Some(Imm::Expression(e))) => r matches AbstractOp::Op(s, Some(Imm::Expression(x)))
            && s == spec && relabeled(e, x, |l: Seq<char>| renamed(renames, l), params, args),
        AbstractOp::Push(Imm::Expression(e)) => r matches AbstractOp::Push(Imm::Expression(x)) && relabeled(
            e,
            x,
            |l: Seq<char>| renamed(renames, l),
            params,
            args,
        ),
        _ => true,
    }
}

impl Imm {
    /// A copy of the immediate for one expansion of a macro body.
    #[verifier::loop_isolation(false)]
    pub(crate) fn instantiate(&self, renames: &Vec<Rename>, params: &Vec<String>, args: &Vec<Expression>) -> (r: Imm)
        requires
            params@.len() == args@.len(),
        ensures
            self is Constant <==> r is Constant,
            (self matches Imm::Constant(b) ==> (r matches Imm::Constant(c) && c@ == b@)),
            (self matches Imm::Label(l) ==> (r matches Imm::Label(n) && n@ == renamed(renames@, l@))),
            (*self matches Imm::Expression(e) ==> (r matches Imm::Expression(x) && relabeled(
                e,
                x,
                |l: Seq<char>| renamed(renames@, l),
                params@,
                args@,
            ))),
    {
        match self {
            Imm::Constant(b) => Imm::Constant(b.clone()),
            Imm::Label(l) => match lookup_rename(renames, l) {
                Some(i) => Imm::Label(renames[i].to.clone()),
                None => Imm::Label(l.clone()),
            },
            Imm::Expression(e) => Imm::Expression(e.instantiate(renames, params, args)),
        }
    }
}

impl Imm {
    /// The immediate of `width` bytes that holds `v`, if `v` is not negative
    /// and fits.
    pub fn try_from_int(v: i128, width: usize) -> (r: Result<Imm, TryFromIntError>)
        ensures
            (0 <= v < pow256(width as nat)) ==> (r matches Ok(Imm::Constant(b)) && b@.len() == width
                && be_value(b@) == v),
            !(0 <= v < pow256(width as nat)) ==> r is Err,
    {
        if v < 0 {
            return Err(TryFromIntError);
        }
        match Int::from_i128(v).to_be_bytes(width) {
            Some(b) => Ok(Imm::Constant(b)),
            None => Err(TryFromIntError),
        }
    }
}

impl MacroDefinition {
    /// A copy of the definition.
    #[verifier::loop_isolation(false)]
    pub(crate) fn copy(&self) -> (r: MacroDefinition)
        decreases self,
    {
        match self {
            MacroDefinition::Expression(d) => MacroDefinition::Expression(ExpressionMacroDefinition {
                name: d.name.clone(),
                parameters: d.parameters.clone(),
                content: d.content.copy(),
            }),
            MacroDefinition::Instruction(d) => {
                let none_renamed: Vec<Rename> = Vec::new();
                let no_params: Vec<String> = Vec::new();
                let no_args: Vec<Expression> = Vec::new();
                let mut contents: Vec<AbstractOp> = Vec::new();
                let mut i: usize = 0;
                while i < d.contents.len()
                    invariant
                        i <= d.contents@.len(),
                        no_params@.len() == no_args@.len(),
                    decreases d.contents@.len() - i,
                {
                    proof {
                        assert(decreases_to!(*self => *d));
                        assert(decreases_to!(*d => d.contents));
                        assert(decreases_to!(d.contents => d.contents@));
                        assert(decreases_to!(d.contents@ => d.contents@[i as int]));
                    }
                    contents.push(d.contents[i].instantiate(&none_renamed, &no_params, &no_args));
                    i += 1;
                }
                MacroDefinition::Instruction(InstructionMacroDefinition {
                    name: d.name.clone(),
                    parameters: d.parameters.clone(),
                    contents,
                })
            },
        }
    }
}

impl AbstractOp {
    /// A copy of the operation for one expansion of a macro body: labels
    /// local to the body take their fresh names, and each parameter is
    /// replaced by its argument. Nested macro definitions are copied as they
    /// are.
    #[verifier::loop_isolation(false)]
    pub(crate) fn instantiate(&self, renames: &Vec<Rename>, params: &Vec<String>, args: &Vec<Expression>) -> (r: AbstractOp)
        requires
            params@.len() == args@.len(),
        ensures
            self.wf() ==> r.wf(),
            renamed_op(*self, r, renames@, params@, args@),
        decreases self,
    {
        match self {
            AbstractOp::Op(spec, None) => AbstractOp::Op(*spec, None),
            AbstractOp::Op(spec, Some(imm)) => AbstractOp::Op(*spec, Some(imm.instantiate(renames, params, args))),
            AbstractOp::Label(l) => match lookup_rename(renames, l) {
                Some(i) => AbstractOp::Label(renames[i].to.clone()),
                None => AbstractOp::Label(l.clone()),
            },
            AbstractOp::Push(imm) => AbstractOp::Push(imm.instantiate(renames, params, args)),
            AbstractOp::Macro(inv) => {
                let mut new_args: Vec<Expression> = Vec::new();
                let mut i: usize = 0;
                while i < inv.parameters.len()
                    invariant
                        i <= inv.parameters@.len(),
                    decreases inv.parameters@.len() - i,
                {
                    new_args.push(inv.parameters[i].instantiate(renames, params, args));
                    i += 1;
                }
                AbstractOp::Macro(InstructionMacroInvocation { name: inv.name.clone(), parameters: new_args })
            },
            AbstractOp::MacroDefinition(d) => {
                proof {
                    assert(decreases_to!(*self => *d));
                }
                AbstractOp::MacroDefinition(d.copy())
            },
        }
    }

    /// Whether the operation is well formed.
    pub fn is_wf(&self) -> (r: bool)
        ensures
            r == self.wf(),
    {
        match self {
            AbstractOp::Op(spec, None) => spec.immediate_len() == 0,
            AbstractOp::Op(spec, Some(Imm::Constant(b))) => {
                let n = spec.immediate_len();
                n > 0 && b.len() == n as usize
            },
            AbstractOp::Op(spec, Some(_)) => spec.immediate_len() > 0,
            _ => true,
        }
    }

    /// The labels that the operation's immediate refers to.
    pub fn labels(&self, macros: &Vec<MacroDefinition>) -> (r: Vec<String>)
        ensures
            names_of(r@) == op_labels(*self, macros@),
    {
        match self {
            AbstractOp::Op(_, Some(Imm::Label(l))) | AbstractOp::Push(Imm::Label(l)) => {
                let mut out: Vec<String> = Vec::new();
                out.push(l.clone());
                assert(names_of(out@) =~= seq![l@]);
                out
            },
            AbstractOp::Op(_, Some(Imm::Expression(e))) | AbstractOp::Push(Imm::Expression(e)) => e.labels(macros, MAX_EXPANSION_DEPTH),
            _ => {
                let out: Vec<String> = Vec::new();
                assert(names_of(out@) =~= Seq::empty());
                out
            },
        }
    }
}

} // verus!
