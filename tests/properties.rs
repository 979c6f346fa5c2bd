use etk_asm::assembler::{Assembler, Error, RawOp};
use etk_asm::bigint::Int;
use etk_asm::expression::{Expression, ExpressionMacroDefinition, ExpressionMacroInvocation};
use etk_asm::opcodes::{Metadata, Op};
use etk_asm::ops::{AbstractOp, Imm, InstructionMacroDefinition, InstructionMacroInvocation, MacroDefinition};

fn hex(s: &str) -> Vec<u8> {
    (0..s.len())
        .step_by(2)
        .map(|i| u8::from_str_radix(&s[i..i + 2], 16).unwrap())
        .collect()
}

fn op(spec: Op) -> RawOp {
    RawOp::Op(AbstractOp::new(spec).unwrap())
}

fn label(name: &str) -> RawOp {
    RawOp::Op(AbstractOp::Label(name.to_string()))
}

fn push_label(name: &str) -> RawOp {
    RawOp::Op(AbstractOp::Push(Imm::Label(name.to_string())))
}

fn push1_label(name: &str) -> RawOp {
    RawOp::Op(AbstractOp::with_label(Op::Push1, name.to_string()))
}

fn push1_expr(e: Expression) -> RawOp {
    RawOp::Op(AbstractOp::with_expression(Op::Push1, e))
}

fn num(v: i128) -> Expression {
    Expression::Number(Int::from_i128(v))
}

fn bx(e: Expression) -> Box<Expression> {
    Box::new(e)
}

fn expr_macro(name: &str, parameters: Vec<&str>, content: Expression) -> RawOp {
    RawOp::Op(AbstractOp::MacroDefinition(MacroDefinition::Expression(ExpressionMacroDefinition {
        name: name.to_string(),
        parameters: parameters.into_iter().map(|p| p.to_string()).collect(),
        content,
    })))
}

fn call(name: &str, parameters: Vec<Expression>) -> Expression {
    Expression::Macro(ExpressionMacroInvocation { name: name.to_string(), parameters })
}

fn instr_macro(name: &str, parameters: Vec<&str>, contents: Vec<AbstractOp>) -> RawOp {
    RawOp::Op(AbstractOp::MacroDefinition(MacroDefinition::Instruction(InstructionMacroDefinition {
        name: name.to_string(),
        parameters: parameters.into_iter().map(|p| p.to_string()).collect(),
        contents,
    })))
}

fn invoke(name: &str, parameters: Vec<Expression>) -> RawOp {
    RawOp::Op(AbstractOp::Macro(InstructionMacroInvocation { name: name.to_string(), parameters }))
}

fn assemble(ops: Vec<RawOp>) -> Vec<u8> {
    let mut assembler = Assembler::new();
    assembler.push_all(ops).unwrap();
    let out = assembler.take();
    assembler.finish().unwrap();
    out
}

fn assemble_err(ops: Vec<RawOp>) -> Error {
    let mut assembler = Assembler::new();
    assembler.push_all(ops).unwrap_err()
}

#[test]
fn byte_length_sums_opcodes_immediates_and_raw() {
    let out = assemble(vec![
        op(Op::Caller),
        RawOp::Raw(vec![0xde, 0xad, 0xbe]),
        RawOp::Op(AbstractOp::with_immediate(Op::Push3, &[1, 2, 3]).unwrap()),
        RawOp::Op(AbstractOp::Push(Imm::Expression(num(0x1_0000)))),
    ]);
    assert_eq!(out.len(), 1 + 3 + (1 + 3) + (1 + 3));
    assert_eq!(out, hex("33deadbe6201020362010000"));
}

#[test]
fn opcode_bijection_on_every_byte() {
    for b in 0..=u8::MAX {
        assert_eq!(Op::from_byte(b).to_byte(), b);
    }
}

#[test]
fn mnemonic_lookup() {
    assert_eq!(Op::from_mnemonic("push32"), Ok(Op::Push32));
    assert_eq!(Op::from_mnemonic("invalid_0c"), Ok(Op::Invalid0c));
    assert_eq!(Op::from_mnemonic("jumpdest"), Ok(Op::JumpDest));
    assert!(Op::from_mnemonic("nope").is_err());
    assert!(Op::from_mnemonic("").is_err());
    assert!(Op::from_mnemonic("pushx").is_err());
}

#[test]
fn unsized_push_takes_minimum_width() {
    assert_eq!(assemble(vec![RawOp::Op(AbstractOp::Push(Imm::Expression(num(0xff))))]), hex("60ff"));
    assert_eq!(assemble(vec![RawOp::Op(AbstractOp::Push(Imm::Expression(num(0x100))))]), hex("610100"));
    assert_eq!(assemble(vec![RawOp::Op(AbstractOp::Push(Imm::Constant(vec![0, 0, 5])))]), hex("6005"));
    let wide = Int::from_be_bytes(&[0xff; 32]);
    let out = assemble(vec![RawOp::Op(AbstractOp::Push(Imm::Expression(Expression::Number(wide))))]);
    assert_eq!(out[0], 0x7f);
    assert_eq!(out.len(), 33);
}

#[test]
fn label_address_covers_prior_items() {
    let mut assembler = Assembler::new();
    assembler
        .push_all(vec![
            op(Op::Caller),
            push_label("x"),
            RawOp::Raw(vec![1, 2, 3]),
            label("x"),
        ])
        .unwrap();
    let address = assembler.label_address(&"x".to_string()).unwrap().unwrap();
    assert!(address >= 1 + 2 + 3);
    assert_eq!(address, 6);
    assert_eq!(assembler.take(), hex("3360060102 03".replace(' ', "").as_str()));
}

#[test]
fn macro_labels_are_local_to_each_expansion() {
    let body = || {
        vec![
            AbstractOp::Label("here".to_string()),
            AbstractOp::new(Op::JumpDest).unwrap(),
            AbstractOp::with_label(Op::Push1, "here".to_string()),
        ]
    };
    let mut assembler = Assembler::new();
    assembler
        .push_all(vec![
            instr_macro("m", vec![], body()),
            invoke("m", vec![]),
            invoke("m", vec![]),
        ])
        .unwrap();
    assert_eq!(assembler.label_count(), 2);
    assert_eq!(assembler.take(), hex("5b60005b6003"));
}

#[test]
fn take_twice_gives_nothing_the_second_time() {
    let mut assembler = Assembler::new();
    assembler.push_all(vec![op(Op::JumpDest), op(Op::GetPc)]).unwrap();
    assert_eq!(assembler.take(), hex("5b58"));
    assert_eq!(assembler.take(), Vec::<u8>::new());
}

#[test]
fn take_waits_for_labels() {
    let mut assembler = Assembler::new();
    assembler.push_all(vec![push1_label("later"), op(Op::Gas)]).unwrap();
    assert_eq!(assembler.take(), Vec::<u8>::new());
    assert_eq!(assembler.take(), Vec::<u8>::new());
    assembler.push(label("later"), None).unwrap();
    assert_eq!(assembler.take(), hex("60035a"));
    assert_eq!(assembler.take(), Vec::<u8>::new());
    assembler.finish().unwrap();
}

#[test]
fn finish_succeeds_once_everything_is_declared() {
    let mut assembler = Assembler::new();
    assembler.push_all(vec![push1_label("a"), invoke("m", vec![])]).unwrap();
    assert!(matches!(assembler.finish(), Err(Error::UndeclaredLabels { .. })));
    assembler.push(label("a"), None).unwrap();
    assert!(matches!(assembler.finish(), Err(Error::UndeclaredInstructionMacro { name }) if name == "m"));
    assembler
        .push(instr_macro("m", vec![], vec![AbstractOp::new(Op::Stop).unwrap()]), None)
        .unwrap();
    assert!(assembler.finish().is_ok());
    assert_eq!(assembler.take(), hex("600200"));
}

#[test]
fn duplicate_label_is_refused() {
    let err = assemble_err(vec![label("a"), op(Op::Stop), label("a")]);
    assert!(matches!(err, Error::DuplicateLabel { label } if label == "a"));
}

#[test]
fn undeclared_expression_macro_is_refused() {
    let err = assemble_err(vec![push1_expr(call("nothing", vec![]))]);
    assert!(matches!(err, Error::UndeclaredExpressionMacro { name } if name == "nothing"));
}

#[test]
fn unbound_variable_is_refused() {
    let err = assemble_err(vec![push1_expr(Expression::Variable("v".to_string()))]);
    assert!(matches!(err, Error::UndefinedVariable { name } if name == "v"));
}

#[test]
fn wrong_argument_count_is_refused() {
    let err = assemble_err(vec![
        instr_macro("m", vec!["x"], vec![]),
        invoke("m", vec![]),
    ]);
    assert!(matches!(err, Error::MacroArity { name } if name == "m"));
    let err = assemble_err(vec![
        expr_macro("e", vec!["x"], Expression::Variable("x".to_string())),
        push1_expr(call("e", vec![num(1), num(2)])),
    ]);
    assert!(matches!(err, Error::MacroArity { name } if name == "e"));
}

#[test]
fn division_by_zero_is_refused() {
    let err = assemble_err(vec![push1_expr(Expression::Divide(bx(num(1)), bx(num(0))))]);
    assert!(matches!(err, Error::DivisionByZero));
}

#[test]
fn endless_macro_expansion_is_refused() {
    let err = assemble_err(vec![
        instr_macro("loop", vec![], vec![AbstractOp::Macro(InstructionMacroInvocation {
            name: "loop".to_string(),
            parameters: vec![],
        })]),
        invoke("loop", vec![]),
    ]);
    assert!(matches!(err, Error::RecursionLimit));
    let err = assemble_err(vec![
        expr_macro("e", vec![], call("e", vec![])),
        push1_expr(call("e", vec![])),
    ]);
    assert!(matches!(err, Error::RecursionLimit));
}

#[test]
fn mismatched_immediate_is_refused() {
    let err = assemble_err(vec![RawOp::Op(AbstractOp::Op(Op::Push2, Some(Imm::Constant(vec![1]))))]);
    assert!(matches!(err, Error::InvalidImmediate));
    let err = assemble_err(vec![RawOp::Op(AbstractOp::Op(Op::Add, Some(Imm::Constant(vec![]))))]);
    assert!(matches!(err, Error::InvalidImmediate));
}

#[test]
fn expressions_evaluate_with_every_operator() {
    let out = assemble(vec![
        push1_expr(Expression::Minus(bx(num(10)), bx(num(3)))),
        push1_expr(Expression::Times(bx(num(6)), bx(num(7)))),
        push1_expr(Expression::Divide(bx(num(7)), bx(num(2)))),
        push1_expr(Expression::Divide(bx(num(-7)), bx(num(-2)))),
        push1_expr(Expression::Negate(bx(num(-5)))),
    ]);
    assert_eq!(out, hex("6007602a600360036005"));
}

#[test]
fn expression_macro_binds_its_parameters() {
    let out = assemble(vec![
        expr_macro(
            "double",
            vec!["x"],
            Expression::Plus(bx(Expression::Variable("x".to_string())), bx(Expression::Variable("x".to_string()))),
        ),
        push1_expr(call("double", vec![num(21)])),
    ]);
    assert_eq!(out, hex("602a"));
}

#[test]
fn duplicate_expression_macro_is_refused() {
    let err = assemble_err(vec![expr_macro("e", vec![], num(1)), expr_macro("e", vec![], num(2))]);
    assert!(matches!(err, Error::DuplicateMacro { name } if name == "e"));
}

#[test]
fn big_integer_arithmetic() {
    assert_eq!(Int::from_i128(2).add(&Int::from_i128(3)).bytes, vec![5]);
    assert_eq!(Int::from_i128(2).sub(&Int::from_i128(5)).bytes, vec![0xfd]);
    assert_eq!(Int::from_i128(-4).mul(&Int::from_i128(5)).bytes, vec![0xec]);
    assert_eq!(Int::from_i128(7).div(&Int::from_i128(-2)).unwrap().bytes, vec![0xfd]);
    assert!(Int::from_i128(7).div(&Int::zero()).is_none());
    assert_eq!(Int::from_i128(0x1234).bytes, vec![0x12, 0x34]);
    assert_eq!(Int::from_i128(-1).neg().bytes, vec![1]);
    assert!(Int::from_i128(-1).is_negative());
    assert!(!Int::from_be_bytes(&[0xff]).is_negative());
    assert!(Int::from_i128(3).equals(&Int::from_be_bytes(&[0, 3])));
    assert!(!Int::from_i128(3).equals(&Int::from_i128(4)));
}

#[test]
fn realize_a_label_push() {
    let realized = AbstractOp::Push(Imm::Label("x".to_string())).realize(0x1234).unwrap();
    assert!(matches!(realized, AbstractOp::Op(Op::Push2, Some(Imm::Constant(b))) if b == vec![0x12, 0x34]));
    let realized = AbstractOp::with_label(Op::Push4, "x".to_string()).realize(0x12).unwrap();
    assert!(matches!(realized, AbstractOp::Op(Op::Push4, Some(Imm::Constant(b))) if b == vec![0, 0, 0, 0x12]));
    assert!(AbstractOp::with_label(Op::Push1, "x".to_string()).realize(0x100).is_err());
}

#[test]
fn push_specifiers_by_width() {
    assert_eq!(Op::push(0), Some(Op::Push1));
    assert_eq!(Op::push(32), Some(Op::Push32));
    assert_eq!(Op::push(33), None);
    assert_eq!(Op::Push1.upsize(), Some(Op::Push2));
    assert_eq!(Op::Push32.upsize(), None);
    assert_eq!(Op::Push7.immediate_len(), 7);
    assert_eq!(Op::Push7.size(), 8);
    assert_eq!(Op::Add.size(), 1);
}

#[test]
fn instruction_metadata() {
    assert!(Op::Jump.is_jump());
    assert!(Op::JumpI.is_jump());
    assert!(!Op::Add.is_jump());
    assert!(Op::JumpDest.is_jump_target());
    assert!(Op::Stop.is_exit());
    assert!(Op::Invalid0c.is_exit());
    assert!(!Op::Add.is_exit());
    assert!(AbstractOp::new(Op::Return).unwrap().is_exit());
    assert!(!AbstractOp::Label("x".to_string()).is_exit());
}

#[test]
fn abstract_op_sizes() {
    assert_eq!(AbstractOp::new(Op::Add).unwrap().size(), Some(1));
    assert_eq!(AbstractOp::with_label(Op::Push3, "x".to_string()).size(), Some(4));
    assert_eq!(AbstractOp::Label("x".to_string()).size(), Some(0));
    assert_eq!(AbstractOp::Push(Imm::Label("x".to_string())).size(), None);
    assert_eq!(AbstractOp::Label("x".to_string()).specifier(), None);
    assert!(AbstractOp::with_immediate(Op::Push2, &[1]).is_err());
}

#[test]
fn forward_macro_invocations_expand_in_place() {
    let body = vec![
        AbstractOp::Label("a".to_string()),
        AbstractOp::new(Op::JumpDest).unwrap(),
        AbstractOp::with_label(Op::Push1, "a".to_string()),
        AbstractOp::with_label(Op::Push1, "b".to_string()),
    ];
    let out = assemble(vec![
        label("b"),
        op(Op::JumpDest),
        push1_label("b"),
        invoke("my_macro", vec![]),
        invoke("my_macro", vec![]),
        instr_macro("my_macro", vec![], body),
    ]);
    assert_eq!(out, hex("5b60005b600360005b60086000"));
}
