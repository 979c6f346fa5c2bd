use etk_asm::assembler::{Assembler, Error, RawOp};
use etk_asm::bigint::Int;
use etk_asm::expression::{Expression, ExpressionMacroDefinition, ExpressionMacroInvocation};
use etk_asm::opcodes::Op;
use etk_asm::ops::{AbstractOp, Imm, InstructionMacroDefinition, InstructionMacroInvocation, MacroDefinition};

fn hex(s: &str) -> Vec<u8> {
    (0..s.len())
        .step_by(2)
        .map(|i| u8::from_str_radix(&s[i..i + 2], 16).unwrap())
        .collect()
}

fn op(spec: Op) -> RawOp {
    RawOp::Op(AbstractOp::new(spec).unwrap())
}

fn label(name: &str) -> RawOp {
    RawOp::Op(AbstractOp::Label(name.to_string()))
}

fn push_label(name: &str) -> RawOp {
    RawOp::Op(AbstractOp::Push(Imm::Label(name.to_string())))
}

fn push1_label(name: &str) -> RawOp {
    RawOp::Op(AbstractOp::with_label(Op::Push1, name.to_string()))
}

fn push1_expr(e: Expression) -> RawOp {
    RawOp::Op(AbstractOp::with_expression(Op::Push1, e))
}

fn num(v: i128) -> Expression {
    Expression::Number(Int::from_i128(v))
}

fn lbl(name: &str) -> Expression {
    Expression::Label(name.to_string())
}

fn plus(a: Expression, b: Expression) -> Expression {
    Expression::Plus(Box::new(a), Box::new(b))
}

fn define(name: &str, parameters: Vec<&str>, contents: Vec<RawOp>) -> RawOp {
    let contents = contents
        .into_iter()
        .map(|r| match r {
            RawOp::Op(o) => o,
            RawOp::Raw(_) => panic!("raw bytes in a macro body"),
        })
        .collect();
    RawOp::Op(AbstractOp::MacroDefinition(MacroDefinition::Instruction(
        InstructionMacroDefinition {
            name: name.to_string(),
            parameters: parameters.into_iter().map(|p| p.to_string()).collect(),
            contents,
        },
    )))
}

fn invoke(name: &str, parameters: Vec<Expression>) -> RawOp {
    RawOp::Op(AbstractOp::Macro(InstructionMacroInvocation {
        name: name.to_string(),
        parameters,
    }))
}

fn macro_body() -> Vec<RawOp> {
    vec![label("a"), op(Op::JumpDest), push1_label("a"), push1_label("b")]
}

#[test]
fn assemble_variable_push_const_while_pending() {
    let mut assembler = Assembler::new();
    let sz = assembler
        .push_all(vec![
            push1_label("label1"),
            RawOp::Op(AbstractOp::Push(Imm::Expression(num(0xaabb)))),
            label("label1"),
        ])
        .unwrap();
    assert_eq!(5, sz);
    assert_eq!(assembler.take(), hex("600561aabb"));
}

#[test]
fn assemble_variable_pushes_abab() {
    let mut assembler = Assembler::new();
    let sz = assembler
        .push_all(vec![
            op(Op::JumpDest),
            push_label("label1"),
            push_label("label2"),
            label("label1"),
            op(Op::GetPc),
            label("label2"),
            op(Op::GetPc),
        ])
        .unwrap();
    assert_eq!(7, sz);
    assert_eq!(assembler.take(), hex("5b600560065858"));
}

#[test]
fn assemble_variable_pushes_abba() {
    let mut assembler = Assembler::new();
    let sz = assembler
        .push_all(vec![
            op(Op::JumpDest),
            push_label("label1"),
            push_label("label2"),
            label("label2"),
            op(Op::GetPc),
            label("label1"),
            op(Op::GetPc),
        ])
        .unwrap();
    assert_eq!(7, sz);
    assert_eq!(assembler.take(), hex("5b600660055858"));
}

#[test]
fn assemble_variable_push1_multiple() {
    let mut assembler = Assembler::new();
    let sz = assembler
        .push_all(vec![op(Op::JumpDest), push_label("auto"), push_label("auto"), label("auto")])
        .unwrap();
    assert_eq!(5, sz);
    assert_eq!(assembler.take(), hex("5b60056005"));
}

#[test]
fn assemble_variable_push_const() {
    let mut assembler = Assembler::new();
    let sz = assembler
        .push_all(vec![RawOp::Op(AbstractOp::Push(Imm::Expression(num(
            0x00aaaaaaaaaaaaaaaaaaaaaaaa,
        ))))])
        .unwrap();
    assert_eq!(13, sz);
    assert_eq!(assembler.take(), hex("6baaaaaaaaaaaaaaaaaaaaaaaa"));
}

#[test]
fn assemble_variable_push_too_large() {
    let v = Int::from_be_bytes(&[1u8; 33]);
    let mut assembler = Assembler::new();
    let err = assembler
        .push_all(vec![RawOp::Op(AbstractOp::Push(Imm::Expression(Expression::Number(v))))])
        .unwrap_err();
    assert!(matches!(err, Error::ExpressionTooLarge { .. }));
}

#[test]
fn assemble_variable_push_negative() {
    let mut assembler = Assembler::new();
    let err = assembler
        .push_all(vec![RawOp::Op(AbstractOp::Push(Imm::Expression(num(-1))))])
        .unwrap_err();
    assert!(matches!(err, Error::ExpressionNegative { .. }));
}

#[test]
fn assemble_variable_push_const0() {
    let mut assembler = Assembler::new();
    let sz = assembler
        .push_all(vec![RawOp::Op(AbstractOp::Push(Imm::Expression(num(0x00))))])
        .unwrap();
    assert_eq!(2, sz);
    assert_eq!(assembler.take(), hex("6000"));
}

#[test]
fn assemble_variable_push1_known() {
    let mut assembler = Assembler::new();
    let sz = assembler
        .push_all(vec![op(Op::JumpDest), label("auto"), push_label("auto")])
        .unwrap();
    assert_eq!(3, sz);
    assert_eq!(assembler.take(), hex("5b6001"));
}

#[test]
fn assemble_variable_push1() {
    let mut assembler = Assembler::new();
    let sz = assembler
        .push_all(vec![push_label("auto"), label("auto"), op(Op::JumpDest)])
        .unwrap();
    assert_eq!(3, sz);
    assert_eq!(assembler.take(), hex("60025b"));
}

#[test]
fn assemble_variable_push1_reuse() {
    let mut assembler = Assembler::new();
    let sz = assembler
        .push_all(vec![push_label("auto"), label("auto"), op(Op::JumpDest), push1_label("auto")])
        .unwrap();
    assert_eq!(5, sz);
    assert_eq!(assembler.take(), hex("60025b6002"));
}

#[test]
fn assemble_variable_push2() {
    let mut assembler = Assembler::new();
    assembler.push(push_label("auto"), None).unwrap();
    for _ in 0..255 {
        assembler.push(op(Op::GetPc), None).unwrap();
    }
    assembler.push_all(vec![label("auto"), op(Op::JumpDest)]).unwrap();

    let mut expected = vec![0x61, 0x01, 0x02];
    expected.extend_from_slice(&[0x58; 255]);
    expected.push(0x5b);
    assert_eq!(assembler.take(), expected);

    assembler.finish().unwrap();
}

#[test]
fn assemble_undeclared_label() {
    let mut assembler = Assembler::new();
    assembler.push_all(vec![push1_label("hi")]).unwrap();
    let err = assembler.finish().unwrap_err();
    assert!(matches!(err, Error::UndeclaredLabels { labels } if labels == vec!["hi"]));
}

#[test]
fn assemble_jumpdest_no_label() {
    let mut assembler = Assembler::new();
    let sz = assembler.push_all(vec![op(Op::JumpDest)]).unwrap();
    assert_eq!(1, sz);
    assert_eq!(assembler.label_count(), 0);
    assert_eq!(assembler.take(), hex("5b"));
}

#[test]
fn assemble_jumpdest_with_label() {
    let mut assembler = Assembler::new();
    let sz = assembler.push_all(vec![label("lbl"), op(Op::JumpDest)]).unwrap();
    assert_eq!(1, sz);
    assert_eq!(assembler.label_count(), 1);
    assert_eq!(assembler.label_address(&"lbl".to_string()), Some(Some(0)));
    assert_eq!(assembler.take(), hex("5b"));
}

#[test]
fn assemble_jumpdest_jump_with_label() {
    let mut assembler = Assembler::new();
    let sz = assembler
        .push_all(vec![label("lbl"), op(Op::JumpDest), push1_label("lbl")])
        .unwrap();
    assert_eq!(sz, 3);
    assert_eq!(assembler.take(), hex("5b6000"));
}

#[test]
fn assemble_labeled_pc() {
    let mut assembler = Assembler::new();
    let sz = assembler
        .push_all(vec![push1_label("lbl"), label("lbl"), op(Op::GetPc)])
        .unwrap();
    assert_eq!(sz, 3);
    assert_eq!(assembler.take(), hex("600258"));
}

#[test]
fn assemble_jump_jumpdest_with_label() {
    let mut assembler = Assembler::new();
    let sz = assembler
        .push_all(vec![push1_label("lbl"), label("lbl"), op(Op::JumpDest)])
        .unwrap();
    assert_eq!(sz, 3);
    assert_eq!(assembler.take(), hex("60025b"));
}

fn pcs_then_labels(pushed: &str) -> Vec<RawOp> {
    let mut ops: Vec<RawOp> = (0..255).map(|_| op(Op::GetPc)).collect();
    ops.push(label("b"));
    ops.push(op(Op::JumpDest));
    ops.push(label("a"));
    ops.push(op(Op::JumpDest));
    ops.push(push1_label(pushed));
    ops
}

#[test]
fn assemble_label_too_large() {
    let mut assembler = Assembler::new();
    let err = assembler.push_all(pcs_then_labels("a")).unwrap_err();
    assert!(matches!(err, Error::ExpressionTooLarge { imm: Imm::Label(label), .. } if label == "a"));
}

#[test]
fn assemble_label_just_right() {
    let mut assembler = Assembler::new();
    let sz = assembler.push_all(pcs_then_labels("b")).unwrap();
    assert_eq!(sz, 259);

    let assembled = assembler.take();
    assembler.finish().unwrap();

    let mut expected = vec![0x58; 255];
    expected.push(0x5b);
    expected.push(0x5b);
    expected.push(0x60);
    expected.push(0xff);
    assert_eq!(assembled, expected);
}

#[test]
fn assemble_instruction_macro_label_underscore() {
    let mut assembler = Assembler::new();
    let sz = assembler
        .push_all(vec![
            define("my_macro", vec![], vec![label("a")]),
            define("my", vec![], vec![label("macro_a")]),
            invoke("my_macro", vec![]),
            invoke("my", vec![]),
        ])
        .unwrap();
    assert_eq!(sz, 0);
    let out = assembler.take();
    assert_eq!(out, Vec::<u8>::new());
}

#[test]
fn assemble_instruction_macro_twice() {
    let mut assembler = Assembler::new();
    let sz = assembler
        .push_all(vec![
            define("my_macro", vec![], macro_body()),
            label("b"),
            op(Op::JumpDest),
            push1_label("b"),
            invoke("my_macro", vec![]),
            invoke("my_macro", vec![]),
        ])
        .unwrap();
    assert_eq!(sz, 13);
    assert_eq!(assembler.take(), hex("5b60005b600360005b60086000"));
}

#[test]
fn assemble_instruction_macro() {
    let mut assembler = Assembler::new();
    let sz = assembler
        .push_all(vec![
            define("my_macro", vec![], macro_body()),
            label("b"),
            op(Op::JumpDest),
            push1_label("b"),
            invoke("my_macro", vec![]),
        ])
        .unwrap();
    assert_eq!(sz, 8);
    assert_eq!(assembler.take(), hex("5b60005b60036000"));
}

#[test]
fn assemble_instruction_macro_delayed_definition() {
    let mut assembler = Assembler::new();
    let sz = assembler
        .push_all(vec![
            label("b"),
            op(Op::JumpDest),
            push1_label("b"),
            invoke("my_macro", vec![]),
            define("my_macro", vec![], macro_body()),
        ])
        .unwrap();
    assert_eq!(sz, 8);
    assert_eq!(assembler.take(), hex("5b60005b60036000"));
}

#[test]
fn assemble_instruction_macro_with_variable_push() {
    let mut assembler = Assembler::new();
    let sz = assembler
        .push_all(vec![
            invoke("my_macro", vec![]),
            define(
                "my_macro",
                vec![],
                vec![
                    op(Op::JumpDest),
                    push_label("label1"),
                    push_label("label2"),
                    label("label1"),
                    op(Op::GetPc),
                    label("label2"),
                    op(Op::GetPc),
                ],
            ),
        ])
        .unwrap();
    assert_eq!(7, sz);
    assert_eq!(assembler.take(), hex("5b600560065858"));
}

#[test]
fn assemble_undeclared_instruction_macro() {
    let mut assembler = Assembler::new();
    assembler.push_all(vec![invoke("my_macro", vec![])]).unwrap();
    let err = assembler.finish().unwrap_err();
    assert!(matches!(err, Error::UndeclaredInstructionMacro { name } if name == "my_macro"));
}

#[test]
fn assemble_duplicate_instruction_macro() {
    let mut assembler = Assembler::new();
    let err = assembler
        .push_all(vec![
            define("my_macro", vec![], vec![op(Op::Caller)]),
            define("my_macro", vec![], vec![op(Op::Caller)]),
        ])
        .unwrap_err();
    assert!(matches!(err, Error::DuplicateMacro { name } if name == "my_macro"));
}

#[test]
fn assemble_duplicate_labels_in_instruction_macro() {
    let mut assembler = Assembler::new();
    let err = assembler
        .push_all(vec![
            define("my_macro", vec![], vec![label("a"), label("a")]),
            invoke("my_macro", vec![]),
        ])
        .unwrap_err();
    assert!(matches!(err, Error::DuplicateLabel { label } if label == "a"));
}

#[test]
fn assemble_conflicting_labels_in_instruction_macro() {
    let mut assembler = Assembler::new();
    let sz = assembler
        .push_all(vec![
            label("a"),
            op(Op::Caller),
            define("my_macro()", vec![], vec![label("a"), push1_label("a")]),
            invoke("my_macro()", vec![]),
            push1_label("a"),
        ])
        .unwrap();
    assert_eq!(sz, 5);
    let out = assembler.take();
    assembler.finish().unwrap();
    assert_eq!(out, hex("3360016000"));
}

#[test]
fn assemble_instruction_macro_with_parameters() {
    let mut assembler = Assembler::new();
    let sz = assembler
        .push_all(vec![
            define(
                "my_macro",
                vec!["foo", "bar"],
                vec![
                    push1_expr(Expression::Variable("foo".to_string())),
                    push1_expr(Expression::Variable("bar".to_string())),
                ],
            ),
            label("b"),
            op(Op::JumpDest),
            push1_label("b"),
            invoke(
                "my_macro",
                vec![Expression::Number(Int::from_be_bytes(&[0x42])), lbl("b")],
            ),
        ])
        .unwrap();
    assert_eq!(sz, 7);
    assert_eq!(assembler.take(), hex("5b600060426000"));
}

#[test]
fn assemble_expression_push() {
    let mut assembler = Assembler::new();
    let sz = assembler.push_all(vec![push1_expr(plus(num(1), num(1)))]).unwrap();
    assert_eq!(sz, 2);
    assert_eq!(assembler.take(), hex("6002"));
}

#[test]
fn assemble_expression_negative() {
    let mut assembler = Assembler::new();
    let err = assembler.push_all(vec![push1_expr(num(-1))]).unwrap_err();
    assert!(matches!(err, Error::ExpressionNegative { value, .. } if value.equals(&Int::from_i128(-1))));
}

#[test]
fn assemble_expression_undeclared_label() {
    let mut assembler = Assembler::new();
    assembler.push_all(vec![push1_expr(lbl("hi"))]).unwrap();
    let err = assembler.finish().unwrap_err();
    assert!(matches!(err, Error::UndeclaredLabels { labels } if labels == vec!["hi"]));
}

#[test]
fn assemble_variable_push_expression_with_undeclared_labels() {
    let mut assembler = Assembler::new();
    assembler.push_all(vec![
        op(Op::JumpDest),
        RawOp::Op(AbstractOp::Push(Imm::Expression(plus(lbl("foo"), lbl("bar"))))),
        op(Op::Gas),
    ])
    .unwrap();
    let err = assembler.finish().unwrap_err();
    assert!(matches!(err, Error::UndeclaredLabels { labels }
        if labels.contains(&"foo".to_string()) && labels.contains(&"bar".to_string())));
}

#[test]
fn assemble_variable_push1_expression() {
    let mut assembler = Assembler::new();
    let sz = assembler
        .push_all(vec![
            op(Op::JumpDest),
            label("auto"),
            RawOp::Op(AbstractOp::Push(Imm::Expression(plus(num(1), lbl("auto"))))),
        ])
        .unwrap();
    assert_eq!(3, sz);
    assert_eq!(assembler.take(), hex("5b6002"));
}

#[test]
fn assemble_expression_with_labels() {
    let mut assembler = Assembler::new();
    let sz = assembler
        .push_all(vec![
            op(Op::JumpDest),
            RawOp::Op(AbstractOp::Push(Imm::Expression(plus(lbl("foo"), lbl("bar"))))),
            op(Op::Gas),
            label("foo"),
            label("bar"),
        ])
        .unwrap();
    assert_eq!(4, sz);
    assert_eq!(assembler.take(), hex("5b60085a"));
}

#[test]
fn assemble_expression_macro_push() {
    let mut assembler = Assembler::new();
    let sz = assembler
        .push_all(vec![
            RawOp::Op(AbstractOp::MacroDefinition(MacroDefinition::Expression(
                ExpressionMacroDefinition {
                    name: "foo".to_string(),
                    parameters: vec![],
                    content: plus(num(1), num(1)),
                },
            ))),
            push1_expr(Expression::Macro(ExpressionMacroInvocation {
                name: "foo".to_string(),
                parameters: vec![],
            })),
        ])
        .unwrap();
    assert_eq!(sz, 2);
    assert_eq!(assembler.take(), hex("6002"));
}
