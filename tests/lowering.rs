use jutus::ir::{
    IRApply, IRBigInt, IRBinOp, IRBinaryExpr, IRBlockStmt, IRExpr, IRExprStmt, IRFunDef, IRIdent,
    IRIfStmt, IRLiteral, IRNameTy, IRReturnStmt, IRScript, IRVarDef, IR,
};
use jutus::ir_to_unode::{ModuleBuilderFromIR, UError};
use jutus::ir_type::{IRFunTy, IRTy, TypeOf};
use jutus::ir_visitor::IRVisitor;
use jutus::untyped::{ModuleKind, UBinOp, UDef, UExpr, UNode};

fn ident(name: &str) -> IRIdent {
    IRIdent { ident: name.to_string() }
}

fn var(name: &str) -> IRExpr {
    IRExpr::Identifier(ident(name))
}

fn int_lit(n: u32) -> IRExpr {
    IRExpr::Literal(IRLiteral::BigInt(IRBigInt { negative: false, magnitude: vec![n] }))
}

fn binary(op: IRBinOp, left: IRExpr, right: IRExpr) -> IRExpr {
    IRExpr::Binary(Box::new(IRBinaryExpr { op, left: Box::new(left), right: Box::new(right) }))
}

fn ret(e: IRExpr) -> IR {
    IR::ReturnStmt(IRReturnStmt { expr: Some(e) })
}

fn param(name: &str) -> IRNameTy {
    IRNameTy { name: Box::new(ident(name)), ty: IRTy::Float64Ty }
}

fn fundef(name: &str, params: &[&str], body: Vec<IR>) -> IRFunDef {
    let params: Vec<IRNameTy> = params.iter().map(|p| param(p)).collect();
    let param_tys = params.iter().map(|_| IRTy::Float64Ty).collect();
    IRFunDef {
        name: Box::new(ident(name)),
        params,
        fun_ty: IRFunTy { param_tys, ret_ty: Box::new(IRTy::Float64Ty) },
        body: Box::new(IRBlockStmt { body }),
    }
}

fn builder() -> ModuleBuilderFromIR {
    ModuleBuilderFromIR::new()
}

fn expr_of(r: Result<UNode, UError>) -> UExpr {
    match r {
        Ok(UNode::Expr(e)) => e,
        other => panic!("expected an expression, got {:?}", other),
    }
}

fn is_var(e: &UExpr, name: &str) -> bool {
    matches!(e, UExpr::Var { name: n } if n == name)
}

fn is_int(e: &UExpr, text: &str) -> bool {
    matches!(e, UExpr::Int { value } if value == text)
}

#[test]
fn add_function_lowers_to_module() {
    let body = vec![ret(binary(IRBinOp::Add, var("a"), var("b")))];
    let script = IR::Script(IRScript { body: vec![IR::FunDef(fundef("add", &["a", "b"], body))] });
    let module = builder().build_module(&script, "add.ts".to_string()).unwrap();
    assert_eq!(module.name, "add.ts");
    assert_eq!(module.kind, ModuleKind::Validator);
    assert!(module.docs.is_empty());
    assert_eq!(module.definitions.len(), 1);
    let UDef::Fn(f) = &module.definitions[0];
    assert_eq!(f.name, "add");
    assert!(f.public);
    let args: Vec<&str> = f.arguments.iter().map(|a| a.name.as_str()).collect();
    assert_eq!(args, vec!["a", "b"]);
    match &f.body {
        UExpr::Sequence { expressions } => {
            assert_eq!(expressions.len(), 1);
            match &expressions[0] {
                UExpr::BinOp { name, left, right } => {
                    assert_eq!(*name, UBinOp::AddInt);
                    assert!(is_var(left, "a"));
                    assert!(is_var(right, "b"));
                }
                other => panic!("unexpected {:?}", other),
            }
        }
        other => panic!("unexpected {:?}", other),
    }
}

#[test]
fn vardef_lowers_to_immutable_binding() {
    for is_mutable in [false, true] {
        let v = IRVarDef {
            name: Box::new(ident("x")),
            ty: IRTy::BigIntTy,
            is_mutable,
            value: Box::new(int_lit(5)),
        };
        match expr_of(builder().visit_ir(&IR::VarDef(v))) {
            UExpr::Assignment { pattern, value } => {
                assert_eq!(pattern, "x");
                assert!(is_int(&value, "5"));
            }
            other => panic!("unexpected {:?}", other),
        }
    }
}

#[test]
fn if_lowers_both_branches_from_else_arm() {
    let i = IRIfStmt {
        _if: Box::new(binary(IRBinOp::GtEq, var("a"), var("b"))),
        _then: Box::new(ret(var("a"))),
        _else: Box::new(ret(var("b"))),
    };
    match expr_of(builder().visit_ir(&IR::IfStmt(i))) {
        UExpr::If { condition, body, final_else } => {
            match *condition {
                UExpr::BinOp { name, left, right } => {
                    assert_eq!(name, UBinOp::GtEqInt);
                    assert!(is_var(&left, "a"));
                    assert!(is_var(&right, "b"));
                }
                other => panic!("unexpected {:?}", other),
            }
            assert!(is_var(&body, "b"));
            assert!(is_var(&final_else, "b"));
        }
        other => panic!("unexpected {:?}", other),
    }
}

#[test]
fn if_with_failing_then_arm_still_lowers() {
    let i = IRIfStmt {
        _if: Box::new(var("c")),
        _then: Box::new(IR::ReturnStmt(IRReturnStmt { expr: None })),
        _else: Box::new(ret(var("b"))),
    };
    assert!(builder().visit_ir(&IR::IfStmt(i)).is_ok());
}

#[test]
fn script_keeps_order_and_names() {
    let script = IRScript {
        body: vec![
            IR::FunDef(fundef("first", &[], vec![ret(int_lit(1))])),
            IR::FunDef(fundef("second", &["x"], vec![ret(var("x"))])),
            IR::FunDef(fundef("third", &["p", "q"], vec![])),
        ],
    };
    match builder().visit_script(&script) {
        Ok(UNode::Script(defs)) => {
            let names: Vec<&str> = defs.iter().map(|UDef::Fn(f)| f.name.as_str()).collect();
            assert_eq!(names, vec!["first", "second", "third"]);
        }
        other => panic!("unexpected {:?}", other),
    }
}

#[test]
fn empty_script_lowers_to_empty_module() {
    let module = builder().build_module(&IR::Script(IRScript { body: vec![] }), "m".to_string()).unwrap();
    assert!(module.definitions.is_empty());
}

#[test]
fn script_with_non_function_child_fails() {
    let script = IRScript {
        body: vec![IR::FunDef(fundef("f", &[], vec![ret(int_lit(1))])), IR::Expr(int_lit(2))],
    };
    assert!(matches!(builder().visit_script(&script), Err(UError::ExpectingFunDef)));
    let module = builder().build_module(&IR::Script(script), "m".to_string());
    assert!(matches!(module, Err(UError::ExpectingFunDef)));
}

#[test]
fn block_lowers_to_sequence_of_children() {
    let children = vec![
        IR::VarDef(IRVarDef {
            name: Box::new(ident("y")),
            ty: IRTy::UnknownTy,
            is_mutable: true,
            value: Box::new(int_lit(7)),
        }),
        IR::ExprStmt(IRExprStmt { expr: var("y") }),
        ret(binary(IRBinOp::Mul, var("y"), int_lit(2))),
    ];
    let last = ret(binary(IRBinOp::Mul, var("y"), int_lit(2)));
    let block = IRBlockStmt { body: children };
    match expr_of(builder().visit_blockstmt(&block)) {
        UExpr::Sequence { expressions } => {
            assert_eq!(expressions.len(), 3);
            assert!(matches!(&expressions[0], UExpr::Assignment { .. }));
            match &expressions[1] {
                UExpr::Sequence { expressions: inner } => {
                    assert_eq!(inner.len(), 1);
                    assert!(is_var(&inner[0], "y"));
                }
                other => panic!("unexpected {:?}", other),
            }
            let alone = expr_of(builder().visit_ir(&last));
            assert_eq!(format!("{:?}", expressions[2]), format!("{:?}", alone));
        }
        other => panic!("unexpected {:?}", other),
    }
}

#[test]
fn empty_block_lowers_to_empty_sequence() {
    match expr_of(builder().visit_blockstmt(&IRBlockStmt { body: vec![] })) {
        UExpr::Sequence { expressions } => assert!(expressions.is_empty()),
        other => panic!("unexpected {:?}", other),
    }
}

#[test]
fn block_with_function_child_fails() {
    let block = IRBlockStmt { body: vec![IR::FunDef(fundef("inner", &[], vec![]))] };
    assert!(matches!(builder().visit_blockstmt(&block), Err(UError::ExpectingExpr)));
}

#[test]
fn lt_and_le_lower_to_same_operator() {
    for op in [IRBinOp::Lt, IRBinOp::LtEq] {
        match expr_of(builder().visit_expr(&binary(op, var("a"), var("b")))) {
            UExpr::BinOp { name, .. } => assert_eq!(name, UBinOp::LtEqInt),
            other => panic!("unexpected {:?}", other),
        }
    }
}

#[test]
fn operator_table() {
    let table = [
        (IRBinOp::EqEq, UBinOp::Eq),
        (IRBinOp::NotEq, UBinOp::NotEq),
        (IRBinOp::Lt, UBinOp::LtEqInt),
        (IRBinOp::LtEq, UBinOp::LtEqInt),
        (IRBinOp::Gt, UBinOp::GtInt),
        (IRBinOp::GtEq, UBinOp::GtEqInt),
        (IRBinOp::Add, UBinOp::AddInt),
        (IRBinOp::Sub, UBinOp::SubInt),
        (IRBinOp::Mul, UBinOp::MultInt),
        (IRBinOp::Div, UBinOp::DivInt),
        (IRBinOp::Mod, UBinOp::ModInt),
        (IRBinOp::LogicalOr, UBinOp::Or),
        (IRBinOp::LogicalAnd, UBinOp::And),
    ];
    for (op, expected) in table {
        assert_eq!(ModuleBuilderFromIR::ir_bin_op_to_bin_op(op), expected);
    }
}

#[test]
fn bare_return_fails() {
    let r = IRReturnStmt { expr: None };
    assert!(matches!(builder().visit_retstmt(&r), Err(UError::ExpectingExpr)));
}

#[test]
fn return_with_value_lowers_to_value() {
    let r = IRReturnStmt { expr: Some(var("z")) };
    assert!(is_var(&expr_of(builder().visit_retstmt(&r)), "z"));
}

#[test]
fn apply_is_not_implemented() {
    let apply = IRExpr::Apply(Box::new(IRApply { name: Box::new(ident("f")), args: vec![int_lit(1)] }));
    assert!(matches!(builder().visit_expr(&apply), Err(UError::NotImplemented)));
    let nested = binary(IRBinOp::Add, int_lit(1), IRExpr::Apply(Box::new(IRApply {
        name: Box::new(ident("g")),
        args: vec![],
    })));
    assert!(matches!(builder().visit_expr(&nested), Err(UError::NotImplemented)));
}

#[test]
fn projections_fail_on_wrong_shape() {
    let expr = UNode::Expr(UExpr::Var { name: "v".to_string() });
    assert!(matches!(expr.to_def_result(), Err(UError::ExpectingDefinition)));
    let expr = UNode::Expr(UExpr::Var { name: "v".to_string() });
    assert!(matches!(expr.to_script_result(), Err(UError::ExpectingScript)));
    let script = UNode::Script(vec![]);
    assert!(matches!(script.to_expr_result(), Err(UError::ExpectingExpr)));
    let expr = UNode::Expr(UExpr::Var { name: "v".to_string() });
    assert!(matches!(expr.make_untyped_module("m".to_string()), Err(UError::ExpectingScript)));
}

#[test]
fn lowering_twice_gives_same_tree() {
    let body = vec![
        ret(binary(IRBinOp::Sub, var("a"), int_lit(3))),
    ];
    let script = IR::Script(IRScript { body: vec![IR::FunDef(fundef("f", &["a"], body))] });
    let first = builder().visit_ir(&script);
    let second = builder().visit_ir(&script);
    assert_eq!(format!("{:?}", first), format!("{:?}", second));
}

#[test]
fn literals_lower_by_kind() {
    let b = builder();
    assert!(is_var(&expr_of(b.visit_literal(&IRLiteral::Boolean(true))), "True"));
    assert!(is_var(&expr_of(b.visit_literal(&IRLiteral::Boolean(false))), "False"));
    assert!(is_int(&expr_of(b.visit_literal(&IRLiteral::Float64((5.0f64).to_string()))), "5"));
    assert!(is_int(&expr_of(b.visit_literal(&IRLiteral::Float64((2.5f64).to_string()))), "2.5"));
    match expr_of(b.visit_literal(&IRLiteral::String("hi there".to_string()))) {
        UExpr::String { value } => assert_eq!(value, "hi there"),
        other => panic!("unexpected {:?}", other),
    }
}

#[test]
fn big_integers_lower_to_decimal_text() {
    let b = builder();
    let lit = |negative: bool, magnitude: Vec<u32>| IRLiteral::BigInt(IRBigInt { negative, magnitude });
    assert!(is_int(&expr_of(b.visit_literal(&lit(false, vec![]))), "0"));
    assert!(is_int(&expr_of(b.visit_literal(&lit(true, vec![0]))), "0"));
    assert!(is_int(&expr_of(b.visit_literal(&lit(false, vec![42]))), "42"));
    assert!(is_int(&expr_of(b.visit_literal(&lit(true, vec![42]))), "-42"));
    assert!(is_int(&expr_of(b.visit_literal(&lit(false, vec![0, 1]))), "4294967296"));
    assert!(is_int(&expr_of(b.visit_literal(&lit(true, vec![1, 1]))), "-4294967297"));
}

#[test]
fn paren_and_expression_nodes_lower_as_expressions() {
    assert!(is_var(&expr_of(builder().visit_ir(&IR::Paren(var("p")))), "p"));
    assert!(is_var(&expr_of(builder().visit_ir(&IR::Expr(var("e")))), "e"));
}

#[test]
fn visitor_protocol_dispatches_to_lowering() {
    let b = <ModuleBuilderFromIR as IRVisitor<Result<UNode, UError>>>::new();
    let via_trait = IRVisitor::run(&b, &IR::Expr(var("t")));
    assert!(is_var(&expr_of(via_trait), "t"));
}

#[test]
fn typed_name_reports_its_type() {
    let p = IRNameTy { name: Box::new(ident("f")), ty: IRTy::FunTy(Box::new(IRFunTy {
        param_tys: vec![IRTy::BigIntTy, IRTy::StringTy],
        ret_ty: Box::new(IRTy::BooleanTy),
    })) };
    match p.type_of() {
        IRTy::FunTy(f) => {
            assert_eq!(f.param_tys.len(), 2);
            assert!(matches!(f.param_tys[0], IRTy::BigIntTy));
            assert!(matches!(f.param_tys[1], IRTy::StringTy));
            assert!(matches!(*f.ret_ty, IRTy::BooleanTy));
        }
        other => panic!("unexpected {:?}", other),
    }
}
