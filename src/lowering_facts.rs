//! Facts about lowering that relate several nodes or several calls.

use vstd::prelude::*;

use crate::ir::{IRBinOp, IRBinaryExpr, IRBlockStmt, IRExpr, IRIfStmt, IRReturnStmt, IRScript, IR};
use crate::ir_to_unode::{
    as_expr, expr_node, lowered_block, lowered_defs, lowered_expr, lowered_fundef, lowered_if,
    lowered_ir, lowered_items, lemma_defs_err_persists, result_model, UError, UResult,
};
use crate::untyped::{DefModel, ExprModel, NodeModel};

verus! {

broadcast use vstd::std_specs::vec::axiom_vec_index_decreases;

/// The first `n` children of a script, all function definitions that lower,
/// lower to one definition each, in order.
proof fn lemma_defs_ok(items: Vec<IR>, n: int)
    requires
        0 <= n <= items.len(),
        forall|i: int|
            0 <= i < n ==> (#[trigger] items[i]) is FunDef && lowered_fundef(items[i]->FunDef_0) is Ok,
    ensures
        lowered_defs(items, n) is Ok,
        lowered_defs(items, n)->Ok_0.len() == n,
        forall|i: int|
            0 <= i < n ==> Ok::<DefModel, UError>(#[trigger] lowered_defs(items, n)->Ok_0[i])
                == lowered_fundef(items[i]->FunDef_0),
    decreases n,
{
    if n > 0 {
        lemma_defs_ok(items, n - 1);
    }
}

/// When every function definition among the first `n` children of a script
/// lowers, those children lower, or fail with `ExpectingFunDef`.
proof fn lemma_defs_only_fundef_err(items: Vec<IR>, n: int)
    requires
        0 <= n <= items.len(),
        forall|i: int|
            0 <= i < n && (#[trigger] items[i]) is FunDef ==> lowered_fundef(items[i]->FunDef_0) is Ok,
    ensures
        lowered_defs(items, n) is Ok || lowered_defs(items, n) == Err::<Seq<DefModel>, UError>(
            UError::ExpectingFunDef,
        ),
    decreases n,
{
    if n > 0 {
        lemma_defs_only_fundef_err(items, n - 1);
    }
}

/// The first `k + 1` children of a script, the last of which is not a
/// function definition, fail to lower.
proof fn lemma_defs_fail_after(items: Vec<IR>, k: int)
    requires
        0 <= k < items.len(),
        !(items[k] is FunDef),
    ensures
        lowered_defs(items, k + 1) is Err,
{
}

/// A script whose direct children are all function definitions, each of
/// which lowers, lowers to a script with one definition per child, in the
/// same order, each named as the function it comes from.
pub proof fn lemma_script_of_fundefs(s: IRScript)
    requires
        forall|i: int|
            0 <= i < s.body.len() ==> (#[trigger] s.body[i]) is FunDef && lowered_fundef(
                s.body[i]->FunDef_0,
            ) is Ok,
    ensures
        lowered_ir(IR::Script(s)) is Ok,
        lowered_ir(IR::Script(s))->Ok_0 is Script,
        lowered_ir(IR::Script(s))->Ok_0->Script_0.len() == s.body.len(),
        forall|i: int|
            0 <= i < s.body.len() ==> {
                let d = #[trigger] lowered_ir(IR::Script(s))->Ok_0->Script_0[i];
                &&& Ok::<DefModel, UError>(d) == lowered_fundef(s.body[i]->FunDef_0)
                &&& d->Fn_0.name == s.body[i]->FunDef_0.name.ident@
            },
{
    lemma_defs_ok(s.body, s.body.len() as int);
}

/// A script with a direct child that is not a function definition fails to
/// lower, with no partial result. When every function definition before
/// that child lowers, the error is `ExpectingFunDef`.
pub proof fn lemma_script_rejects_non_fundef(s: IRScript, k: int)
    requires
        0 <= k < s.body.len(),
        !(s.body[k] is FunDef),
    ensures
        lowered_ir(IR::Script(s)) is Err,
        (forall|i: int|
            0 <= i < k && (#[trigger] s.body[i]) is FunDef ==> lowered_fundef(
                s.body[i]->FunDef_0,
            ) is Ok) ==> lowered_ir(IR::Script(s)) == Err::<NodeModel, UError>(
            UError::ExpectingFunDef,
        ),
{
    let items = s.body;
    let len = items.len() as int;
    lemma_defs_fail_after(items, k);
    lemma_defs_err_persists(items, k + 1, len);
    if forall|i: int|
        0 <= i < k && (#[trigger] items[i]) is FunDef ==> lowered_fundef(items[i]->FunDef_0) is Ok {
        lemma_defs_only_fundef_err(items, k);
    }
}

/// The first `n` nodes of a block, when they lower, lower to one expression
/// each, the lowering of that node on its own.
proof fn lemma_items_ok(items: Vec<IR>, n: int)
    requires
        0 <= n <= items.len(),
        lowered_items(items, n) is Ok,
    ensures
        lowered_items(items, n)->Ok_0.len() == n,
        forall|i: int|
            0 <= i < n ==> Ok::<ExprModel, UError>(#[trigger] lowered_items(items, n)->Ok_0[i])
                == as_expr(lowered_ir(items[i])),
    decreases n,
{
    if n > 0 {
        lemma_items_ok(items, n - 1);
    }
}

/// A block that lowers becomes a sequence with one element per child; each
/// element, the last one included, is that child's own lowering.
pub proof fn lemma_block_shape(b: IRBlockStmt)
    requires
        lowered_block(b) is Ok,
    ensures
        lowered_block(b)->Ok_0 is Sequence,
        lowered_block(b)->Ok_0->Sequence_0.len() == b.body.len(),
        forall|i: int|
            0 <= i < b.body.len() ==> Ok::<ExprModel, UError>(
                #[trigger] lowered_block(b)->Ok_0->Sequence_0[i],
            ) == as_expr(lowered_ir(b.body[i])),
        b.body.len() > 0 ==> Ok::<ExprModel, UError>(lowered_block(b)->Ok_0->Sequence_0.last())
            == as_expr(lowered_ir(b.body@.last())),
{
    lemma_items_ok(b.body, b.body.len() as int);
}

/// `<` and `<=` lower to the same backend operator, on any operands.
pub proof fn lemma_lt_and_le_collapse(left: IRExpr, right: IRExpr)
    ensures
        lowered_expr(
            IRExpr::Binary(Box::new(IRBinaryExpr { op: IRBinOp::Lt, left: Box::new(left), right: Box::new(right) })),
        ) == lowered_expr(
            IRExpr::Binary(Box::new(IRBinaryExpr { op: IRBinOp::LtEq, left: Box::new(left), right: Box::new(right) })),
        ),
{
}

/// A bare `return` fails to lower with `ExpectingExpr`; a `return` with a
/// value lowers exactly as that value does.
pub proof fn lemma_return_lowering(r: IRReturnStmt)
    ensures
        r.expr is None ==> lowered_ir(IR::ReturnStmt(r)) == Err::<NodeModel, UError>(
            UError::ExpectingExpr,
        ),
        r.expr is Some ==> lowered_ir(IR::ReturnStmt(r)) == expr_node(lowered_expr(r.expr->Some_0)),
{
}

/// Lowering is a function of the node alone: two lowerings of the same node
/// give results with the same model.
pub proof fn lemma_lowering_deterministic(ir: IR, first: UResult, second: UResult)
    requires
        result_model(first) == lowered_ir(ir),
        result_model(second) == lowered_ir(ir),
    ensures
        result_model(first) == result_model(second),
{
}

/// An `if` lowers without reading its `then` arm: its branch body and its
/// final else are both the lowering of the `else` arm.
pub proof fn lemma_if_uses_else_arm(i: IRIfStmt, other_then: IR)
    ensures
        lowered_if(i) == lowered_if(IRIfStmt { _if: i._if, _then: Box::new(other_then), _else: i._else }),
        lowered_if(i) is Ok ==> {
            let x = lowered_if(i)->Ok_0;
            &&& x is If
            &&& Ok::<ExprModel, UError>(*x->If_1) == as_expr(lowered_ir(*i._else))
            &&& Ok::<ExprModel, UError>(*x->If_2) == as_expr(lowered_ir(*i._else))
        },
{
}

} // verus!
