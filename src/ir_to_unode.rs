//! Lowering of the IR to the backend's untyped tree.
//!
//! Lowering is a pure function of the node: each spec function below states
//! what a node lowers to, and each `visit_*` method of [`ModuleBuilderFromIR`]
//! is proved to compute it. The first error met aborts the whole traversal.

use vstd::prelude::*;

use crate::ir::{
    digits_value, int_decimal, signed_value, IRApply, IRBinOp, IRBinaryExpr, IRBlockStmt, IRExpr,
    IRExprStmt, IRFunDef, IRIdent, IRIfStmt, IRLiteral, IRNameTy, IRReturnStmt, IRScript, IRVarDef,
    IR,
};
use crate::ir_visitor::IRVisitor;
use crate::untyped::{
    defs_model, exprs_model, lemma_sequence_model, DefModel, ExprModel, FunctionModel, ModuleKind,
    ModuleModel, NodeModel, UArg, UBinOp, UDef, UExpr, UFunction, UModule, UNode,
};

verus! {

broadcast use vstd::std_specs::vec::axiom_vec_index_decreases;

/// Relies on num_bigint: `BigInt::from_slice` builds the integer of the given
/// sign from base 2^32 digits, least significant first, and `BigInt`'s
/// `Display` writes it in decimal, after a `-` when it is negative.
#[verifier::external_body]
fn bigint_decimal(negative: bool, magnitude: &Vec<u32>) -> (r: String)
    ensures
        r@ == int_decimal(signed_value(negative, digits_value(magnitude@))),
{
    let sign = if negative {
        num_bigint::Sign::Minus
    } else {
        num_bigint::Sign::Plus
    };
    num_bigint::BigInt::from_slice(sign, magnitude).to_string()
}

/// Why lowering failed.
#[derive(Clone, Copy, Debug, PartialEq, Eq, Structural)]
pub enum UError {
    /// A node that had to be an expression was not.
    ExpectingExpr,
    /// A node that had to be a definition was not.
    ExpectingDefinition,
    /// A node that had to be a script was not.
    ExpectingScript,
    /// A direct child of a script was not a function definition.
    ExpectingFunDef,
    /// The node kind has no lowering rule yet (function application).
    NotImplemented,
}

/// What every `visit_*` method returns.
pub type UResult = Result<UNode, UError>;

/// The backend operator for an IR operator. All operators are the integer
/// ones; `<` and `<=` both become `LtEqInt`.
pub open spec fn bin_op_of(op: IRBinOp) -> UBinOp {
    match op {
        IRBinOp::EqEq => UBinOp::Eq,
        IRBinOp::NotEq => UBinOp::NotEq,
        IRBinOp::Lt => UBinOp::LtEqInt,
        IRBinOp::LtEq => UBinOp::LtEqInt,
        IRBinOp::Gt => UBinOp::GtInt,
        IRBinOp::GtEq => UBinOp::GtEqInt,
        IRBinOp::Add => UBinOp::AddInt,
        IRBinOp::Sub => UBinOp::SubInt,
        IRBinOp::Mul => UBinOp::MultInt,
        IRBinOp::Div => UBinOp::DivInt,
        IRBinOp::Mod => UBinOp::ModInt,
        IRBinOp::LogicalOr => UBinOp::Or,
        IRBinOp::LogicalAnd => UBinOp::And,
    }
}

/// The name of the backend's built-in constructor for a boolean.
pub open spec fn bool_name(b: bool) -> Seq<char> {
    if b {
        seq!['T', 'r', 'u', 'e']
    } else {
        seq!['F', 'a', 'l', 's', 'e']
    }
}

/// What a literal lowers to.
pub open spec fn lowered_literal(l: IRLiteral) -> ExprModel {
    match l {
        IRLiteral::Boolean(b) => ExprModel::Var(bool_name(b)),
        IRLiteral::Float64(text) => ExprModel::Int(text@),
        IRLiteral::BigInt(n) => ExprModel::Int(int_decimal(n.value())),
        IRLiteral::String(s) => ExprModel::Str(s@),
    }
}

/// What an expression lowers to.
pub open spec fn lowered_expr(e: IRExpr) -> Result<ExprModel, UError>
    decreases e,
{
    match e {
        IRExpr::Literal(l) => Ok(lowered_literal(l)),
        IRExpr::Identifier(id) => Ok(ExprModel::Var(id.ident@)),
        IRExpr::Binary(b) => match lowered_expr(*b.left) {
            Err(err) => Err(err),
            Ok(left) => match lowered_expr(*b.right) {
                Err(err) => Err(err),
                Ok(right) => Ok(ExprModel::BinOp(bin_op_of(b.op), Box::new(left), Box::new(right))),
            },
        },
        IRExpr::Apply(_) => Err(UError::NotImplemented),
    }
}

/// The expression that a lowering result holds, or the error that projecting
/// it to an expression gives.
pub open spec fn as_expr(r: Result<NodeModel, UError>) -> Result<ExprModel, UError> {
    match r {
        Err(err) => Err(err),
        Ok(NodeModel::Expr(x)) => Ok(x),
        Ok(_) => Err(UError::ExpectingExpr),
    }
}

/// The definition that a lowering result holds, or the error that
/// projecting it to a definition gives.
pub open spec fn as_def(r: Result<NodeModel, UError>) -> Result<DefModel, UError> {
    match r {
        Err(err) => Err(err),
        Ok(NodeModel::Def(d)) => Ok(d),
        Ok(_) => Err(UError::ExpectingDefinition),
    }
}

/// The definitions that a lowering result holds, or the error that
/// projecting it to a script gives.
pub open spec fn as_script(r: Result<NodeModel, UError>) -> Result<Seq<DefModel>, UError> {
    match r {
        Err(err) => Err(err),
        Ok(NodeModel::Script(ds)) => Ok(ds),
        Ok(_) => Err(UError::ExpectingScript),
    }
}

/// An expression result, as a node result.
pub open spec fn expr_node(r: Result<ExprModel, UError>) -> Result<NodeModel, UError> {
    match r {
        Err(err) => Err(err),
        Ok(x) => Ok(NodeModel::Expr(x)),
    }
}

/// A definition result, as a node result.
pub open spec fn def_node(r: Result<DefModel, UError>) -> Result<NodeModel, UError> {
    match r {
        Err(err) => Err(err),
        Ok(d) => Ok(NodeModel::Def(d)),
    }
}

/// A script result, as a node result.
pub open spec fn script_node(r: Result<Seq<DefModel>, UError>) -> Result<NodeModel, UError> {
    match r {
        Err(err) => Err(err),
        Ok(ds) => Ok(NodeModel::Script(ds)),
    }
}

/// What a variable definition lowers to: an immutable binding of its name to
/// its lowered initializer, whatever its mutability flag says.
pub open spec fn lowered_vardef(v: IRVarDef) -> Result<ExprModel, UError> {
    match lowered_expr(*v.value) {
        Err(err) => Err(err),
        Ok(value) => Ok(ExprModel::Let(v.name.ident@, Box::new(value))),
    }
}

/// What a `return` lowers to: the lowering of its value. A bare `return` has
/// no lowering.
pub open spec fn lowered_retstmt(r: IRReturnStmt) -> Result<ExprModel, UError> {
    match r.expr {
        None => Err(UError::ExpectingExpr),
        Some(e) => lowered_expr(e),
    }
}

/// What an expression statement lowers to: a one-element sequence.
pub open spec fn lowered_exprstmt(s: IRExprStmt) -> Result<ExprModel, UError> {
    match lowered_expr(s.expr) {
        Err(err) => Err(err),
        Ok(x) => Ok(ExprModel::Sequence(seq![x])),
    }
}

/// The names of a function's parameters, in order.
pub open spec fn param_names(ps: Seq<IRNameTy>) -> Seq<Seq<char>> {
    Seq::new(ps.len(), |i: int| ps[i].name.ident@)
}

/// What a node lowers to.
pub open spec fn lowered_ir(ir: IR) -> Result<NodeModel, UError>
    decreases ir, 0int,
{
    match ir {
        IR::Script(s) => script_node(lowered_script(s)),
        IR::FunDef(f) => def_node(lowered_fundef(f)),
        IR::VarDef(v) => expr_node(lowered_vardef(v)),
        IR::ReturnStmt(r) => expr_node(lowered_retstmt(r)),
        IR::BlockStmt(b) => expr_node(lowered_block(b)),
        IR::IfStmt(i) => expr_node(lowered_if(i)),
        IR::ExprStmt(s) => expr_node(lowered_exprstmt(s)),
        IR::Expr(e) => expr_node(lowered_expr(e)),
        IR::Paren(e) => expr_node(lowered_expr(e)),
    }
}

/// What an `if` lowers to: a conditional on the lowered condition whose one
/// branch and whose final else are both lowered from the `else` arm. The
/// `then` arm is not read: this keeps the behavior of the design this pass
/// implements, and is a known defect.
pub open spec fn lowered_if(i: IRIfStmt) -> Result<ExprModel, UError>
    decreases i, 0int,
{
    match lowered_expr(*i._if) {
        Err(err) => Err(err),
        Ok(cond) => match as_expr(lowered_ir(*i._else)) {
            Err(err) => Err(err),
            Ok(body) => Ok(
                ExprModel::If(Box::new(cond), Box::new(body), Box::new(body)),
            ),
        },
    }
}

/// What the first `n` nodes of a block lower to, each as an expression.
pub open spec fn lowered_items(items: Vec<IR>, n: int) -> Result<Seq<ExprModel>, UError>
    decreases items, n,
{
    if n <= 0 || n > items.len() {
        Ok(Seq::empty())
    } else {
        match lowered_items(items, n - 1) {
            Err(err) => Err(err),
            Ok(es) => match as_expr(lowered_ir(items[n - 1])) {
                Err(err) => Err(err),
                Ok(x) => Ok(es.push(x)),
            },
        }
    }
}

/// What a block lowers to: the sequence of its lowered nodes.
pub open spec fn lowered_block(b: IRBlockStmt) -> Result<ExprModel, UError>
    decreases b, 0int,
{
    match lowered_items(b.body, b.body.len() as int) {
        Err(err) => Err(err),
        Ok(es) => Ok(ExprModel::Sequence(es)),
    }
}

/// What a function definition lowers to: a public function with one
/// unannotated argument per parameter and the lowered body.
pub open spec fn lowered_fundef(f: IRFunDef) -> Result<DefModel, UError>
    decreases f, 0int,
{
    match lowered_block(*f.body) {
        Err(err) => Err(err),
        Ok(body) => Ok(
            DefModel::Fn(
                FunctionModel {
                    name: f.name.ident@,
                    arguments: param_names(f.params@),
                    body,
                    public: true,
                },
            ),
        ),
    }
}

/// What the first `n` children of a script lower to, each of which must be a
/// function definition.
pub open spec fn lowered_defs(items: Vec<IR>, n: int) -> Result<Seq<DefModel>, UError>
    decreases items, n,
{
    if n <= 0 || n > items.len() {
        Ok(Seq::empty())
    } else {
        match lowered_defs(items, n - 1) {
            Err(err) => Err(err),
            Ok(ds) => match items[n - 1] {
                IR::FunDef(f) => match lowered_fundef(f) {
                    Err(err) => Err(err),
                    Ok(d) => Ok(ds.push(d)),
                },
                _ => Err(UError::ExpectingFunDef),
            },
        }
    }
}

/// What a script lowers to: its lowered function definitions, in order.
pub open spec fn lowered_script(s: IRScript) -> Result<Seq<DefModel>, UError>
    decreases s, 0int,
{
    lowered_defs(s.body, s.body.len() as int)
}

/// The model of a lowering result.
pub open spec fn result_model(r: UResult) -> Result<NodeModel, UError> {
    match r {
        Err(err) => Err(err),
        Ok(n) => Ok(n.model()),
    }
}

/// Narrowing of a lowering result to the shape that a caller expects.
pub trait UNodeProjector {
    fn to_expr_result(self) -> Result<UExpr, UError>;

    fn to_def_result(self) -> Result<UDef, UError>;

    fn to_script_result(self) -> Result<Vec<UDef>, UError>;
}

impl UNodeProjector for UNode {
    fn to_expr_result(self) -> Result<UExpr, UError> {
        UNode::to_expr_result(self)
    }

    fn to_def_result(self) -> Result<UDef, UError> {
        UNode::to_def_result(self)
    }

    fn to_script_result(self) -> Result<Vec<UDef>, UError> {
        UNode::to_script_result(self)
    }
}

/// The lowering pass as a visitor: each kind's method is the proved lowering
/// of that kind.
impl IRVisitor<UResult> for ModuleBuilderFromIR {
    fn new() -> Self {
        ModuleBuilderFromIR
    }

    fn visit_script(&self, script: &IRScript) -> UResult {
        ModuleBuilderFromIR::visit_script(self, script)
    }

    fn visit_fundef(&self, fundef: &IRFunDef) -> UResult {
        ModuleBuilderFromIR::visit_fundef(self, fundef)
    }

    fn visit_vardef(&self, vardef: &IRVarDef) -> UResult {
        ModuleBuilderFromIR::visit_vardef(self, vardef)
    }

    fn visit_retstmt(&self, retstmt: &IRReturnStmt) -> UResult {
        ModuleBuilderFromIR::visit_retstmt(self, retstmt)
    }

    fn visit_blockstmt(&self, blockstmt: &IRBlockStmt) -> UResult {
        ModuleBuilderFromIR::visit_blockstmt(self, blockstmt)
    }

    fn visit_ifstmt(&self, ifstmt: &IRIfStmt) -> UResult {
        ModuleBuilderFromIR::visit_ifstmt(self, ifstmt)
    }

    fn visit_exprstmt(&self, exprstmt: &IRExprStmt) -> UResult {
        ModuleBuilderFromIR::visit_exprstmt(self, exprstmt)
    }

    fn visit_literal(&self, literal: &IRLiteral) -> UResult {
        ModuleBuilderFromIR::visit_literal(self, literal)
    }

    fn visit_ident(&self, ident: &IRIdent) -> UResult {
        ModuleBuilderFromIR::visit_ident(self, ident)
    }

    fn visit_binary_op(&self, binary_op: &IRBinaryExpr) -> UResult {
        ModuleBuilderFromIR::visit_binary_op(self, binary_op)
    }

    fn visit_apply(&self, apply: &IRApply) -> UResult {
        ModuleBuilderFromIR::visit_apply(self, apply)
    }
}

/// Once the first `k` nodes of a block fail to lower, so do the first `n`,
/// with the same error.
pub proof fn lemma_items_err_persists(items: Vec<IR>, k: int, n: int)
    requires
        0 <= k <= n <= items.len(),
        lowered_items(items, k) is Err,
    ensures
        lowered_items(items, n) == lowered_items(items, k),
    decreases n - k,
{
    if k < n {
        lemma_items_err_persists(items, k, n - 1);
    }
}

/// Once the first `k` children of a script fail to lower, so do the first
/// `n`, with the same error.
pub proof fn lemma_defs_err_persists(items: Vec<IR>, k: int, n: int)
    requires
        0 <= k <= n <= items.len(),
        lowered_defs(items, k) is Err,
    ensures
        lowered_defs(items, n) == lowered_defs(items, k),
    decreases n - k,
{
    if k < n {
        lemma_defs_err_persists(items, k, n - 1);
    }
}

impl UNode {
    /// Projects to an expression.
    pub fn to_expr_result(self) -> (r: Result<UExpr, UError>)
        ensures
            match r {
                Ok(x) => as_expr(Ok(self.model())) == Ok::<ExprModel, UError>(x.model()),
                Err(err) => as_expr(Ok(self.model())) == Err::<ExprModel, UError>(err),
            },
    {
        match self {
            UNode::Expr(v) => Ok(v),
            _ => Err(UError::ExpectingExpr),
        }
    }

    /// Projects to a definition.
    pub fn to_def_result(self) -> (r: Result<UDef, UError>)
        ensures
            match r {
                Ok(d) => as_def(Ok(self.model())) == Ok::<DefModel, UError>(d.model()),
                Err(err) => as_def(Ok(self.model())) == Err::<DefModel, UError>(err),
            },
    {
        match self {
            UNode::Def(v) => Ok(v),
            _ => Err(UError::ExpectingDefinition),
        }
    }

    /// Projects to the definitions of a script.
    pub fn to_script_result(self) -> (r: Result<Vec<UDef>, UError>)
        ensures
            match r {
                Ok(ds) => as_script(Ok(self.model())) == Ok::<Seq<DefModel>, UError>(
                    defs_model(ds@),
                ),
                Err(err) => as_script(Ok(self.model())) == Err::<Seq<DefModel>, UError>(err),
            },
    {
        match self {
            UNode::Script(v) => Ok(v),
            _ => Err(UError::ExpectingScript),
        }
    }

    /// Wraps the definitions of a script into a validator module named
    /// `name`, with no docs.
    pub fn make_untyped_module(self, name: String) -> (r: Result<UModule, UError>)
        ensures
            match as_script(Ok(self.model())) {
                Ok(ds) => r is Ok && r->Ok_0.model() == (ModuleModel {
                    name: name@,
                    kind: ModuleKind::Validator,
                    docs: Seq::empty(),
                    definitions: ds,
                }),
                Err(err) => r == Err::<UModule, UError>(err),
            },
    {
        let definitions = match self.to_script_result() {
            Ok(ds) => ds,
            Err(err) => return Err(err),
        };
        let module = UModule {
            name,
            kind: ModuleKind::Validator,
            docs: Vec::new(),
            definitions,
        };
        proof {
            assert(module.model().docs =~= Seq::<Seq<char>>::empty());
        }
        Ok(module)
    }
}

/// The lowering pass. It holds no state: every method is a pure function of
/// the node it is given.
pub struct ModuleBuilderFromIR;

impl ModuleBuilderFromIR {
    pub fn new() -> Self {
        ModuleBuilderFromIR
    }

    /// Lowers a binary operator.
    pub fn ir_bin_op_to_bin_op(op: IRBinOp) -> (r: UBinOp)
        ensures
            r == bin_op_of(op),
    {
        match op {
            IRBinOp::EqEq => UBinOp::Eq,
            IRBinOp::NotEq => UBinOp::NotEq,
            IRBinOp::Lt => UBinOp::LtEqInt,
            IRBinOp::LtEq => UBinOp::LtEqInt,
            IRBinOp::Gt => UBinOp::GtInt,
            IRBinOp::GtEq => UBinOp::GtEqInt,
            IRBinOp::Add => UBinOp::AddInt,
            IRBinOp::Sub => UBinOp::SubInt,
            IRBinOp::Mul => UBinOp::MultInt,
            IRBinOp::Div => UBinOp::DivInt,
            IRBinOp::Mod => UBinOp::ModInt,
            IRBinOp::LogicalOr => UBinOp::Or,
            IRBinOp::LogicalAnd => UBinOp::And,
        }
    }

    /// Lowers a literal.
    pub fn visit_literal(&self, literal: &IRLiteral) -> (r: UResult)
        ensures
            result_model(r) == expr_node(Ok(lowered_literal(*literal))),
    {
        let result = match literal {
            IRLiteral::Boolean(v) => {
                let name = if *v {
                    "True".to_string()
                } else {
                    "False".to_string()
                };
                proof {
                    reveal_strlit("True");
                    reveal_strlit("False");
                    assert(name@ =~= bool_name(*v));
                }
                UExpr::Var { name }
            },
            IRLiteral::Float64(v) => UExpr::Int { value: v.clone() },
            IRLiteral::String(v) => UExpr::String { value: v.clone() },
            IRLiteral::BigInt(v) => UExpr::Int { value: bigint_decimal(v.negative, &v.magnitude) },
        };
        Ok(UNode::Expr(result))
    }

    /// Lowers an identifier to a variable reference of the same name.
    pub fn visit_ident(&self, ident: &IRIdent) -> (r: UResult)
        ensures
            result_model(r) == expr_node(Ok(ExprModel::Var(ident.ident@))),
    {
        Ok(UNode::Expr(UExpr::Var { name: ident.ident.clone() }))
    }

    /// Function application has no lowering yet: it always fails.
    pub fn visit_apply(&self, apply: &IRApply) -> (r: UResult)
        ensures
            r == Err::<UNode, UError>(UError::NotImplemented),
    {
        Err(UError::NotImplemented)
    }

    /// Lowers a binary expression.
    pub fn visit_binary_op(&self, binary_op: &IRBinaryExpr) -> (r: UResult)
        ensures
            result_model(r) == expr_node(lowered_expr(IRExpr::Binary(Box::new(*binary_op)))),
        decreases binary_op, 1int,
    {
        let name = Self::ir_bin_op_to_bin_op(binary_op.op);
        let left = match self.visit_expr(&binary_op.left) {
            Err(err) => return Err(err),
            Ok(n) => match n.to_expr_result() {
                Err(err) => return Err(err),
                Ok(x) => x,
            },
        };
        let right = match self.visit_expr(&binary_op.right) {
            Err(err) => return Err(err),
            Ok(n) => match n.to_expr_result() {
                Err(err) => return Err(err),
                Ok(x) => x,
            },
        };
        Ok(UNode::Expr(UExpr::BinOp { name, left: Box::new(left), right: Box::new(right) }))
    }

    /// Lowers an expression, by its kind.
    pub fn visit_expr(&self, expr: &IRExpr) -> (r: UResult)
        ensures
            result_model(r) == expr_node(lowered_expr(*expr)),
        decreases expr, 2int,
    {
        match expr {
            IRExpr::Literal(literal) => self.visit_literal(literal),
            IRExpr::Identifier(ident) => self.visit_ident(ident),
            IRExpr::Binary(binary_op) => self.visit_binary_op(binary_op),
            IRExpr::Apply(apply) => self.visit_apply(apply),
        }
    }

    /// Lowers an expression and projects it to an expression.
    fn lower_to_expr(&self, expr: &IRExpr) -> (r: Result<UExpr, UError>)
        ensures
            match r {
                Ok(x) => lowered_expr(*expr) == Ok::<ExprModel, UError>(x.model()),
                Err(err) => lowered_expr(*expr) == Err::<ExprModel, UError>(err),
            },
    {
        match self.visit_expr(expr) {
            Err(err) => Err(err),
            Ok(n) => n.to_expr_result(),
        }
    }

    /// Lowers a variable definition to an immutable binding.
    pub fn visit_vardef(&self, vardef: &IRVarDef) -> (r: UResult)
        ensures
            result_model(r) == expr_node(lowered_vardef(*vardef)),
    {
        let value = match self.lower_to_expr(&vardef.value) {
            Err(err) => return Err(err),
            Ok(x) => x,
        };
        let pattern = vardef.name.ident.clone();
        Ok(UNode::Expr(UExpr::Assignment { pattern, value: Box::new(value) }))
    }

    /// Lowers a `return` to its lowered value; a bare `return` fails.
    pub fn visit_retstmt(&self, retstmt: &IRReturnStmt) -> (r: UResult)
        ensures
            result_model(r) == expr_node(lowered_retstmt(*retstmt)),
    {
        match &retstmt.expr {
            None => Err(UError::ExpectingExpr),
            Some(v) => match self.lower_to_expr(v) {
                Err(err) => Err(err),
                Ok(x) => Ok(UNode::Expr(x)),
            },
        }
    }

    /// Lowers an expression statement to a one-element sequence.
    pub fn visit_exprstmt(&self, exprstmt: &IRExprStmt) -> (r: UResult)
        ensures
            result_model(r) == expr_node(lowered_exprstmt(*exprstmt)),
    {
        let expr = match self.lower_to_expr(&exprstmt.expr) {
            Err(err) => return Err(err),
            Ok(x) => x,
        };
        let expressions = vec![expr];
        proof {
            assert(exprs_model(expressions@) =~= seq![expr.model()]);
            lemma_sequence_model(expressions);
        }
        Ok(UNode::Expr(UExpr::Sequence { expressions }))
    }

    /// Lowers a block to the sequence of its lowered nodes, each of which
    /// must be an expression.
    #[verifier::loop_isolation(false)]
    pub fn visit_blockstmt(&self, blockstmt: &IRBlockStmt) -> (r: UResult)
        ensures
            result_model(r) == expr_node(lowered_block(*blockstmt)),
        decreases blockstmt, 0int,
    {
        let body = &blockstmt.body;
        let mut expressions: Vec<UExpr> = Vec::new();
        let mut i: usize = 0;
        assert(exprs_model(expressions@) =~= Seq::empty());
        while i < body.len()
            invariant
                0 <= i <= body.len(),
                lowered_items(*body, i as int) == Ok::<Seq<ExprModel>, UError>(
                    exprs_model(expressions@),
                ),
            decreases body.len() - i,
        {
            proof {
                assert(decreases_to!(*body => body[i as int]));
            }
            let node = self.visit_ir(&body[i]);
            let expr = match node {
                Err(err) => {
                    proof {
                        lemma_items_err_persists(*body, i + 1, body.len() as int);
                    }
                    return Err(err);
                },
                Ok(n) => match n.to_expr_result() {
                    Err(err) => {
                        proof {
                            lemma_items_err_persists(*body, i + 1, body.len() as int);
                        }
                        return Err(err);
                    },
                    Ok(x) => x,
                },
            };
            let ghost before = expressions@;
            expressions.push(expr);
            proof {
                assert(exprs_model(expressions@) =~= exprs_model(before).push(expr.model()));
            }
            i = i + 1;
        }
        proof {
            lemma_sequence_model(expressions);
        }
        Ok(UNode::Expr(UExpr::Sequence { expressions }))
    }

    /// Lowers an `if`. Both the branch body and the final else come from the
    /// `else` arm; the `then` arm is not read (a known defect of this
    /// design, kept as it is).
    pub fn visit_ifstmt(&self, ifstmt: &IRIfStmt) -> (r: UResult)
        ensures
            result_model(r) == expr_node(lowered_if(*ifstmt)),
        decreases ifstmt, 0int,
    {
        let condition = match self.lower_to_expr(&ifstmt._if) {
            Err(err) => return Err(err),
            Ok(x) => x,
        };
        let body = match self.visit_ir(&ifstmt._else) {
            Err(err) => return Err(err),
            Ok(n) => match n.to_expr_result() {
                Err(err) => return Err(err),
                Ok(x) => x,
            },
        };
        let final_else = match self.visit_ir(&ifstmt._else) {
            Err(err) => return Err(err),
            Ok(n) => match n.to_expr_result() {
                Err(err) => return Err(err),
                Ok(x) => x,
            },
        };
        Ok(
            UNode::Expr(
                UExpr::If {
                    condition: Box::new(condition),
                    body: Box::new(body),
                    final_else: Box::new(final_else),
                },
            ),
        )
    }

    /// Lowers a function definition to a public function whose arguments are
    /// the parameters' names, without their types.
    #[verifier::loop_isolation(false)]
    pub fn visit_fundef(&self, fundef: &IRFunDef) -> (r: UResult)
        ensures
            result_model(r) == def_node(lowered_fundef(*fundef)),
        decreases fundef, 0int,
    {
        let params = &fundef.params;
        let mut arguments: Vec<UArg> = Vec::new();
        let mut i: usize = 0;
        while i < params.len()
            invariant
                0 <= i <= params.len(),
                arguments@.len() == i,
                forall|j: int| 0 <= j < i ==> #[trigger] arguments@[j].name@ == params@[j].name.ident@,
            decreases params.len() - i,
        {
            let name = params[i].name.ident.clone();
            arguments.push(UArg { name });
            i = i + 1;
        }
        let body = match self.visit_blockstmt(&fundef.body) {
            Err(err) => return Err(err),
            Ok(n) => match n.to_expr_result() {
                Err(err) => return Err(err),
                Ok(x) => x,
            },
        };
        let name = fundef.name.ident.clone();
        let f = UFunction { name, arguments, body, public: true };
        proof {
            assert(f.model().arguments =~= param_names(params@));
        }
        Ok(UNode::Def(UDef::Fn(f)))
    }

    /// Lowers a script: every direct child must be a function definition.
    #[verifier::loop_isolation(false)]
    pub fn visit_script(&self, script: &IRScript) -> (r: UResult)
        ensures
            result_model(r) == script_node(lowered_script(*script)),
        decreases script, 0int,
    {
        let body = &script.body;
        let mut fundefs: Vec<UDef> = Vec::new();
        let mut i: usize = 0;
        assert(defs_model(fundefs@) =~= Seq::empty());
        while i < body.len()
            invariant
                0 <= i <= body.len(),
                lowered_defs(*body, i as int) == Ok::<Seq<DefModel>, UError>(
                    defs_model(fundefs@),
                ),
            decreases body.len() - i,
        {
            proof {
                assert(decreases_to!(*body => body[i as int]));
            }
            let fundef = match &body[i] {
                IR::FunDef(v) => v,
                _ => {
                    proof {
                        lemma_defs_err_persists(*body, i + 1, body.len() as int);
                    }
                    return Err(UError::ExpectingFunDef);
                },
            };
            let def = match self.visit_fundef(fundef) {
                Err(err) => {
                    proof {
                        lemma_defs_err_persists(*body, i + 1, body.len() as int);
                    }
                    return Err(err);
                },
                Ok(n) => match n.to_def_result() {
                    Err(err) => {
                        proof {
                            lemma_defs_err_persists(*body, i + 1, body.len() as int);
                        }
                        return Err(err);
                    },
                    Ok(d) => d,
                },
            };
            let ghost before = fundefs@;
            fundefs.push(def);
            proof {
                assert(defs_model(fundefs@) =~= defs_model(before).push(def.model()));
            }
            i = i + 1;
        }
        Ok(UNode::Script(fundefs))
    }

    /// Lowers any node, by its kind.
    pub fn visit_ir(&self, ir: &IR) -> (r: UResult)
        ensures
            result_model(r) == lowered_ir(*ir),
        decreases ir, 1int,
    {
        match ir {
            IR::Script(script) => self.visit_script(script),
            IR::FunDef(fundef) => self.visit_fundef(fundef),
            IR::VarDef(vardef) => self.visit_vardef(vardef),
            IR::ReturnStmt(retstmt) => self.visit_retstmt(retstmt),
            IR::BlockStmt(blockstmt) => self.visit_blockstmt(blockstmt),
            IR::IfStmt(ifstmt) => self.visit_ifstmt(ifstmt),
            IR::ExprStmt(exprstmt) => self.visit_exprstmt(exprstmt),
            IR::Expr(expr) => self.visit_expr(expr),
            IR::Paren(expr) => self.visit_expr(expr),
        }
    }

    /// Lowers a script node and wraps its definitions into a validator module
    /// named `name`. Any node but a script fails; so does a script that
    /// fails to lower.
    pub fn build_module(&self, ir: &IR, name: String) -> (r: Result<UModule, UError>)
        ensures
            match as_script(lowered_ir(*ir)) {
                Ok(ds) => r is Ok && r->Ok_0.model() == (ModuleModel {
                    name: name@,
                    kind: ModuleKind::Validator,
                    docs: Seq::empty(),
                    definitions: ds,
                }),
                Err(err) => r == Err::<UModule, UError>(err),
            },
    {
        match self.visit_ir(ir) {
            Err(err) => Err(err),
            Ok(node) => node.make_untyped_module(name),
        }
    }

    /// Lowers a node; the entry point of the pass.
    pub fn run(&self, ir: &IR) -> (r: UResult)
        ensures
            result_model(r) == lowered_ir(*ir),
    {
        self.visit_ir(ir)
    }
}

} // verus!
