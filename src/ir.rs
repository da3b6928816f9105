//! The IR: a tagged tree of program nodes. Nodes are built once upstream and
//! only read afterwards.

use vstd::prelude::*;

use crate::ir_type::{IRFunTy, IRTy, TyModel, TypeOf};

verus! {

/// A name at a binding site or a reference. Names are matched as plain text.
#[derive(Clone, Debug)]
pub struct IRIdent {
    pub ident: String,
}

/// An arbitrary-precision integer, held as a sign and a magnitude written as
/// base 2^32 digits, least significant digit first.
#[derive(Clone, Debug)]
pub struct IRBigInt {
    pub negative: bool,
    pub magnitude: Vec<u32>,
}

/// The value of base 2^32 digits, least significant first.
pub open spec fn digits_value(d: Seq<u32>) -> nat
    decreases d.len(),
{
    if d.len() == 0 {
        0
    } else {
        d[0] as nat + 4294967296 * digits_value(d.drop_first())
    }
}

/// The integer with the given sign and magnitude.
pub open spec fn signed_value(negative: bool, magnitude: nat) -> int {
    if negative {
        -(magnitude as int)
    } else {
        magnitude as int
    }
}

impl IRBigInt {
    /// The integer that this literal stands for.
    pub open spec fn value(&self) -> int {
        signed_value(self.negative, digits_value(self.magnitude@))
    }
}

/// The character of a decimal digit.
pub open spec fn digit_char(d: nat) -> char {
    if d == 0 {
        '0'
    } else if d == 1 {
        '1'
    } else if d == 2 {
        '2'
    } else if d == 3 {
        '3'
    } else if d == 4 {
        '4'
    } else if d == 5 {
        '5'
    } else if d == 6 {
        '6'
    } else if d == 7 {
        '7'
    } else if d == 8 {
        '8'
    } else {
        '9'
    }
}

/// The decimal digits of a natural number, without leading zeros.
pub open spec fn nat_decimal(n: nat) -> Seq<char>
    decreases n,
{
    if n < 10 {
        seq![digit_char(n)]
    } else {
        nat_decimal(n / 10).push(digit_char(n % 10))
    }
}

/// The canonical decimal text of an integer: its digits, after a `-` when it
/// is negative.
pub open spec fn int_decimal(i: int) -> Seq<char> {
    if i < 0 {
        seq!['-'] + nat_decimal((-i) as nat)
    } else {
        nat_decimal(i as nat)
    }
}

/// A source-level constant.
#[derive(Clone, Debug)]
pub enum IRLiteral {
    Boolean(bool),
    /// A 64-bit float, held as the decimal text that Rust's `Display` writes
    /// for it (`5.0` is held as `"5"`, `2.5` as `"2.5"`). The backend has no
    /// floats: lowering passes this text on unchanged as integer-literal text.
    Float64(String),
    BigInt(IRBigInt),
    String(String),
}

/// A name paired with its declared type.
#[derive(Debug)]
pub struct IRNameTy {
    pub name: Box<IRIdent>,
    pub ty: IRTy,
}

impl TypeOf for IRNameTy {
    open spec fn spec_type_of(&self) -> TyModel {
        self.ty.model()
    }

    fn type_of(&self) -> (r: IRTy) {
        self.ty.copy()
    }
}

/// A function definition.
#[derive(Debug)]
pub struct IRFunDef {
    pub name: Box<IRIdent>,
    pub params: Vec<IRNameTy>,
    pub fun_ty: IRFunTy,
    pub body: Box<IRBlockStmt>,
}

/// A variable definition; it owns its initializer.
#[derive(Debug)]
pub struct IRVarDef {
    pub name: Box<IRIdent>,
    pub ty: IRTy,
    pub is_mutable: bool,
    pub value: Box<IRExpr>,
}

/// The binary operators of the source language.
#[derive(Clone, Copy, Debug, PartialEq, Eq, Structural)]
pub enum IRBinOp {
    /// `==`
    EqEq,
    /// `!=`
    NotEq,
    /// `<`
    Lt,
    /// `<=`
    LtEq,
    /// `>`
    Gt,
    /// `>=`
    GtEq,
    /// `+`
    Add,
    /// `-`
    Sub,
    /// `*`
    Mul,
    /// `/`
    Div,
    /// `%`
    Mod,
    /// `||`
    LogicalOr,
    /// `&&`
    LogicalAnd,
}

/// A binary expression; it owns both operands.
#[derive(Debug)]
pub struct IRBinaryExpr {
    pub op: IRBinOp,
    pub left: Box<IRExpr>,
    pub right: Box<IRExpr>,
}

/// Function application.
#[derive(Debug)]
pub struct IRApply {
    pub name: Box<IRIdent>,
    pub args: Vec<IRExpr>,
}

/// `if (_if) _then else _else`; both arms are arbitrary nodes.
#[derive(Debug)]
pub struct IRIfStmt {
    pub _if: Box<IRExpr>,
    pub _then: Box<IR>,
    pub _else: Box<IR>,
}

/// An expression used as a statement.
#[derive(Debug)]
pub struct IRExprStmt {
    pub expr: IRExpr,
}

/// `return`, with a value or bare.
#[derive(Debug)]
pub struct IRReturnStmt {
    pub expr: Option<IRExpr>,
}

/// Expressions.
#[derive(Debug)]
pub enum IRExpr {
    Literal(IRLiteral),
    Identifier(IRIdent),
    Binary(Box<IRBinaryExpr>),
    Apply(Box<IRApply>),
}

/// A block of statements and expressions, in order.
#[derive(Debug)]
pub struct IRBlockStmt {
    pub body: Vec<IR>,
}

/// A translation unit.
#[derive(Debug)]
pub struct IRScript {
    pub body: Vec<IR>,
}

/// An IR node.
#[derive(Debug)]
pub enum IR {
    /// A program, module, etc.
    Script(IRScript),
    /// `function` definition
    FunDef(IRFunDef),
    /// variable definition
    VarDef(IRVarDef),
    /// `return` statement
    ReturnStmt(IRReturnStmt),
    /// Block of statements and expressions
    BlockStmt(IRBlockStmt),
    /// `if`/`then`/`else` statement
    IfStmt(IRIfStmt),
    /// Expression statement
    ExprStmt(IRExprStmt),
    /// Expression
    Expr(IRExpr),
    /// Parenthesized expression
    Paren(IRExpr),
}

} // verus!
