//! The backend's untyped tree, as far as lowering produces it, and its
//! mathematical model.

use vstd::prelude::*;

verus! {

broadcast use vstd::std_specs::vec::axiom_vec_index_decreases;

/// The backend's binary operators. All arithmetic and ordering is on integers.
#[derive(Clone, Copy, Debug, PartialEq, Eq, Structural)]
pub enum UBinOp {
    And,
    Or,
    Eq,
    NotEq,
    LtInt,
    LtEqInt,
    GtEqInt,
    GtInt,
    AddInt,
    SubInt,
    MultInt,
    DivInt,
    ModInt,
}

/// A named function argument without a type annotation.
#[derive(Clone, Debug)]
pub struct UArg {
    pub name: String,
}

/// An untyped backend expression. Every node sits at no particular source
/// location.
#[derive(Debug)]
pub enum UExpr {
    /// A reference to a variable or a built-in constructor.
    Var { name: String },
    /// An integer literal, as decimal text.
    Int { value: String },
    /// A string literal.
    String { value: String },
    BinOp { name: UBinOp, left: Box<UExpr>, right: Box<UExpr> },
    /// An immutable `let` binding of `pattern` to `value`.
    Assignment { pattern: String, value: Box<UExpr> },
    /// Expressions evaluated in order; the value is that of the last one.
    Sequence { expressions: Vec<UExpr> },
    /// A conditional with one branch and a final else.
    If { condition: Box<UExpr>, body: Box<UExpr>, final_else: Box<UExpr> },
}

/// A function definition of the backend.
#[derive(Debug)]
pub struct UFunction {
    pub name: String,
    pub arguments: Vec<UArg>,
    pub body: UExpr,
    pub public: bool,
}

/// A top-level definition of the backend.
#[derive(Debug)]
pub enum UDef {
    Fn(UFunction),
}

/// The backend's category of a module.
#[derive(Clone, Copy, Debug, PartialEq, Eq, Structural)]
pub enum ModuleKind {
    Lib,
    /// An entry-point smart-contract module.
    Validator,
}

/// A named module of definitions, ready for the backend, whose types are not
/// yet inferred.
#[derive(Debug)]
pub struct UModule {
    pub name: String,
    pub kind: ModuleKind,
    pub docs: Vec<String>,
    pub definitions: Vec<UDef>,
}

/// What lowering produces: an expression, a definition or a whole script.
#[derive(Debug)]
pub enum UNode {
    Expr(UExpr),
    Def(UDef),
    Script(Vec<UDef>),
}

impl From<UExpr> for UNode {
    fn from(ue: UExpr) -> (r: Self) {
        UNode::Expr(ue)
    }
}

impl vstd::std_specs::convert::FromSpecImpl<UExpr> for UNode {
    open spec fn obeys_from_spec() -> bool {
        true
    }

    open spec fn from_spec(ue: UExpr) -> Self {
        UNode::Expr(ue)
    }
}

impl From<UDef> for UNode {
    fn from(ud: UDef) -> (r: Self) {
        UNode::Def(ud)
    }
}

impl vstd::std_specs::convert::FromSpecImpl<UDef> for UNode {
    open spec fn obeys_from_spec() -> bool {
        true
    }

    open spec fn from_spec(ud: UDef) -> Self {
        UNode::Def(ud)
    }
}

impl From<Vec<UDef>> for UNode {
    fn from(script: Vec<UDef>) -> (r: Self) {
        UNode::Script(script)
    }
}

impl vstd::std_specs::convert::FromSpecImpl<Vec<UDef>> for UNode {
    open spec fn obeys_from_spec() -> bool {
        true
    }

    open spec fn from_spec(script: Vec<UDef>) -> Self {
        UNode::Script(script)
    }
}

/// The model of a backend expression.
pub enum ExprModel {
    Var(Seq<char>),
    Int(Seq<char>),
    Str(Seq<char>),
    BinOp(UBinOp, Box<ExprModel>, Box<ExprModel>),
    Let(Seq<char>, Box<ExprModel>),
    Sequence(Seq<ExprModel>),
    If(Box<ExprModel>, Box<ExprModel>, Box<ExprModel>),
}

/// The model of a backend function definition.
pub struct FunctionModel {
    pub name: Seq<char>,
    pub arguments: Seq<Seq<char>>,
    pub body: ExprModel,
    pub public: bool,
}

/// The model of a top-level definition.
pub enum DefModel {
    Fn(FunctionModel),
}

/// The model of what lowering produces.
pub enum NodeModel {
    Expr(ExprModel),
    Def(DefModel),
    Script(Seq<DefModel>),
}

/// The model of a module.
pub struct ModuleModel {
    pub name: Seq<char>,
    pub kind: ModuleKind,
    pub docs: Seq<Seq<char>>,
    pub definitions: Seq<DefModel>,
}

impl UExpr {
    pub open spec fn model(&self) -> ExprModel
        decreases self,
    {
        match self {
            UExpr::Var { name } => ExprModel::Var(name@),
            UExpr::Int { value } => ExprModel::Int(value@),
            UExpr::String { value } => ExprModel::Str(value@),
            UExpr::BinOp { name, left, right } => ExprModel::BinOp(
                *name,
                Box::new(left.model()),
                Box::new(right.model()),
            ),
            UExpr::Assignment { pattern, value } => ExprModel::Let(
                pattern@,
                Box::new(value.model()),
            ),
            UExpr::Sequence { expressions } => ExprModel::Sequence(
                Seq::new(
                    expressions.len() as nat,
                    |i: int|
                        if 0 <= i < expressions.len() {
                            expressions[i].model()
                        } else {
                            ExprModel::Sequence(Seq::empty())
                        },
                ),
            ),
            UExpr::If { condition, body, final_else } => ExprModel::If(
                Box::new(condition.model()),
                Box::new(body.model()),
                Box::new(final_else.model()),
            ),
        }
    }
}

/// The models of a sequence of expressions.
pub open spec fn exprs_model(es: Seq<UExpr>) -> Seq<ExprModel> {
    Seq::new(es.len(), |i: int| es[i].model())
}

/// A sequence's model is the sequence of its elements' models.
pub proof fn lemma_sequence_model(es: Vec<UExpr>)
    ensures
        (UExpr::Sequence { expressions: es }).model() == ExprModel::Sequence(exprs_model(es@)),
{
    assert((UExpr::Sequence { expressions: es }).model()->Sequence_0 =~= exprs_model(es@));
}

impl UFunction {
    pub open spec fn model(&self) -> FunctionModel {
        FunctionModel {
            name: self.name@,
            arguments: Seq::new(self.arguments.len() as nat, |i: int| self.arguments[i].name@),
            body: self.body.model(),
            public: self.public,
        }
    }
}

impl UDef {
    pub open spec fn model(&self) -> DefModel {
        match self {
            UDef::Fn(f) => DefModel::Fn(f.model()),
        }
    }
}

/// The models of a sequence of definitions.
pub open spec fn defs_model(ds: Seq<UDef>) -> Seq<DefModel> {
    Seq::new(ds.len(), |i: int| ds[i].model())
}

impl UNode {
    pub open spec fn model(&self) -> NodeModel {
        match self {
            UNode::Expr(e) => NodeModel::Expr(e.model()),
            UNode::Def(d) => NodeModel::Def(d.model()),
            UNode::Script(ds) => NodeModel::Script(defs_model(ds@)),
        }
    }
}

impl UModule {
    pub open spec fn model(&self) -> ModuleModel {
        ModuleModel {
            name: self.name@,
            kind: self.kind,
            docs: Seq::new(self.docs.len() as nat, |i: int| self.docs[i]@),
            definitions: defs_model(self.definitions@),
        }
    }
}

} // verus!
