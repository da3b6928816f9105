//! The static types that IR nodes may carry.

use vstd::prelude::*;

verus! {

broadcast use vstd::std_specs::vec::axiom_vec_index_decreases;

/// The type of a function: its parameter types, in order, and its return type.
#[derive(Debug)]
pub struct IRFunTy {
    pub param_tys: Vec<IRTy>,
    pub ret_ty: Box<IRTy>,
}

/// A static type attached to a binding.
#[derive(Debug)]
pub enum IRTy {
    /// No value (`void`).
    UnitTy,
    BooleanTy,
    Float64Ty,
    BigIntTy,
    StringTy,
    FunTy(Box<IRFunTy>),
    /// The type could not be determined upstream.
    UnknownTy,
}

/// The model of a type.
pub enum TyModel {
    Unit,
    Boolean,
    Float64,
    BigInt,
    Str,
    Fun(Seq<TyModel>, Box<TyModel>),
    Unknown,
}

impl IRTy {
    pub open spec fn model(&self) -> TyModel
        decreases self,
    {
        match self {
            IRTy::UnitTy => TyModel::Unit,
            IRTy::BooleanTy => TyModel::Boolean,
            IRTy::Float64Ty => TyModel::Float64,
            IRTy::BigIntTy => TyModel::BigInt,
            IRTy::StringTy => TyModel::Str,
            IRTy::FunTy(f) => TyModel::Fun(
                Seq::new(
                    f.param_tys.len() as nat,
                    |i: int|
                        if 0 <= i < f.param_tys.len() {
                            f.param_tys[i].model()
                        } else {
                            TyModel::Unknown
                        },
                ),
                Box::new(f.ret_ty.model()),
            ),
            IRTy::UnknownTy => TyModel::Unknown,
        }
    }

    /// A fresh copy of this type.
    #[verifier::loop_isolation(false)]
    pub fn copy(&self) -> (r: IRTy)
        ensures
            r.model() == self.model(),
        decreases self,
    {
        match self {
            IRTy::UnitTy => IRTy::UnitTy,
            IRTy::BooleanTy => IRTy::BooleanTy,
            IRTy::Float64Ty => IRTy::Float64Ty,
            IRTy::BigIntTy => IRTy::BigIntTy,
            IRTy::StringTy => IRTy::StringTy,
            IRTy::FunTy(f) => {
                let mut param_tys: Vec<IRTy> = Vec::new();
                let mut i: usize = 0;
                while i < f.param_tys.len()
                    invariant
                        0 <= i <= f.param_tys.len(),
                        param_tys@.len() == i,
                        forall|j: int|
                            0 <= j < i ==> (#[trigger] param_tys@[j]).model()
                                == f.param_tys@[j].model(),
                    decreases f.param_tys.len() - i,
                {
                    proof {
                        assert(decreases_to!(f.param_tys => f.param_tys[i as int]));
                    }
                    param_tys.push(f.param_tys[i].copy());
                    i = i + 1;
                }
                let ret_ty = Box::new(f.ret_ty.copy());
                let r = IRTy::FunTy(Box::new(IRFunTy { param_tys, ret_ty }));
                proof {
                    assert(r.model()->Fun_0 =~= self.model()->Fun_0);
                }
                r
            },
            IRTy::UnknownTy => IRTy::UnknownTy,
        }
    }
}

/// Anything that can report its static type.
pub trait TypeOf {
    /// The model of this entity's type.
    spec fn spec_type_of(&self) -> TyModel;

    fn type_of(&self) -> (r: IRTy)
        ensures
            r.model() == self.spec_type_of(),
    ;
}

} // verus!
