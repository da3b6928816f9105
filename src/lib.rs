//! An intermediate representation (IR) for a small imperative language, and a
//! structural lowering pass from that IR to the untyped tree of an
//! expression-oriented smart-contract backend.

pub mod ir;
pub mod ir_type;
pub mod ir_visitor;
pub mod js_compiler;
pub mod lowering_facts;
pub mod program;
pub mod ir_to_unode;
pub mod untyped;
