//! Source descriptors, programs, and the error union of the pipeline.

use std::path::PathBuf;
use std::rc::Rc;

use vstd::prelude::*;

use crate::ir::IR;
use crate::ir_to_unode::UError;
use crate::js_compiler::JsError;

verus! {

/// A file-system path, carried through as it is; nothing here reads it.
#[verifier::external_type_specification]
#[verifier::external_body]
pub struct ExPathBuf(PathBuf);

/// The source languages.
#[derive(Clone, Copy, Debug, PartialEq, Eq, Structural)]
pub enum Language {
    /// JavaScript and TypeScript.
    Javascript,
    Python,
    Solidity,
    Move,
}

/// A script to translate, with the language and its extra configuration.
#[derive(Debug)]
pub struct Source<X> {
    pub lang: Language,
    pub extra: X,
    pub script_name: String,
    pub script_path: PathBuf,
    pub code: String,
}

/// A failure of some stage of the pipeline.
#[derive(Debug)]
pub enum Error {
    /// Parsing the source failed.
    Js(JsError),
    /// Lowering the IR to the backend's tree failed.
    U(UError),
    /// The script's path is not valid text.
    BadFilename(PathBuf),
}

impl From<UError> for Error {
    fn from(e: UError) -> (r: Self) {
        Error::U(e)
    }
}

impl vstd::std_specs::convert::FromSpecImpl<UError> for Error {
    open spec fn obeys_from_spec() -> bool {
        true
    }

    open spec fn from_spec(e: UError) -> Self {
        Error::U(e)
    }
}

/// A source together with its IR.
#[derive(Debug)]
pub struct Program<X> {
    pub source: Rc<Source<X>>,
    pub ir: IR,
}

} // verus!
