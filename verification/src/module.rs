//! The module converter: the top-level entry of the translation.  A module
//! with any module-level inline assembly is rejected outright; the bridge
//! form never represents it.

use vstd::prelude::*;

use crate::adapter;
use crate::error::{EngineError, EngineResult, ErrorSpec, Unsupported, result_view};
use crate::shared::Identifier;

verus! {

/// A bridge-form module.
#[derive(Debug, PartialEq, Eq)]
pub struct Module {
    /// module name
    pub name: Identifier,
}

impl View for Module {
    type V = Seq<char>;

    open spec fn view(&self) -> Seq<char> {
        self.name@
    }
}

/// What converting an adapter-form module yields: its name, provided the
/// module-level assembly string is empty.
pub open spec fn spec_convert_module(m: adapter::ModuleSpec) -> Result<Seq<char>, ErrorSpec> {
    if m.assembly.len() != 0 {
        Result::Err(ErrorSpec::NotSupportedYet(Unsupported::ModuleLevelAssembly))
    } else {
        Result::Ok(m.name)
    }
}

impl Module {
    /// Convert an adapter-form module.
    pub fn convert(module_adapted: &adapter::Module) -> (r: EngineResult<Self>)
        ensures
            result_view(r) == spec_convert_module(module_adapted@),
    {
        // reject module-level inline assembly
        if !module_adapted.assembly.as_str().is_empty() {
            return Result::Err(EngineError::NotSupportedYet(Unsupported::ModuleLevelAssembly));
        }
        // done
        Result::Ok(Module { name: Identifier::new(module_adapted.name.clone()) })
    }
}

} // verus!
