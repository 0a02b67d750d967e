//! Loadable system modules.
//!
//! A module is loaded by identifier and must be unloaded when no longer
//! needed. Loading and unloading are system calls; their status codes are
//! handed in and mapped to results here.

use vstd::prelude::*;

use crate::sce::{sce_result_unit_from_code, SceResult};

verus! {

/// The identifier of one loadable system module, as the platform headers
/// define it.
#[derive(Clone, Copy, Debug, PartialEq, Eq, Structural)]
pub struct ModuleId(pub u32);

/// A loaded system module.
#[derive(Debug)]
pub struct Module {
    id: ModuleId,
}

impl Module {
    /// The identifier this module was loaded under.
    pub closed spec fn spec_id(self) -> ModuleId {
        self.id
    }

    /// Accounts for one module-load system call: with status `code` zero
    /// the module is loaded, any other status is that error.
    pub fn load(id: ModuleId, code: i32) -> (r: SceResult<Module>)
        ensures
            code == 0 <==> r is Ok,
            r matches Ok(m) ==> m.spec_id() == id,
            r matches Err(e) ==> e.spec_code() == code,
    {
        match sce_result_unit_from_code(code) {
            Ok(()) => Ok(Module { id }),
            Err(e) => Err(e),
        }
    }

    /// Accounts for the module-unload system call, consuming the module;
    /// does the same as dropping it, but the caller sees the error case.
    pub fn unload(self, code: i32) -> (r: SceResult<()>)
        ensures
            code == 0 <==> r is Ok,
            r matches Err(e) ==> e.spec_code() == code,
    {
        sce_result_unit_from_code(code)
    }
}

} // verus!
