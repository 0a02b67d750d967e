//! Process-wide network state.
//!
//! Bringing the network up is a fixed sequence: load the network module,
//! allocate its working memory, initialize the network layer, then the
//! control layer; if the control layer fails, the network layer is torn
//! down again. Each step is a system call whose status code is handed in
//! here; the first failing step's error is the result.

use vstd::prelude::*;

use crate::sce::{sce_result_unit_from_code, SceResult};
use crate::sysmem::{MemBlockOptions, MemBlockUninitMut};
use crate::sysmodule::{Module, ModuleId};

verus! {

/// The default size of the network layer's working memory.
pub const NET_MEMORY_SIZE: usize = 0x400000;

/// The network brought up, holding the module and the working memory it
/// runs on.
#[derive(Debug)]
pub struct GlobalState {
    module: Module,
    memory: MemBlockUninitMut,
}

impl GlobalState {
    /// The working memory's size.
    pub closed spec fn spec_memory_len(self) -> usize {
        self.memory.spec_len()
    }

    /// Brings the network up with working memory of `size` bytes. The
    /// status codes are, in order: the module load, the memory allocation
    /// (a handle; never zero), the network-layer initialization, and the
    /// control-layer initialization. The first failing step's error is
    /// returned and the later steps are not taken.
    pub fn with_memory_size(
        size: usize,
        module_id: ModuleId,
        load_code: i32,
        alloc_code: i32,
        init_code: i32,
        ctl_code: i32,
    ) -> (r: SceResult<GlobalState>)
        requires
            alloc_code != 0,
        ensures
            r is Ok <==> load_code == 0 && alloc_code > 0 && init_code == 0 && ctl_code == 0,
            r matches Ok(g) ==> g.spec_memory_len() == size,
            r matches Err(e) ==> e.spec_code() == (if load_code != 0 {
                load_code
            } else if alloc_code < 0 {
                alloc_code
            } else if init_code != 0 {
                init_code
            } else {
                ctl_code
            }),
    {
        let module = match Module::load(module_id, load_code) {
            Ok(m) => m,
            Err(e) => {
                return Err(e);
            },
        };
        let memory = match MemBlockOptions::from_size(size).with_name("SceNetMemory").alloc_mut(
            alloc_code,
        ) {
            Ok(m) => m,
            Err(e) => {
                return Err(e);
            },
        };
        match sce_result_unit_from_code(init_code) {
            Ok(()) => (),
            Err(e) => {
                return Err(e);
            },
        }
        match sce_result_unit_from_code(ctl_code) {
            Ok(()) => (),
            Err(e) => {
                return Err(e);
            },
        }
        Ok(GlobalState { module, memory })
    }

    /// Brings the network up with the default working-memory size.
    pub fn new(module_id: ModuleId, load_code: i32, alloc_code: i32, init_code: i32, ctl_code: i32)
        -> (r: SceResult<GlobalState>)
        requires
            alloc_code != 0,
        ensures
            r is Ok <==> load_code == 0 && alloc_code > 0 && init_code == 0 && ctl_code == 0,
            r matches Ok(g) ==> g.spec_memory_len() == NET_MEMORY_SIZE,
    {
        Self::with_memory_size(
            NET_MEMORY_SIZE,
            module_id,
            load_code,
            alloc_code,
            init_code,
            ctl_code,
        )
    }
}

} // verus!
