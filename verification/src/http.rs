//! HTTP client state: the module-wide setup and the handles for
//! templates, connections and requests.
//!
//! Each handle wraps an identifier a system call returned and gives it
//! back when deleted. Creating the handles goes through system calls with
//! C-string arguments outside this library's scope; what is modeled here
//! is the handle lifecycle and the flags the calls take.

use vstd::prelude::*;

use crate::sce::{sce_result_uid_from_code, sce_result_unit_from_code, SceResult, Uid};
use crate::sysmodule::{Module, ModuleId};

verus! {

/// The HTTP layer brought up, holding the module it runs on.
#[derive(Debug)]
pub struct GlobalState {
    module: Module,
}

impl GlobalState {
    /// Brings the HTTP layer up: loads the module, then initializes the
    /// layer; the status codes of the two calls are handed in. The first
    /// failing call's error is returned.
    pub fn new(module_id: ModuleId, load_code: i32, init_code: i32) -> (r: SceResult<GlobalState>)
        ensures
            r is Ok <==> load_code == 0 && init_code == 0,
            r matches Err(e) ==> e.spec_code() == (if load_code != 0 {
                load_code
            } else {
                init_code
            }),
    {
        let module = match Module::load(module_id, load_code) {
            Ok(m) => m,
            Err(e) => {
                return Err(e);
            },
        };
        match sce_result_unit_from_code(init_code) {
            Ok(()) => Ok(GlobalState { module }),
            Err(e) => Err(e),
        }
    }
}

/// A request template handle.
#[derive(Debug)]
pub struct Template {
    pub uid: Uid,
}

impl Template {
    /// Accounts for the template-creation system call: a positive status
    /// `code` is the new template's handle, a negative one is that error.
    /// The call never reports zero.
    pub fn new(code: i32) -> (r: SceResult<Template>)
        requires
            code != 0,
        ensures
            code > 0 <==> r is Ok,
            r matches Ok(t) ==> t.uid == code,
            r matches Err(e) ==> e.spec_code() == code,
    {
        match sce_result_uid_from_code(code) {
            Ok(uid) => Ok(Template { uid }),
            Err(e) => Err(e),
        }
    }

    /// Accounts for the connection-creation system call on this template:
    /// a positive status `code` is the new connection's handle. The
    /// keep-alive choice is the flag the call takes.
    pub fn create_connection_with_url(&self, keep_alive: KeepAlive, code: i32) -> (r: SceResult<
        Connection,
    >)
        requires
            code != 0,
        ensures
            code > 0 <==> r is Ok,
            r matches Ok(c) ==> c.uid == code,
            r matches Err(e) ==> e.spec_code() == code,
    {
        let _ = keep_alive.as_bool();
        match sce_result_uid_from_code(code) {
            Ok(uid) => Ok(Connection { uid }),
            Err(e) => Err(e),
        }
    }

    /// Accounts for the template-deletion system call, consuming the
    /// handle; does the same as dropping it, but the caller sees the
    /// error case.
    pub fn delete(self, code: i32) -> (r: SceResult<()>)
        ensures
            code == 0 <==> r is Ok,
            r matches Err(e) ==> e.spec_code() == code,
    {
        sce_result_unit_from_code(code)
    }
}

/// A connection handle.
#[derive(Debug)]
pub struct Connection {
    pub uid: Uid,
}

impl Connection {
    /// Accounts for the request-creation system call on this connection:
    /// a positive status `code` is the new request's handle.
    pub fn create_request(&self, code: i32) -> (r: SceResult<Request>)
        requires
            code != 0,
        ensures
            code > 0 <==> r is Ok,
            r matches Ok(q) ==> q.uid == code,
            r matches Err(e) ==> e.spec_code() == code,
    {
        match sce_result_uid_from_code(code) {
            Ok(uid) => Ok(Request { uid }),
            Err(e) => Err(e),
        }
    }

    /// Accounts for the request-creation system call that takes a whole
    /// URL instead of a path.
    pub fn create_request_with_url(&self, code: i32) -> (r: SceResult<Request>)
        requires
            code != 0,
        ensures
            code > 0 <==> r is Ok,
            r matches Ok(q) ==> q.uid == code,
            r matches Err(e) ==> e.spec_code() == code,
    {
        self.create_request(code)
    }

    /// Accounts for the connection-deletion system call, consuming the
    /// handle; does the same as dropping it, but the caller sees the
    /// error case.
    pub fn delete(self, code: i32) -> (r: SceResult<()>)
        ensures
            code == 0 <==> r is Ok,
            r matches Err(e) ==> e.spec_code() == code,
    {
        sce_result_unit_from_code(code)
    }
}

/// A request handle.
pub struct Request {
    pub uid: Uid,
}

impl Request {
    /// Accounts for the request-deletion system call, consuming the
    /// handle; does the same as dropping it, but the caller sees the
    /// error case.
    pub fn delete(self, code: i32) -> (r: SceResult<()>)
        ensures
            code == 0 <==> r is Ok,
            r matches Err(e) ==> e.spec_code() == code,
    {
        sce_result_unit_from_code(code)
    }
}

/// Whether a connection keeps its transport alive between requests.
#[derive(Default, Debug, Clone, Copy, PartialEq, Eq, Structural)]
pub enum KeepAlive {
    Enable,
    #[default]
    Disable,
}

impl KeepAlive {
    /// The flag value the connection-creation call takes.
    pub fn as_bool(self) -> (r: bool)
        ensures
            r == (self is Enable),
    {
        match self {
            KeepAlive::Enable => true,
            KeepAlive::Disable => false,
        }
    }
}

} // verus!
