//! Status codes of the platform's system calls.
//!
//! Every system call reports a signed 32-bit status: zero for success (or
//! a positive handle, for the calls that return one), negative for an
//! error. [`SceError`] wraps such a nonzero code; the two conversion
//! functions turn raw codes into results the way the runtime library's
//! callers expect them.

use vstd::prelude::*;

use crate::strutil::{hex_rep, u32_to_hex};

verus! {

pub type SceResult<T> = Result<T, SceError>;

/// A handle returned by a system call that allocates one; positive when
/// the call succeeded.
pub type Uid = i32;

/// A nonzero status code reported by a system call.
#[derive(Clone, Copy, Debug, PartialEq, Eq, Hash, Structural)]
pub struct SceError(i32);

impl SceError {
    /// The raw code carried.
    pub closed spec fn spec_code(self) -> i32 {
        self.0
    }

    #[verifier::type_invariant]
    closed spec fn wf(self) -> bool {
        self.0 != 0
    }

    /// Wraps a raw nonzero status code.
    pub fn from_raw_error(code: i32) -> (r: SceError)
        requires
            code != 0,
        ensures
            r.spec_code() == code,
    {
        SceError(code)
    }

    /// The raw code; never zero.
    pub fn code(&self) -> (r: i32)
        ensures
            r == self.spec_code(),
            r != 0,
    {
        proof {
            use_type_invariant(self);
        }
        self.0
    }

    /// The raw code in lower-case hexadecimal, the form the platform's
    /// documentation lists error codes in.
    pub fn code_hex(&self) -> (r: String)
        ensures
            r@ == hex_rep(self.spec_code() as u32 as nat),
    {
        proof {
            use_type_invariant(self);
        }
        u32_to_hex(self.0 as u32)
    }
}

/// The result of a system call that returns nothing on success: code zero
/// is `Ok`, any other code is that error.
pub fn sce_result_unit_from_code(code: i32) -> (r: SceResult<()>)
    ensures
        code == 0 <==> r is Ok,
        r matches Err(e) ==> e.spec_code() == code,
{
    if code == 0 {
        Ok(())
    } else {
        Err(SceError::from_raw_error(code))
    }
}

/// The result of a system call that returns a handle: a positive code is
/// the handle, a negative code is that error. The calls this wraps never
/// report zero.
pub fn sce_result_uid_from_code(code: i32) -> (r: SceResult<Uid>)
    requires
        code != 0,
    ensures
        code > 0 <==> r is Ok,
        r matches Ok(uid) ==> uid == code,
        r matches Err(e) ==> e.spec_code() == code,
{
    if code < 0 {
        Err(SceError::from_raw_error(code))
    } else {
        Ok(code)
    }
}

} // verus!
