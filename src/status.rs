use vstd::prelude::*;

verus! {

/// The raw value of `VK_SUCCESS`.
pub const SUCCESS: i32 = 0;

/// The raw value of `VK_INCOMPLETE`: the buffer handed over was too small.
pub const INCOMPLETE: i32 = 5;

/// The raw value of `VK_TRUE`.
pub const TRUE: u32 = 1;

/// A status code returned by a foreign entry point (a `VkResult`).
#[derive(Clone, Copy, Debug, PartialEq, Eq, Structural)]
pub struct ResultCode {
    pub raw: i32,
}

/// A value, or the status code of the call that failed.
pub type VkResult<T> = Result<T, ResultCode>;

impl ResultCode {
    pub fn from_raw(raw: i32) -> (r: ResultCode)
        ensures
            r.raw == raw,
    {
        ResultCode { raw }
    }

    pub fn as_raw(self) -> (r: i32)
        ensures
            r == self.raw,
    {
        self.raw
    }

    pub fn is_success(self) -> (r: bool)
        ensures
            r == (self.raw == SUCCESS),
    {
        self.raw == SUCCESS
    }

    pub fn is_incomplete(self) -> (r: bool)
        ensures
            r == (self.raw == INCOMPLETE),
    {
        self.raw == INCOMPLETE
    }

    /// `Ok(())` on success, the code itself otherwise.
    pub fn result(self) -> (r: VkResult<()>)
        ensures
            self.raw == SUCCESS <==> r is Ok,
            r is Err ==> r->Err_0 == self,
    {
        if self.raw == SUCCESS {
            Ok(())
        } else {
            Err(self)
        }
    }
}

/// Reads a `VkBool32` the way the library reports it: only `VK_TRUE` is true.
pub fn bool32_is_true(value: u32) -> (r: bool)
    ensures
        r == (value == TRUE),
{
    value == TRUE
}

} // verus!
