use vstd::prelude::*;

verus! {

/// A typed failure condition.  Every fallible operation of this crate
/// reports one of these instead of invoking work on an invalid input.
#[derive(Clone, Copy, Debug, PartialEq, Eq, Structural)]
pub enum Error {
    /// Caller-supplied shapes are structurally wrong.
    InvalidArgument,
    /// An operation was attempted in a state that forbids it.
    InvalidState,
    /// A numeric range exceeds its container.
    OutOfBounds,
    /// The operation requires exclusive access to a resource that is still
    /// referenced elsewhere.
    SynchronizationError,
    /// A request exceeds a device-reported limit.
    LimitExceeded,
    /// A pool has no room left for another allocation; recoverable by
    /// resetting the pool.
    OutOfPoolMemory,
}

/// A raw result code as the driver interface reports it.  Zero and positive
/// codes are successes; negative codes are errors.
#[derive(Clone, Copy, Debug, Default, PartialEq, Eq, Structural)]
pub struct VkResult(pub i32);

/// The raw code for exhausted device memory.
pub const OUT_OF_DEVICE_MEMORY_CODE: i32 = -2;

/// The raw code for an exhausted descriptor pool.
pub const OUT_OF_POOL_MEMORY_CODE: i32 = -1000069000;

/// The error that a recoverable device-memory exhaustion surfaces as.
#[derive(Clone, Copy, Debug, Default, PartialEq, Eq, Structural)]
pub struct OutOfDeviceMemory;

/// The error that a recoverable pool-memory exhaustion surfaces as.
#[derive(Clone, Copy, Debug, Default, PartialEq, Eq, Structural)]
pub struct OutOfPoolMemory;

/// A raw result code other than success.
#[derive(Clone, Copy, Debug, Default, PartialEq, Eq, Structural)]
pub struct VkError(pub i32);

impl VkResult {
    /// True if the code reports success.
    pub fn is_success(self) -> (r: bool)
        ensures
            r == (self.0 >= 0),
    {
        self.0 >= 0
    }

    /// Asserts that the code reports success.  A failing code would abort,
    /// so callers must rule it out.
    pub fn unwrap(self)
        requires
            self.0 >= 0,
    {
    }

    /// Separates exhausted device memory, which is recoverable, from the
    /// successes.  Any other failing code would abort, so callers must rule
    /// it out.
    pub fn unwrap_or_oom(self) -> (r: Result<(), OutOfDeviceMemory>)
        requires
            self.0 >= 0 || self.0 == OUT_OF_DEVICE_MEMORY_CODE,
        ensures
            r is Err <==> self.0 == OUT_OF_DEVICE_MEMORY_CODE,
    {
        if self.0 == OUT_OF_DEVICE_MEMORY_CODE {
            Err(OutOfDeviceMemory)
        } else {
            Ok(())
        }
    }

    /// Separates an exhausted descriptor pool, which is recoverable, from
    /// the successes.  Any other failing code would abort, so callers must
    /// rule it out.
    pub fn unwrap_or_oopm(self) -> (r: Result<(), OutOfPoolMemory>)
        requires
            self.0 >= 0 || self.0 == OUT_OF_POOL_MEMORY_CODE,
        ensures
            r is Err <==> self.0 == OUT_OF_POOL_MEMORY_CODE,
    {
        if self.0 == OUT_OF_POOL_MEMORY_CODE {
            Err(OutOfPoolMemory)
        } else {
            Ok(())
        }
    }

    /// Turns the code into a result carrying the raw error code.
    pub fn to_result(self) -> (r: Result<(), VkError>)
        ensures
            r is Ok <==> self.0 >= 0,
            r is Err ==> r->Err_0 == VkError(self.0),
    {
        if self.0 >= 0 {
            Ok(())
        } else {
            Err(VkError(self.0))
        }
    }
}

} // verus!
