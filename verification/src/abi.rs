use vstd::prelude::*;

verus! {

/// Sentinel handle value: a token that no longer owns a live handle.
pub const INVALID_HANDLE: u32 = 0xFFFF_FFFF;

/// A guest-side token for a host-owned resource. The guest never owns the
/// resource itself, only this opaque handle value; taking the handle out
/// leaves the sentinel behind, so one token releases its handle at most once.
#[derive(Debug)]
pub struct Resource {
    handle: u32,
}

impl Resource {
    /// The handle value this token currently holds.
    pub closed spec fn handle_spec(self) -> u32 {
        self.handle
    }

    /// Wrap a live handle received from the host.
    pub fn from_handle(handle: u32) -> (r: Resource)
        requires
            handle != INVALID_HANDLE,
        ensures
            r.handle_spec() == handle,
    {
        Resource { handle }
    }

    /// Take ownership of the held handle, leaving the sentinel behind.
    pub fn take_handle(&mut self) -> (r: u32)
        ensures
            r == old(self).handle_spec(),
            final(self).handle_spec() == INVALID_HANDLE,
    {
        let h = self.handle;
        self.handle = INVALID_HANDLE;
        h
    }

    /// Read the held handle without taking it.
    pub fn handle(&self) -> (r: u32)
        ensures
            r == self.handle_spec(),
    {
        self.handle
    }
}

/// The request-resource token handed to the guest by the host: a thin wrapper
/// around a [`Resource`] handle token.
#[derive(Debug)]
pub struct ReqResource {
    handle: Resource,
}

impl ReqResource {
    /// The handle value this token currently holds.
    pub closed spec fn handle_spec(self) -> u32 {
        self.handle.handle_spec()
    }

    /// Wrap a live handle received from the host.
    pub fn from_handle(handle: u32) -> (r: ReqResource)
        requires
            handle != INVALID_HANDLE,
        ensures
            r.handle_spec() == handle,
    {
        ReqResource { handle: Resource::from_handle(handle) }
    }

    /// Take ownership of the held handle, leaving the sentinel behind.
    pub fn take_handle(&mut self) -> (r: u32)
        ensures
            r == old(self).handle_spec(),
            final(self).handle_spec() == INVALID_HANDLE,
    {
        self.handle.take_handle()
    }

    /// Read the held handle without taking it.
    pub fn handle(&self) -> (r: u32)
        ensures
            r == self.handle_spec(),
    {
        self.handle.handle()
    }
}

/// Conversion to the signed 64-bit representation the call boundary uses for
/// 64-bit scalars.
pub trait AsI64 {
    /// The boundary representation of this value.
    spec fn i64_spec(self) -> i64;

    /// Convert to the boundary representation.
    fn as_i64(self) -> (r: i64)
        ensures
            r == self.i64_spec(),
    ;
}

impl AsI64 for i64 {
    open spec fn i64_spec(self) -> i64 {
        self
    }

    fn as_i64(self) -> i64 {
        self
    }
}

impl AsI64 for u64 {
    open spec fn i64_spec(self) -> i64 {
        self as i64
    }

    fn as_i64(self) -> i64 {
        #[verifier::truncate]
        (self as i64)
    }
}

/// Convert a scalar to the boundary representation.
pub fn as_i64<T: AsI64>(t: T) -> (r: i64)
    ensures
        r == t.i64_spec(),
{
    t.as_i64()
}

} // verus!
