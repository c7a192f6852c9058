//! Owned references to engine objects.
use vstd::prelude::*;
use vstd::string::StringExecFns;
use crate::error::SoloudError;

verus! {

/// Exclusive ownership of one live engine object, by its address.
///
/// A handle is never null, cannot be copied, and is given up by moving it
/// into `release`; so no operation can reach an object after its release.
#[derive(Debug)]
pub struct Handle {
    addr: usize,
}

impl View for Handle {
    type V = usize;

    closed spec fn view(&self) -> usize {
        self.addr
    }
}

impl Handle {
    #[verifier::type_invariant]
    spec fn non_null(&self) -> bool {
        self.addr != 0
    }

    /// Takes ownership of the object the engine created at `addr`; a null
    /// address means that the engine could not create it.
    pub fn from_addr(addr: usize) -> (r: Result<Handle, SoloudError>)
        ensures
            r is Ok <==> addr != 0,
            r matches Ok(h) ==> h@ == addr,
            r matches Err(e) ==> e is Unknown,
    {
        if addr == 0 {
            Err(SoloudError::Unknown(<String as StringExecFns>::from_str("the engine could not create the object")))
        } else {
            Ok(Handle { addr })
        }
    }

    /// The address of the object, for a call across the boundary.
    pub fn addr(&self) -> (r: usize)
        ensures
            r == self@,
            r != 0,
    {
        proof {
            use_type_invariant(self);
        }
        self.addr
    }

    /// Gives the handle up and returns the address, to be destroyed once.
    pub fn release(self) -> (r: usize)
        ensures
            r == self@,
            r != 0,
    {
        proof {
            use_type_invariant(&self);
        }
        self.addr
    }
}

/// A collider object, which the engine calls to compute 3D volumes.
#[derive(Debug)]
pub struct AudioCollider {
    handle: Handle,
}

impl AudioCollider {
    /// Wraps the collider object that `handle` owns.
    pub fn new(handle: Handle) -> (r: AudioCollider)
        ensures
            r.addr_spec() == handle@,
    {
        AudioCollider { handle }
    }

    /// The address of the collider object.
    pub closed spec fn addr_spec(&self) -> usize {
        self.handle@
    }

    /// The address of the collider object, never null.
    pub fn inner(&self) -> (r: usize)
        ensures
            r == self.addr_spec(),
            r != 0,
    {
        self.handle.addr()
    }
}

/// An attenuator object, which the engine calls to compute distance
/// attenuation.
#[derive(Debug)]
pub struct AudioAttenuator {
    handle: Handle,
}

impl AudioAttenuator {
    /// Wraps the attenuator object that `handle` owns.
    pub fn new(handle: Handle) -> (r: AudioAttenuator)
        ensures
            r.addr_spec() == handle@,
    {
        AudioAttenuator { handle }
    }

    /// The address of the attenuator object.
    pub closed spec fn addr_spec(&self) -> usize {
        self.handle@
    }

    /// The address of the attenuator object, never null.
    pub fn inner(&self) -> (r: usize)
        ensures
            r == self.addr_spec(),
            r != 0,
    {
        self.handle.addr()
    }
}

} // verus!
