use vstd::prelude::*;

use crate::errors::{status_error, Error, Result};

verus! {

/// What a native constructor's status code and out-pointer (as an address)
/// stand for: the status is checked first, then the pointer.
pub open spec fn created_handle(retval: i32, state: usize) -> Result<usize> {
    match status_error(retval) {
        Some(e) => Err(e),
        None => if state == 0 {
            Err(Error::Unknown)
        } else {
            Ok(state)
        },
    }
}

/// Checks what a native constructor handed back: a failure status becomes its
/// error, and a null handle after a success status becomes [`Error::Unknown`].
pub fn handle_from_native(retval: i32, state: usize) -> (r: Result<usize>)
    ensures
        r == created_handle(retval, state),
{
    match Error::from_c_int(retval) {
        Some(e) => Err(e),
        None => if state == 0 {
            Err(Error::Unknown)
        } else {
            Ok(state)
        },
    }
}

/// Checks the address a native call returned for data it allocated: null
/// means the call failed, which it reports as [`Error::Unknown`].
pub fn output_from_native(addr: usize) -> (r: Result<usize>)
    ensures
        addr == 0 ==> (r matches Err(e) && e is Unknown),
        addr != 0 ==> r == Ok::<usize, Error>(addr),
{
    if addr == 0 {
        Err(Error::Unknown)
    } else {
        Ok(addr)
    }
}

/// A loaded model: the address of its native state, which is never null.
///
/// Releasing the native state is left to the owner of this value; once a
/// model is shared (behind an `Arc`) it is only read.
pub struct Model {
    state: usize,
}

impl Model {
    #[verifier::type_invariant]
    spec fn inv(&self) -> bool {
        self.state != 0
    }

    /// The address of the native model state.
    pub closed spec fn handle(&self) -> usize {
        self.state
    }

    /// Builds a model from what the native constructor handed back.
    pub fn from_native(retval: i32, state: usize) -> (r: Result<Model>)
        ensures
            r is Ok <==> created_handle(retval, state) is Ok,
            r matches Ok(m) ==> m.handle() == state,
            r matches Err(e) ==> created_handle(retval, state) == Err::<usize, Error>(e),
    {
        match handle_from_native(retval, state) {
            Ok(h) => Ok(Model { state: h }),
            Err(e) => Err(e),
        }
    }

    /// Adopts a native model state that is known to be valid.
    pub fn from_model_state(state: usize) -> (r: Model)
        requires
            state != 0,
        ensures
            r.handle() == state,
    {
        Model { state }
    }

    /// The address of the native model state.
    pub fn state(&self) -> (r: usize)
        ensures
            r == self.handle(),
            r != 0,
    {
        proof {
            use_type_invariant(self);
        }
        self.state
    }

    /// Gives up the native model state; its release becomes the caller's task.
    pub fn into_inner(self) -> (r: usize)
        ensures
            r == self.handle(),
            r != 0,
    {
        proof {
            use_type_invariant(&self);
        }
        self.state
    }
}

} // verus!
