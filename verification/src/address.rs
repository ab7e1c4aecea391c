//! Addresses of native objects as plain integers.
//!
//! A handle never owns what it points at, so it carries addresses, not
//! references. An address that may be absent is a `usize` with `0` for
//! "absent"; one that is always present is a [`NonNullAddr`].

use vstd::prelude::*;

verus! {

/// The address of a native object, known not to be null.
#[derive(Debug, Clone, Copy, PartialEq, Eq, Hash, Structural)]
pub struct NonNullAddr {
    addr: usize,
}

impl View for NonNullAddr {
    type V = usize;

    /// The address as an integer.
    closed spec fn view(&self) -> usize {
        self.addr
    }
}

impl NonNullAddr {
    #[verifier::type_invariant]
    spec fn non_null(self) -> bool {
        self.addr != 0
    }

    /// Wraps `addr`, or returns `None` for the null address.
    pub fn new(addr: usize) -> (r: Option<Self>)
        ensures
            addr == 0 ==> r is None,
            addr != 0 ==> r is Some && r->Some_0@ == addr,
    {
        if addr == 0 {
            None
        } else {
            Some(NonNullAddr { addr })
        }
    }

    /// The address as an integer; never zero.
    pub fn get(self) -> (addr: usize)
        ensures
            addr == self@,
            addr != 0,
    {
        proof {
            use_type_invariant(&self);
        }
        self.addr
    }
}

} // verus!
