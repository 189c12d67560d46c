use vstd::prelude::*;

verus! {

/// An I/O object that exposes the native handle through which it is
/// registered on a completion port and through which operations are issued.
pub trait AsHandle {
    type Handle;

    fn as_handle(&self) -> Self::Handle;
}

} // verus!
