//! Handles: the address of a toolkit object, and nothing else.

use vstd::prelude::*;

verus! {

/// The identity of one toolkit object.
///
/// The toolkit owns the object. A handle is its address: copying a handle
/// makes an alias of the same object, and two handles are equal exactly when
/// they hold the same address.
#[derive(Clone, Copy, Debug, PartialEq, Eq, Structural)]
pub struct Handle {
    pub raw: usize,
}

impl Handle {
    /// Wraps an address that the toolkit handed out. The address is taken on
    /// trust: nothing here can tell whether the object is still alive.
    pub fn from_raw(raw: usize) -> (handle: Handle)
        ensures
            handle.raw == raw,
    {
        Handle { raw }
    }

    /// Wraps an address that the toolkit may have left empty.
    pub fn from_nullable(raw: usize) -> (handle: Option<Handle>)
        ensures
            raw == 0 ==> handle is None,
            raw != 0 ==> handle == Some(Handle { raw }),
    {
        if raw == 0 {
            None
        } else {
            Some(Handle { raw })
        }
    }

    /// The address, to hand back to the toolkit.
    pub fn as_raw(&self) -> (raw: usize)
        ensures
            raw == self.raw,
    {
        self.raw
    }

    /// Whether both handles name the same toolkit object.
    pub fn same_object(&self, other: &Handle) -> (same: bool)
        ensures
            same == (self.raw == other.raw),
            same == (*self == *other),
    {
        self.raw == other.raw
    }
}

} // verus!
