//! A greeting trait meant to be implemented once per type, each
//! implementation announcing the implementing type by name.

use vstd::prelude::*;

verus! {

/// Implemented per type; the method is associated with the type, not
/// with a value, so it is called as `T::hello_macro()`.
pub trait HelloMacro {
    fn hello_macro();
}

} // verus!
