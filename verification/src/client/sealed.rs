//! A mark for the types that are meant to implement
//! [`ExtensionManager`](crate::client::ExtensionManager).

use vstd::prelude::*;

verus! {

/// Implemented by the extension managers of this project. Nothing keeps other
/// crates from implementing it; whoever does cannot count on
/// [`ExtensionManager`](crate::client::ExtensionManager) staying as it is.
pub trait Sealed {

}

} // verus!
