//! Keeps the set of configurations closed.

use vstd::prelude::*;

verus! {

/// Marks the types that are configurations. No type outside this crate can
/// have it.
pub trait ConfigurationSealed {

}

impl<C: ConfigurationSealed> ConfigurationSealed for &C {

}

} // verus!
