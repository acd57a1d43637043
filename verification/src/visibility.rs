//! Visibility qualifiers demonstrated on otherwise empty functions, and one
//! function that exercises each of them.

use vstd::prelude::*;

verus! {

/// Reachable from anywhere.
pub fn public_function() {
}

/// Reachable from anywhere in this crate.
pub(crate) fn crate_function() {
}

/// Reachable from the parent module.
pub(super) fn super_function() {
}

/// Reachable only inside this module.
pub(in crate::visibility) fn in_module_function() {
}

fn private_function() {
}

/// Calls every function this module exposes, and its private one.
pub fn test_visibility() {
    public_function();
    crate_function();
    super_function();
    in_module_function();
    private_function();
}

} // verus!
