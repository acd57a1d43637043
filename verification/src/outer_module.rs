//! A function that delegates to another function of its enclosing module,
//! handing the produced message back to the caller.

use vstd::prelude::*;

verus! {

/// The outer module's own message.
pub fn outer_function() -> (r: String)
    ensures
        r@ == "这是外部模块的函数"@,
{
    "这是外部模块的函数".to_owned()
}

/// Delegates to [`outer_function`] and returns its message.
pub fn call_outer_function() -> (r: String)
    ensures
        r@ == "这是外部模块的函数"@,
{
    outer_function()
}

} // verus!
