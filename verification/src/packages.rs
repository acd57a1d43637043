//! Module-visibility examples: a public struct with a private field and a
//! public enum.

use vstd::prelude::*;

verus! {

/// A public struct whose second field stays module-private.
pub struct PublicStruct {
    /// Directly accessible.
    pub public_field: i32,
    private_field: i32,
}

impl PublicStruct {
    /// The value held in the public field.
    pub closed spec fn spec_public(self) -> i32 {
        self.public_field
    }

    /// The value held in the private field.
    pub closed spec fn spec_private(self) -> i32 {
        self.private_field
    }

    /// Creates the struct from both values.
    pub fn new(public: i32, private: i32) -> (s: PublicStruct)
        ensures
            s.spec_public() == public,
            s.spec_private() == private,
    {
        PublicStruct { public_field: public, private_field: private }
    }

    /// Reads the private field.
    pub fn access_private_field(&self) -> (r: i32)
        ensures
            r == self.spec_private(),
    {
        self.private_field
    }
}

/// A public enum; all of its variants are public with it.
pub enum PublicEnum {
    /// A plain variant.
    Variant1,
    /// A variant carrying a number.
    Variant2(i32),
    /// Public like the others, despite the name.
    PrivateVariant,
}

} // verus!
