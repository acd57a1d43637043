//! A custom type fit for keyed collections: it derives equality and
//! hashing so values can serve as hash-map keys.

use vstd::prelude::*;

verus! {

/// A person identified by name and age.
#[derive(Debug, PartialEq, Eq, Hash)]
pub struct Person {
    /// Their name.
    pub name: String,
    /// Their age in years.
    pub age: u32,
}

impl Person {
    /// Creates a person from a borrowed name.
    pub fn new(name: &str, age: u32) -> (p: Person)
        ensures
            p.name@ == name@,
            p.age == age,
    {
        Person { name: name.to_owned(), age }
    }
}

} // verus!
