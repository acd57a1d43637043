//! Generic functions, structs, enums and a generic stack.

use vstd::prelude::*;

verus! {

use vstd::std_specs::cmp::PartialEqSpec;
use vstd::std_specs::convert::IntoSpec;

/// Compares two values with the type's own equality.
pub fn is_equal<T: PartialEq + PartialEqSpec>(a: T, b: T) -> (r: bool)
    ensures
        T::obeys_eq_spec() ==> r == a.eq_spec(&b),
{
    a == b
}

/// An ordered pair of values of two types.
pub struct Pair<T, U> {
    /// The first component.
    pub first: T,
    /// The second component.
    pub second: U,
}

impl<T, U> Pair<T, U> {
    /// Creates a pair from its components.
    pub fn new(first: T, second: U) -> (p: Pair<T, U>)
        ensures
            p.first == first,
            p.second == second,
    {
        Pair { first, second }
    }

    /// Borrows the first component.
    pub fn first(&self) -> (r: &T)
        ensures
            *r == self.first,
    {
        &self.first
    }

    /// Borrows the second component.
    pub fn second(&self) -> (r: &U)
        ensures
            *r == self.second,
    {
        &self.second
    }
}

/// A value that may be present or absent.
pub enum MyOption<T> {
    /// A value is present.
    Filled(T),
    /// No value.
    Vacant,
}

impl<T> MyOption<T> {
    /// Whether a value is present.
    pub fn is_some(&self) -> (r: bool)
        ensures
            r == (self is Filled),
    {
        match self {
            MyOption::Filled(_) => true,
            MyOption::Vacant => false,
        }
    }

    /// Takes the value out; only callable when one is present.
    pub fn unwrap(self) -> (r: T)
        requires
            self is Filled,
        ensures
            self matches MyOption::Filled(v) ==> r == v,
    {
        match self {
            MyOption::Filled(value) => value,
            MyOption::Vacant => unreached(),
        }
    }
}

/// A counter that yields the numbers one through five, then stops.
pub struct Counter {
    /// How many numbers were yielded so far.
    pub count: u32,
}

impl Counter {
    /// A fresh counter.
    pub fn new() -> (c: Counter)
        ensures
            c.count == 0,
    {
        Counter { count: 0 }
    }

    /// Yields the next number, or nothing once five were yielded.
    pub fn next(&mut self) -> (r: Option<u32>)
        ensures
            old(self).count < 5 ==> final(self).count == old(self).count + 1 && r == Some(
                final(self).count,
            ),
            old(self).count >= 5 ==> final(self).count == old(self).count && r is None,
    {
        if self.count < 5 {
            self.count = self.count + 1;
            Some(self.count)
        } else {
            None
        }
    }
}

/// A last-in, first-out stack over a vector.
pub struct Stack<T> {
    elements: Vec<T>,
}

impl<T> View for Stack<T> {
    type V = Seq<T>;

    closed spec fn view(&self) -> Seq<T> {
        self.elements@
    }
}

impl<T> Stack<T> {
    /// An empty stack.
    pub fn new() -> (s: Stack<T>)
        ensures
            s@ == Seq::<T>::empty(),
    {
        Stack { elements: Vec::new() }
    }

    /// Puts an element on top.
    pub fn push(&mut self, element: T)
        ensures
            final(self)@ == old(self)@.push(element),
    {
        self.elements.push(element);
    }

    /// Takes the top element off, if there is one.
    pub fn pop(&mut self) -> (r: Option<T>)
        ensures
            old(self)@.len() == 0 ==> r is None && final(self)@ == old(self)@,
            old(self)@.len() > 0 ==> r == Some(old(self)@.last()) && final(self)@ == old(
                self,
            )@.drop_last(),
    {
        self.elements.pop()
    }

    /// Borrows the top element, if there is one.
    pub fn peek(&self) -> (r: Option<&T>)
        ensures
            self@.len() == 0 ==> r is None,
            self@.len() > 0 ==> (r matches Some(v) && *v == self@.last()),
    {
        if self.elements.len() == 0 {
            None
        } else {
            Some(&self.elements[self.elements.len() - 1])
        }
    }

    /// Whether the stack holds nothing.
    pub fn is_empty(&self) -> (r: bool)
        ensures
            r == (self@.len() == 0),
    {
        self.elements.len() == 0
    }

    /// How many elements the stack holds.
    pub fn size(&self) -> (n: usize)
        ensures
            n == self@.len(),
    {
        self.elements.len()
    }
}

/// Adds two values after converting each to a 32-bit integer.
pub fn sum<T: Into<i32> + IntoSpec<i32>>(a: T, b: T) -> (r: i32)
    requires
        T::obeys_into_spec(),
        i32::MIN <= a.into_spec() + b.into_spec() <= i32::MAX,
    ensures
        r == a.into_spec() + b.into_spec(),
{
    let x: i32 = a.into();
    let y: i32 = b.into();
    x + y
}

} // verus!
