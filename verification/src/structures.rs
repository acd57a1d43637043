//! Struct-and-method examples: a user account, a struct with a private
//! field, an article, and a rectangle.

use vstd::prelude::*;

verus! {

/// A user account.
pub struct User {
    /// Whether the account is active.
    pub active: bool,
    /// The login name.
    pub username: String,
    /// The contact address.
    pub email: String,
    /// How often the user signed in.
    pub sign_in_count: u64,
}

impl User {
    /// Borrows the contact address.
    pub fn get_email(&self) -> (r: &String)
        ensures
            r@ == self.email@,
    {
        &self.email
    }

    /// Replaces the contact address; everything else stays.
    pub fn update_email(&mut self, new_email: String)
        ensures
            final(self).email == new_email,
            final(self).username == old(self).username,
            final(self).active == old(self).active,
            final(self).sign_in_count == old(self).sign_in_count,
    {
        self.email = new_email;
    }

    /// Creates an active account with one sign-in.
    pub fn new_user(username: String, email: String) -> (u: User)
        ensures
            u.active,
            u.username == username,
            u.email == email,
            u.sign_in_count == 1,
    {
        User { active: true, username, email, sign_in_count: 1 }
    }

    /// Creates an inactive account with no sign-ins.
    pub fn new_inactive_user(username: String, email: String) -> (u: User)
        ensures
            !u.active,
            u.username == username,
            u.email == email,
            u.sign_in_count == 0,
    {
        User { active: false, username, email, sign_in_count: 0 }
    }
}

/// A struct whose second field is reachable only through its methods.
pub struct PublicStruct {
    /// Directly accessible.
    pub public_field: i32,
    private_field: i32,
}

impl PublicStruct {
    /// The value held in the public field.
    pub closed spec fn spec_public(self) -> i32 {
        self.public_field
    }

    /// The value held in the private field.
    pub closed spec fn spec_private(self) -> i32 {
        self.private_field
    }

    /// Creates the struct with its fixed initial values.
    pub fn new() -> (s: PublicStruct)
        ensures
            s.spec_public() == 0,
            s.spec_private() == 10,
    {
        PublicStruct { public_field: 0, private_field: 10 }
    }

    /// Reads the private field.
    pub fn get_private(&self) -> (r: i32)
        ensures
            r == self.spec_private(),
    {
        self.private_field
    }

    /// Overwrites the private field.
    pub fn set_private(&mut self, value: i32)
        ensures
            final(self).spec_private() == value,
            final(self).spec_public() == old(self).spec_public(),
    {
        self.private_field = value;
    }
}

/// A piece of writing with a title, a body and an author.
pub struct Article {
    /// The headline.
    pub title: String,
    /// The body text.
    pub content: String,
    /// Who wrote it.
    pub author: String,
}

impl Article {
    /// Consumes the article and hands out its title.
    pub fn take_title(self) -> (t: String)
        ensures
            t == self.title,
    {
        self.title
    }

    /// Borrows the title.
    pub fn get_title(&self) -> (t: &str)
        ensures
            t@ == self.title@,
    {
        self.title.as_str()
    }
}

/// An axis-aligned rectangle.
pub struct Rectangle {
    /// Horizontal extent.
    pub width: u32,
    /// Vertical extent.
    pub height: u32,
}

impl Rectangle {
    /// The area.
    pub fn area(&self) -> (a: u32)
        requires
            self.width * self.height <= u32::MAX,
        ensures
            a == self.width * self.height,
    {
        self.width * self.height
    }

    /// Whether another rectangle fits strictly inside this one.
    pub fn can_hold(&self, other: &Rectangle) -> (r: bool)
        ensures
            r == (self.width > other.width && self.height > other.height),
    {
        self.width > other.width && self.height > other.height
    }

    /// A square of the given side.
    pub fn square(size: u32) -> (r: Rectangle)
        ensures
            r.width == size,
            r.height == size,
    {
        Rectangle { width: size, height: size }
    }
}

} // verus!
