//! Notes on defining, instantiating and giving methods to structs.

use vstd::prelude::*;

verus! {

/// Notes on defining and instantiating a struct.
#[derive(Debug)]
pub struct DefineInstantiate {}

/// A user record, the worked struct of these notes.
#[derive(Debug)]
pub struct User {
    pub active: bool,
    pub username: String,
    pub email: String,
    pub sign_in_count: u64,
}

impl DefineInstantiate {
    /// Builds an active user with a sign-in count of 1.
    pub fn build_user(email: String, username: String) -> (u: User)
        ensures
            u.active,
            u.username == username,
            u.email == email,
            u.sign_in_count == 1,
    {
        User { active: true, username, email, sign_in_count: 1 }
    }
}

/// Notes on method syntax.
#[derive(Debug)]
pub struct Method {}

/// The worked struct of the method notes; not `Copy`, so `max` consumes its
/// operands.
#[derive(Debug)]
pub struct Rectangle {
    pub width: u32,
    pub height: u32,
}

/// The `Copy` variant, on which `set_to_max` can reassign through `*self`.
#[derive(Debug, Clone, Copy)]
pub struct Rectangle2 {
    pub width: u32,
    pub height: u32,
}

impl Rectangle {
    /// The area, width times height.
    pub fn area(&self) -> (r: u32)
        requires
            self.width * self.height <= u32::MAX,
        ensures
            r == self.width * self.height,
    {
        self.width * self.height
    }

    /// Whether the rectangle has any width; a method may share a field's name.
    pub fn width(&self) -> (r: bool)
        ensures
            r == (self.width > 0),
    {
        self.width > 0
    }

    /// Whether `other` fits strictly inside `self`.
    pub fn can_hold(&self, other: &Rectangle) -> (r: bool)
        ensures
            r == (self.width > other.width && self.height > other.height),
    {
        self.width > other.width && self.height > other.height
    }

    /// A square of the given size.
    pub fn square(size: u32) -> (r: Self)
        ensures
            r.width == size,
            r.height == size,
    {
        Self { width: size, height: size }
    }

    /// Sets the width, leaving the height alone.
    pub fn set_width(&mut self, width: u32)
        ensures
            final(self).width == width,
            final(self).height == old(self).height,
    {
        self.width = width;
    }

    /// The componentwise maximum, taking ownership of both operands.
    pub fn max(self, other: Rectangle) -> (r: Rectangle)
        ensures
            r.width == if self.width >= other.width {
                self.width
            } else {
                other.width
            },
            r.height == if self.height >= other.height {
                self.height
            } else {
                other.height
            },
    {
        Rectangle {
            width: if self.width >= other.width {
                self.width
            } else {
                other.width
            },
            height: if self.height >= other.height {
                self.height
            } else {
                other.height
            },
        }
    }
}

impl Rectangle2 {
    /// The componentwise maximum.
    pub fn max(self, other: Rectangle2) -> (r: Rectangle2)
        ensures
            r.width == if self.width >= other.width {
                self.width
            } else {
                other.width
            },
            r.height == if self.height >= other.height {
                self.height
            } else {
                other.height
            },
    {
        Rectangle2 {
            width: if self.width >= other.width {
                self.width
            } else {
                other.width
            },
            height: if self.height >= other.height {
                self.height
            } else {
                other.height
            },
        }
    }

    /// Grows `self` to the componentwise maximum with `other`; possible here
    /// because the copy of `*self` leaves `self` usable for the reassignment.
    pub fn set_to_max(&mut self, other: Rectangle2)
        ensures
            final(self).width == if old(self).width >= other.width {
                old(self).width
            } else {
                other.width
            },
            final(self).height == if old(self).height >= other.height {
                old(self).height
            } else {
                other.height
            },
    {
        *self = (*self).max(other);
    }
}

} // verus!
