//! Trait dispatch with exact contracts: an associated-type trait next
//! to a generic one, a default type parameter, methods whose names
//! collide across traits, and a supertrait that renders text.

use vstd::prelude::*;
use crate::digits::dec_int;
use crate::digits::i32_to_string;

verus! {

/// A producer whose item type is fixed once per implementing type.
pub trait FooAssociated {
    type Item;

    /// Which results `foo_associated` may return.
    spec fn associated_post(&self, r: Option<Self::Item>) -> bool;

    fn foo_associated(&mut self) -> (r: Option<Self::Item>)
        ensures
            old(self).associated_post(r),
    ;
}

/// A producer that may be implemented once per item type.
pub trait FooGeneric<T> {
    /// Which results `foo_generic` may return.
    spec fn generic_post(&self, r: Option<T>) -> bool;

    fn foo_generic(&mut self) -> (r: Option<T>)
        ensures
            old(self).generic_post(r),
    ;
}

pub struct BarStruct;

impl FooAssociated for BarStruct {
    type Item = u32;

    open spec fn associated_post(&self, r: Option<u32>) -> bool {
        r == Some(3u32)
    }

    fn foo_associated(&mut self) -> Option<u32> {
        Some(3)
    }
}

impl FooGeneric<u32> for BarStruct {
    open spec fn generic_post(&self, r: Option<u32>) -> bool {
        r == Some(5u32)
    }

    fn foo_generic(&mut self) -> Option<u32> {
        Some(5)
    }
}

impl FooGeneric<String> for BarStruct {
    open spec fn generic_post(&self, r: Option<String>) -> bool {
        r matches Some(s) && s@ == "generic"@
    }

    fn foo_generic(&mut self) -> Option<String> {
        Some(String::from_str("generic"))
    }
}

/// A trait with a default type parameter for the value it hands back.
pub trait Winner<T = u32> {
    type Output;

    /// Which results `win` may return for `num`.
    spec fn win_post(&self, num: T, r: T) -> bool;

    fn win(self, num: T) -> (r: T)
        ensures
            self.win_post(num, r),
    ;
}

pub struct Check;

impl Winner for Check {
    type Output = ();

    open spec fn win_post(&self, num: u32, r: u32) -> bool {
        r == num
    }

    fn win(self, num: u32) -> u32 {
        num
    }
}

/// A body part that can report how it feels; its report collides by
/// name with the ones below and is reached by qualified calls.
pub trait Arm {
    fn pain(&self) -> (s: String)
        ensures
            s@ == "My arm feels good"@,
    {
        String::from_str("My arm feels good")
    }
}

pub trait Leg {
    fn pain(&self) -> (s: String)
        ensures
            s@ == "My leg is a little sore"@,
    {
        String::from_str("My leg is a little sore")
    }
}

pub struct Human;

impl Arm for Human {

}

impl Leg for Human {

}

impl Human {
    /// The inherent report, which method-call syntax picks first.
    pub fn pain(&self) -> (s: String)
        ensures
            s@ == "Overall I feel good"@,
    {
        String::from_str("Overall I feel good")
    }
}

/// Anything that can render itself as text.
pub trait TextShow {
    /// The exact text the value renders to.
    spec fn text(&self) -> Seq<char>;

    fn to_text(&self) -> (s: String)
        ensures
            s@ == self.text(),
    ;
}

/// A supertrait of `TextShow`: the default method leans on the
/// supertrait's rendering.
pub trait ShowStuff: TextShow {
    fn show_stuff(&self) -> (s: String)
        ensures
            s@ == "running show_stuff() "@ + self.text(),
    {
        let mut s = String::from_str("running show_stuff() ");
        let t = self.to_text();
        s.append(t.as_str());
        s
    }
}

/// A box with a length, rendered as that length in decimal.
pub struct MeasuredBox {
    pub len: i32,
}

impl TextShow for MeasuredBox {
    open spec fn text(&self) -> Seq<char> {
        dec_int(self.len as int)
    }

    fn to_text(&self) -> (s: String)
        ensures
            s@ == self.text(),
    {
        i32_to_string(self.len)
    }
}

impl ShowStuff for MeasuredBox {

}

} // verus!
