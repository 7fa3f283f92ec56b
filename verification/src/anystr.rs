//! One name for everything that can be read as a string slice, so that a
//! function takes `&str`, `String` and `&String` alike.

use vstd::prelude::*;
use vstd::string::*;

verus! {

/// A value that can be read as a string slice.
pub trait AnyStr {
    /// The characters of the value.
    spec fn text(&self) -> Seq<char>;

    /// The value as a string slice.
    fn borrow_str(&self) -> (s: &str)
        ensures
            s@ == self.text(),
    ;
}

impl AnyStr for str {
    open spec fn text(&self) -> Seq<char> {
        self@
    }

    fn borrow_str(&self) -> (s: &str) {
        self
    }
}

impl AnyStr for String {
    open spec fn text(&self) -> Seq<char> {
        self@
    }

    fn borrow_str(&self) -> (s: &str) {
        self.as_str()
    }
}

impl<T: AnyStr + ?Sized> AnyStr for &T {
    open spec fn text(&self) -> Seq<char> {
        (**self).text()
    }

    fn borrow_str(&self) -> (s: &str) {
        (**self).borrow_str()
    }
}

/// The characters of a value that may be absent.
pub open spec fn text_of<S: AnyStr>(s: Option<S>) -> Option<Seq<char>> {
    match s {
        Some(s) => Some(s.text()),
        None => None,
    }
}

/// Turns any string into an owned [`String`] with the same characters.
pub fn any_str_to_string<S: AnyStr>(s: S) -> (owned: String)
    ensures
        owned@ == s.text(),
{
    String::from_str(s.borrow_str())
}

/// A `None` of a type that fits wherever an optional [`AnyStr`] is asked
/// for.
pub fn anystr_none() -> (none: Option<String>)
    ensures
        none is None,
{
    None
}

/// The counterpart of [`anystr_none`]: `s`, wrapped in `Some`.
pub fn anystr_some<S: AnyStr>(s: S) -> (some: Option<S>)
    ensures
        some == Some(s),
{
    Some(s)
}

} // verus!
