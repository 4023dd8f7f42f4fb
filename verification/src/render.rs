//! The rendering capability: every value that a diagnostic can report knows
//! its own debug-style text.

use crate::decimal::{decimal_text, render_signed, render_unsigned, signed_decimal_text};
use vstd::prelude::*;

verus! {

/// A value that can be shown in a diagnostic. The trait promises nothing of
/// the text by itself: each implementation states what it renders.
pub trait DebugText {
    /// Renders the value as its debug-style text.
    fn debug_text(&self) -> String;
}

/// Whether `text` is a text that `value` may render as: one that the
/// contract of its `debug_text` admits.
pub open spec fn renders_as<T: DebugText + ?Sized>(value: &T, text: Seq<char>) -> bool {
    exists|rendered: String| call_ensures(T::debug_text, (value,), rendered) && rendered@ == text
}

/// The debug-style text of a string: the string between double quotes, with
/// the characters that cannot stand in a literal written as escapes.
pub uninterp spec fn quoted_text(s: Seq<char>) -> Seq<char>;

/// Quotes a string through `Debug for str` of the standard library. The
/// contract only names the result: the same characters always give the same
/// quoted text.
#[verifier::external_body]
fn quote(s: &str) -> (text: String)
    ensures
        text@ == quoted_text(s@),
{
    format!("{:?}", s)
}

impl DebugText for i32 {
    fn debug_text(&self) -> (text: String)
        ensures
            text@ == signed_decimal_text(*self as int),
    {
        render_signed(*self as i64)
    }
}

impl DebugText for i64 {
    fn debug_text(&self) -> (text: String)
        ensures
            text@ == signed_decimal_text(*self as int),
    {
        render_signed(*self)
    }
}

impl DebugText for u32 {
    fn debug_text(&self) -> (text: String)
        ensures
            text@ == decimal_text(*self as nat),
    {
        render_unsigned(*self as u64)
    }
}

impl DebugText for u64 {
    fn debug_text(&self) -> (text: String)
        ensures
            text@ == decimal_text(*self as nat),
    {
        render_unsigned(*self)
    }
}

impl DebugText for str {
    fn debug_text(&self) -> (text: String)
        ensures
            text@ == quoted_text(self@),
    {
        quote(self)
    }
}

impl DebugText for String {
    fn debug_text(&self) -> (text: String)
        ensures
            text@ == quoted_text(self@),
    {
        quote(self.as_str())
    }
}

} // verus!
