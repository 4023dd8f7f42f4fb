//! A rectangle with positive sides: a small object that carries an invariant.

use crate::check::Invariant;
use crate::decimal::{render_signed, signed_decimal_text};
use crate::render::DebugText;
use vstd::prelude::*;
use vstd::string::*;

verus! {

/// A rectangle. It is in a legal state when both sides are positive.
#[derive(Debug)]
pub struct Rectangle {
    /// The length of the rectangle.
    pub length: i32,
    /// The width of the rectangle.
    pub width: i32,
}

impl Rectangle {
    /// Whether the rectangle is in a legal state: both sides are positive.
    pub open spec fn valid(&self) -> bool {
        self.length > 0 && self.width > 0
    }

    /// The debug-style text of the rectangle: its name and its two fields.
    pub open spec fn debug_view(&self) -> Seq<char> {
        "Rectangle { length: "@ + signed_decimal_text(self.length as int) + ", width: "@
            + signed_decimal_text(self.width as int) + " }"@
    }
}

impl Invariant for Rectangle {
    fn is_valid(&self) -> (ok: bool)
        ensures
            ok == self.valid(),
    {
        self.length > 0 && self.width > 0
    }
}

impl DebugText for Rectangle {
    fn debug_text(&self) -> (text: String)
        ensures
            text@ == self.debug_view(),
    {
        let mut text = String::from_str("Rectangle { length: ");
        text.append(render_signed(self.length as i64).as_str());
        text.append(", width: ");
        text.append(render_signed(self.width as i64).as_str());
        text.append(" }");
        assert(text@ =~= self.debug_view());
        text
    }
}

impl Rectangle {
    /// The area of a rectangle in a legal state.
    pub fn area(&self) -> (area: i32)
        requires
            self.valid(),
            self.length * self.width <= i32::MAX,
        ensures
            area == self.length * self.width,
            area > 0,
    {
        assert(self.length * self.width > 0) by (nonlinear_arith)
            requires
                self.length > 0,
                self.width > 0,
        ;
        self.length * self.width
    }
}

} // verus!
