//! Style settings that hold until they are taken back.
//!
//! The backend keeps a stack of style colours and a stack of style variables.
//! Pushing a setting gives a token; popping the token takes the setting off
//! again. A token is popped at most once.
use vstd::prelude::*;
use crate::call::{CallModel, PlotCall};
use crate::style::{PlotColorElement, StyleVar};
use crate::values::{ImVec2, ImVec4};

verus! {

/// Tracks one colour that was pushed to the stack of style colours.
#[derive(Debug)]
pub struct StyleColorToken {
    was_popped: bool,
}

/// Tracks one entry that was pushed to the stack of style variables.
#[derive(Debug)]
pub struct StyleVarToken {
    was_popped: bool,
}

/// Pushes a colour for `element` to the stack of style colours. The four
/// components are single-precision numbers, carried as their bit patterns,
/// and are meant to lie between 0 and 1.
pub fn push_style_color(
    element: &PlotColorElement,
    red: u32,
    green: u32,
    blue: u32,
    alpha: u32,
) -> (pushed: (StyleColorToken, PlotCall))
    ensures
        !pushed.0.spec_was_popped(),
        pushed.1@ == (CallModel::PushStyleColor {
            element: element.spec_code() as int,
            color: ImVec4 { x: red, y: green, z: blue, w: alpha },
        }),
{
    let call = PlotCall::PushStyleColor {
        element: element.code(),
        color: ImVec4 { x: red, y: green, z: blue, w: alpha },
    };
    (StyleColorToken { was_popped: false }, call)
}

impl StyleColorToken {
    /// Whether this token has been popped.
    pub closed spec fn spec_was_popped(&self) -> bool {
        self.was_popped
    }

    /// Whether this token has been popped.
    #[verifier::when_used_as_spec(spec_was_popped)]
    pub fn was_popped(&self) -> (popped: bool)
        ensures
            popped == self.spec_was_popped(),
    {
        self.was_popped
    }

    /// Takes the colour of this token off the stack. The token that comes
    /// back is spent: it cannot be popped again.
    pub fn pop(self) -> (popped: (StyleColorToken, PlotCall))
        requires
            !self.spec_was_popped(),
        ensures
            popped.0.spec_was_popped(),
            popped.1@ == (CallModel::PopStyleColor { count: 1 }),
    {
        (StyleColorToken { was_popped: true }, PlotCall::PopStyleColor { count: 1 })
    }
}

/// Pushes a single-precision number, carried as its bit pattern, as the value
/// of `element` to the stack of style variables.
pub fn push_style_var_f32(element: &StyleVar, value: u32) -> (pushed: (StyleVarToken, PlotCall))
    ensures
        !pushed.0.spec_was_popped(),
        pushed.1@ == (CallModel::PushStyleVarFloat {
            variable: element.spec_code() as int,
            value,
        }),
{
    let call = PlotCall::PushStyleVarFloat { variable: element.code(), value };
    (StyleVarToken { was_popped: false }, call)
}

/// Pushes a whole number as the value of `element` to the stack of style
/// variables.
pub fn push_style_var_i32(element: &StyleVar, value: i32) -> (pushed: (StyleVarToken, PlotCall))
    ensures
        !pushed.0.spec_was_popped(),
        pushed.1@ == (CallModel::PushStyleVarInt {
            variable: element.spec_code() as int,
            number: value as int,
        }),
{
    let call = PlotCall::PushStyleVarInt { variable: element.code(), number: value };
    (StyleVarToken { was_popped: false }, call)
}

/// Pushes a pair of numbers as the value of `element` to the stack of style
/// variables.
pub fn push_style_var_imvec2(element: &StyleVar, value: ImVec2) -> (pushed: (
    StyleVarToken,
    PlotCall,
))
    ensures
        !pushed.0.spec_was_popped(),
        pushed.1@ == (CallModel::PushStyleVarVec2 {
            variable: element.spec_code() as int,
            pair: value,
        }),
{
    let call = PlotCall::PushStyleVarVec2 { variable: element.code(), pair: value };
    (StyleVarToken { was_popped: false }, call)
}

impl StyleVarToken {
    /// Whether this token has been popped.
    pub closed spec fn spec_was_popped(&self) -> bool {
        self.was_popped
    }

    /// Whether this token has been popped.
    #[verifier::when_used_as_spec(spec_was_popped)]
    pub fn was_popped(&self) -> (popped: bool)
        ensures
            popped == self.spec_was_popped(),
    {
        self.was_popped
    }

    /// Takes the entry of this token off the stack. The token that comes
    /// back is spent: it cannot be popped again.
    pub fn pop(self) -> (popped: (StyleVarToken, PlotCall))
        requires
            !self.spec_was_popped(),
        ensures
            popped.0.spec_was_popped(),
            popped.1@ == (CallModel::PopStyleVar { count: 1 }),
    {
        (StyleVarToken { was_popped: true }, PlotCall::PopStyleVar { count: 1 })
    }
}

} // verus!
