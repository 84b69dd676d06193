//! Input sampler: level-sampled button state forwarded to the core.
//!
//! Once per frame the host input device is read and the down/up level of
//! each of the eight logical buttons is captured wholesale — no debouncing,
//! no edge detection, no history. The captured state is then forwarded to
//! the emulation core one button at a time, every button every frame.

use vstd::prelude::*;

verus! {

/// The eight logical buttons of the emulated handheld.
#[derive(Clone, Copy, PartialEq, Eq, Structural, Debug)]
pub enum Button {
    A,
    B,
    Start,
    Select,
    Up,
    Down,
    Left,
    Right,
}

/// The down/up level of every logical button, captured in one sampling.
/// A fresh value replaces the previous one each frame; nothing is retained.
#[derive(Clone, Copy, PartialEq, Eq, Structural, Debug)]
pub struct ButtonState {
    pub a: bool,
    pub b: bool,
    pub start: bool,
    pub select: bool,
    pub up: bool,
    pub down: bool,
    pub left: bool,
    pub right: bool,
}

/// The fixed order in which a sampled state is forwarded to the core.
pub open spec fn button_order() -> Seq<Button> {
    seq![
        Button::A,
        Button::B,
        Button::Start,
        Button::Select,
        Button::Up,
        Button::Down,
        Button::Left,
        Button::Right,
    ]
}

impl ButtonState {
    /// The sampled level of one button.
    pub open spec fn level(&self, button: Button) -> bool {
        match button {
            Button::A => self.a,
            Button::B => self.b,
            Button::Start => self.start,
            Button::Select => self.select,
            Button::Up => self.up,
            Button::Down => self.down,
            Button::Left => self.left,
            Button::Right => self.right,
        }
    }

    /// Capture one wholesale sampling of all eight buttons.
    pub fn sample(
        a: bool,
        b: bool,
        start: bool,
        select: bool,
        up: bool,
        down: bool,
        left: bool,
        right: bool,
    ) -> (r: Self)
        ensures
            r == (ButtonState { a, b, start, select, up, down, left, right }),
    {
        ButtonState { a, b, start, select, up, down, left, right }
    }

    /// Whether `button` was down in this sampling.
    pub fn pressed(&self, button: Button) -> (r: bool)
        ensures
            r == self.level(button),
    {
        match button {
            Button::A => self.a,
            Button::B => self.b,
            Button::Start => self.start,
            Button::Select => self.select,
            Button::Up => self.up,
            Button::Down => self.down,
            Button::Left => self.left,
            Button::Right => self.right,
        }
    }
}

/// Every button exactly once, in forwarding order; the per-frame forwarding
/// pass walks this list and hands each button's level to the core.
pub fn all_buttons() -> (r: Vec<Button>)
    ensures
        r@ == button_order(),
        r@.len() == 8,
{
    let mut v: Vec<Button> = Vec::new();
    v.push(Button::A);
    v.push(Button::B);
    v.push(Button::Start);
    v.push(Button::Select);
    v.push(Button::Up);
    v.push(Button::Down);
    v.push(Button::Left);
    v.push(Button::Right);
    proof {
        assert(v@ =~= button_order());
    }
    v
}

} // verus!
