//! The virtual mouse: button codes, the tracked pointer, and the plan for
//! each request.
//!
//! The device takes relative motion only. The mouse therefore keeps track of
//! where the pointer should be and turns a request for an absolute position
//! into the motion that leads there.

use vstd::prelude::*;
use crate::codes::{
    BTN_EXTRA, BTN_LEFT, BTN_MIDDLE, BTN_RIGHT, BTN_SIDE, REL_HWHEEL, REL_WHEEL, REL_X, REL_Y,
};
use crate::event::{
    batch_of_one, batch_of_two, emitted_from, lemma_well_paired_concat, report, settle, well_paired, DeviceDescriptor,
    InputEvent, OnFailure, Plan, StepView,
};

verus! {

/// The abstract button vocabulary that requests are made in.
#[derive(Clone, Copy, Debug, PartialEq, Eq, Structural)]
pub enum MouseButton {
    Left,
    Middle,
    Right,
    Back,
    Forward,
    ScrollUp,
    ScrollDown,
    ScrollLeft,
    ScrollRight,
}

/// The mapping table: the native code of an abstract button, or `None`
/// where the virtual mouse has no code for it.
pub open spec fn button_code(button: MouseButton) -> Option<u16> {
    match button {
        MouseButton::Left => Some(BTN_LEFT),
        MouseButton::Right => Some(BTN_RIGHT),
        MouseButton::Middle => Some(BTN_MIDDLE),
        MouseButton::Back => Some(BTN_SIDE),
        MouseButton::Forward => Some(BTN_EXTRA),
        _ => None,
    }
}

/// The button codes that the virtual mouse declares at creation.
pub open spec fn mouse_buttons() -> Seq<u16> {
    seq![BTN_LEFT, BTN_RIGHT, BTN_MIDDLE, BTN_SIDE, BTN_EXTRA]
}

/// The relative axes that the virtual mouse declares at creation.
pub open spec fn mouse_axes() -> Seq<u16> {
    seq![REL_X, REL_Y, REL_WHEEL, REL_HWHEEL]
}

/// How long a button is held between press and release, in milliseconds.
pub const BUTTON_SETTLE_MILLIS: u64 = 10;

/// `value`, or the nearer end of `low..=high` where it lies outside.
pub open spec fn clamp(value: int, low: int, high: int) -> int {
    if value < low {
        low
    } else if value > high {
        high
    } else {
        value
    }
}

/// The batch for a motion by `(dx, dy)`: horizontal axis first.
pub open spec fn motion_batch(dx: i32, dy: i32) -> Seq<InputEvent> {
    seq![InputEvent::relative_spec(REL_X, dx), InputEvent::relative_spec(REL_Y, dy)]
}

/// Plan for a motion by `(dx, dy)`: both axes in one batch and one sync
/// marker, or nothing where the pointer does not move.
pub open spec fn motion_plan(dx: i32, dy: i32) -> Seq<StepView> {
    if dx != 0 || dy != 0 {
        report(motion_batch(dx, dy), OnFailure::Ignore, OnFailure::Ignore)
    } else {
        Seq::empty()
    }
}

/// Plan for a button going down (`pressed`) or up, or nothing for a button
/// without a code.
pub open spec fn button_plan(button: MouseButton, pressed: bool) -> Seq<StepView> {
    match button_code(button) {
        Some(code) => report(
            seq![InputEvent::key_spec(code, pressed)],
            OnFailure::Ignore,
            OnFailure::Ignore,
        ),
        None => Seq::empty(),
    }
}

/// Plan for `mouse_click`: press, settle, release.
pub open spec fn click_plan(button: MouseButton) -> Seq<StepView> {
    button_plan(button, true) + settle(BUTTON_SETTLE_MILLIS) + button_plan(button, false)
}

/// Plan for scrolling by `delta` along the wheel axis `axis`.
pub open spec fn scroll_plan(axis: u16, delta: i32) -> Seq<StepView> {
    report(seq![InputEvent::relative_spec(axis, delta)], OnFailure::Ignore, OnFailure::Ignore)
}

/// The bounds of the pointer and where it is taken to be.
pub struct PointerView {
    pub width: int,
    pub height: int,
    pub x: int,
    pub y: int,
}

impl PointerView {
    /// After a request for the absolute position `(x, y)`: exactly there,
    /// inside the bounds or not.
    pub open spec fn moved_to(self, x: int, y: int) -> PointerView {
        PointerView { x, y, ..self }
    }

    /// After a request for a motion by `(dx, dy)`: the sum, brought back
    /// into the bounds. A motion by nothing leaves the pointer where it is.
    pub open spec fn moved_by(self, dx: int, dy: int) -> PointerView {
        if dx != 0 || dy != 0 {
            PointerView {
                x: clamp(self.x + dx, 0, self.width),
                y: clamp(self.y + dy, 0, self.height),
                ..self
            }
        } else {
            self
        }
    }
}

/// The logic of the virtual mouse: the pointer's bounds and its tracked
/// position, which only motion requests change.
#[derive(Debug, PartialEq, Eq)]
pub struct EvdevInputMouse {
    width: usize,
    height: usize,
    current_x: i32,
    current_y: i32,
}

impl View for EvdevInputMouse {
    type V = PointerView;

    closed spec fn view(&self) -> PointerView {
        PointerView {
            width: self.width as int,
            height: self.height as int,
            x: self.current_x as int,
            y: self.current_y as int,
        }
    }
}

impl EvdevInputMouse {
    /// The bounds are coordinates themselves.
    #[verifier::type_invariant]
    spec fn bounds_are_coordinates(self) -> bool {
        self.width <= i32::MAX && self.height <= i32::MAX
    }

    /// A mouse for a `width` by `height` area, the pointer at its centre.
    pub fn new(width: usize, height: usize) -> (mouse: EvdevInputMouse)
        requires
            width <= i32::MAX,
            height <= i32::MAX,
        ensures
            mouse@ == (PointerView {
                width: width as int,
                height: height as int,
                x: width as int / 2,
                y: height as int / 2,
            }),
    {
        EvdevInputMouse {
            width,
            height,
            current_x: (width / 2) as i32,
            current_y: (height / 2) as i32,
        }
    }

    pub fn width(&self) -> (width: usize)
        ensures
            width == self@.width,
    {
        self.width
    }

    pub fn height(&self) -> (height: usize)
        ensures
            height == self@.height,
    {
        self.height
    }

    /// Where the pointer is taken to be.
    pub fn position(&self) -> (position: (i32, i32))
        ensures
            position.0 == self@.x,
            position.1 == self@.y,
    {
        (self.current_x, self.current_y)
    }

    /// What the device is created with: its name, its buttons and its axes.
    pub fn descriptor(&self) -> (descriptor: DeviceDescriptor)
        ensures
            descriptor.name@ == "RustDesk Virtual Mouse"@,
            descriptor.keys@ == mouse_buttons(),
            descriptor.relative_axes@ == mouse_axes(),
    {
        DeviceDescriptor {
            name: String::from_str("RustDesk Virtual Mouse"),
            keys: vec![BTN_LEFT, BTN_RIGHT, BTN_MIDDLE, BTN_SIDE, BTN_EXTRA],
            relative_axes: vec![REL_X, REL_Y, REL_WHEEL, REL_HWHEEL],
        }
    }

    /// Looks `button` up in the mapping table.
    pub fn map_enigo_button_to_evdev(&self, button: MouseButton) -> (code: Option<u16>)
        ensures
            code == button_code(button),
    {
        match button {
            MouseButton::Left => Some(BTN_LEFT),
            MouseButton::Right => Some(BTN_RIGHT),
            MouseButton::Middle => Some(BTN_MIDDLE),
            MouseButton::Back => Some(BTN_SIDE),
            MouseButton::Forward => Some(BTN_EXTRA),
            _ => None,
        }
    }

    /// The plan for a motion by `(dx, dy)`.
    fn motion(dx: i32, dy: i32) -> (plan: Plan)
        ensures
            plan@ == motion_plan(dx, dy),
    {
        let mut plan = Plan::new();
        if dx != 0 || dy != 0 {
            plan.push_report(
                batch_of_two(InputEvent::relative(REL_X, dx), InputEvent::relative(REL_Y, dy)),
                OnFailure::Ignore,
                OnFailure::Ignore,
            );
        }
        plan
    }

    /// Moves the pointer to `(x, y)`: the plan holds the motion from the
    /// tracked position to there, and the tracked position becomes exactly
    /// `(x, y)`. The motion on each axis has to fit the value of an event.
    pub fn mouse_move_to(&mut self, x: i32, y: i32) -> (plan: Plan)
        requires
            i32::MIN <= x - old(self)@.x <= i32::MAX,
            i32::MIN <= y - old(self)@.y <= i32::MAX,
        ensures
            plan@ == motion_plan((x - old(self)@.x) as i32, (y - old(self)@.y) as i32),
            final(self)@ == old(self)@.moved_to(x as int, y as int),
    {
        proof {
            use_type_invariant(&*self);
        }
        let dx = x - self.current_x;
        let dy = y - self.current_y;
        self.current_x = x;
        self.current_y = y;
        Self::motion(dx, dy)
    }

    /// Moves the pointer by `(dx, dy)`: the plan holds that motion as
    /// asked for, and the tracked position follows it as far as the bounds
    /// allow.
    pub fn mouse_move_relative(&mut self, dx: i32, dy: i32) -> (plan: Plan)
        ensures
            plan@ == motion_plan(dx, dy),
            final(self)@ == old(self)@.moved_by(dx as int, dy as int),
    {
        proof {
            use_type_invariant(&*self);
        }
        if dx != 0 || dy != 0 {
            self.current_x = Self::bounded(self.current_x, dx, self.width);
            self.current_y = Self::bounded(self.current_y, dy, self.height);
        }
        Self::motion(dx, dy)
    }

    /// `at + by`, brought back into `0..=bound`.
    fn bounded(at: i32, by: i32, bound: usize) -> (coordinate: i32)
        requires
            bound <= i32::MAX,
        ensures
            coordinate == clamp(at + by, 0, bound as int),
    {
        let sum: i64 = at as i64 + by as i64;
        if sum < 0 {
            0
        } else if sum > bound as i64 {
            bound as i32
        } else {
            sum as i32
        }
    }

    /// The plan for `button` going down or up.
    fn button(&self, button: MouseButton, pressed: bool) -> (plan: Plan)
        ensures
            plan@ == button_plan(button, pressed),
    {
        let mut plan = Plan::new();
        if let Some(code) = self.map_enigo_button_to_evdev(button) {
            plan.push_report(
                batch_of_one(InputEvent::key(code, pressed)),
                OnFailure::Ignore,
                OnFailure::Ignore,
            );
        }
        plan
    }

    /// Presses `button`. A button without a code is passed over.
    pub fn mouse_down(&self, button: MouseButton) -> (plan: Plan)
        ensures
            plan@ == button_plan(button, true),
    {
        self.button(button, true)
    }

    /// Releases `button`. A button without a code is passed over.
    pub fn mouse_up(&self, button: MouseButton) -> (plan: Plan)
        ensures
            plan@ == button_plan(button, false),
    {
        self.button(button, false)
    }

    /// Presses `button`, lets it settle, and releases it.
    pub fn mouse_click(&self, button: MouseButton) -> (plan: Plan)
        ensures
            plan@ == click_plan(button),
    {
        let mut plan = self.button(button, true);
        plan.push_settle(BUTTON_SETTLE_MILLIS);
        plan.append(self.button(button, false));
        plan
    }

    /// Scrolls horizontally by `delta`.
    pub fn mouse_scroll_x(&self, delta: i32) -> (plan: Plan)
        ensures
            plan@ == scroll_plan(REL_HWHEEL, delta),
    {
        let mut plan = Plan::new();
        plan.push_report(
            batch_of_one(InputEvent::relative(REL_HWHEEL, delta)),
            OnFailure::Ignore,
            OnFailure::Ignore,
        );
        plan
    }

    /// Scrolls vertically by `delta`.
    pub fn mouse_scroll_y(&self, delta: i32) -> (plan: Plan)
        ensures
            plan@ == scroll_plan(REL_WHEEL, delta),
    {
        let mut plan = Plan::new();
        plan.push_report(
            batch_of_one(InputEvent::relative(REL_WHEEL, delta)),
            OnFailure::Ignore,
            OnFailure::Ignore,
        );
        plan
    }
}

/// Pointer tracking: after a request for the absolute position `(x, y)`
/// and then one for a motion by `(dx, dy)`, not both zero, the tracked
/// position is `(x + dx, y + dy)` brought back into the bounds, and the
/// first batch written for the second request is the motion `(dx, dy)`
/// itself, whatever the device answers.
pub proof fn lemma_pointer_tracking(
    start: PointerView,
    x: i32,
    y: i32,
    dx: i32,
    dy: i32,
    ok: spec_fn(int) -> bool,
)
    requires
        dx != 0 || dy != 0,
    ensures
        start.moved_to(x as int, y as int).moved_by(dx as int, dy as int).x == clamp(
            x + dx,
            0,
            start.width,
        ),
        start.moved_to(x as int, y as int).moved_by(dx as int, dy as int).y == clamp(
            y + dy,
            0,
            start.height,
        ),
        emitted_from(motion_plan(dx, dy), 0, ok).len() == 2,
        emitted_from(motion_plan(dx, dy), 0, ok)[0] == motion_batch(dx, dy),
{
    let plan = motion_plan(dx, dy);
    assert(plan.len() == 2);
    assert(emitted_from(plan, 2, ok) == Seq::<Seq<InputEvent>>::empty());
    assert(emitted_from(plan, 1, ok) == seq![plan[1]->Emit_events] + emitted_from(plan, 2, ok));
    assert(emitted_from(plan, 0, ok) == seq![plan[0]->Emit_events] + emitted_from(plan, 1, ok));
}

/// A button that the mapping table does not hold is passed over in
/// silence: nothing is planned for it, pressed or released.
pub proof fn lemma_unmapped_button_is_silent(button: MouseButton, pressed: bool)
    requires
        button_code(button) is None,
    ensures
        button_plan(button, pressed) == Seq::<StepView>::empty(),
{
}

/// Every code that the mapping table can give is among the button codes
/// that the device declares at creation.
pub proof fn lemma_mapped_buttons_are_declared(button: MouseButton)
    ensures
        button_code(button) matches Some(code) ==> mouse_buttons().contains(code),
{
    let buttons = mouse_buttons();
    match button {
        MouseButton::Left => assert(buttons[0] == BTN_LEFT),
        MouseButton::Right => assert(buttons[1] == BTN_RIGHT),
        MouseButton::Middle => assert(buttons[2] == BTN_MIDDLE),
        MouseButton::Back => assert(buttons[3] == BTN_SIDE),
        MouseButton::Forward => assert(buttons[4] == BTN_EXTRA),
        _ => {},
    }
}

/// In every plan of the mouse each batch of motion, button or scroll
/// events is directly followed by a sync marker.
pub proof fn lemma_mouse_plans_well_paired(button: MouseButton, axis: u16, dx: i32, dy: i32)
    ensures
        well_paired(motion_plan(dx, dy)),
        well_paired(button_plan(button, true)),
        well_paired(button_plan(button, false)),
        well_paired(click_plan(button)),
        well_paired(scroll_plan(axis, dx)),
{
    assert(well_paired(settle(BUTTON_SETTLE_MILLIS)));
    lemma_well_paired_concat(button_plan(button, true), settle(BUTTON_SETTLE_MILLIS));
    lemma_well_paired_concat(
        button_plan(button, true) + settle(BUTTON_SETTLE_MILLIS),
        button_plan(button, false),
    );
}

} // verus!
