//! The rules of the user interface: which element gets the mouse in a frame, the tooltip,
//! how a button moves between its states, and sliders.
use vstd::prelude::*;

verus! {

/// Makes sure two elements are not interacted with in one frame, and holds the tooltip.
pub struct Ui {
    tooltip: String,
    interacted: bool,
}

/// The state of the user interface: the tooltip shown and whether an element took the mouse.
pub struct UiModel {
    pub tooltip: Seq<char>,
    pub interacted: bool,
}

impl View for Ui {
    type V = UiModel;

    closed spec fn view(&self) -> UiModel {
        UiModel { tooltip: self.tooltip@, interacted: self.interacted }
    }
}

impl Ui {
    /// No tooltip, and no element interacted with.
    pub fn new() -> (res: Ui)
        ensures
            res@.tooltip == Seq::<char>::empty(),
            !res@.interacted,
    {
        Ui { tooltip: String::new(), interacted: false }
    }

    /// Whether an element took the mouse.
    pub fn interacted(&self) -> (res: bool)
        ensures
            res == self@.interacted,
    {
        self.interacted
    }

    /// Marks that an element took the mouse.
    pub fn interact(&mut self)
        ensures
            final(self)@ == (UiModel { interacted: true, ..old(self)@ }),
    {
        self.interacted = true;
    }

    /// The tooltip to show.
    pub fn tooltip(&self) -> (res: &String)
        ensures
            res@ == self@.tooltip,
    {
        &self.tooltip
    }

    /// Shows `tooltip`.
    pub fn set_tooltip(&mut self, tooltip: &str)
        ensures
            final(self)@ == (UiModel { tooltip: tooltip@, ..old(self)@ }),
    {
        self.tooltip = tooltip.to_owned();
    }

    /// Starts a frame: no element has taken the mouse and no tooltip is shown.
    pub fn begin_frame(&mut self)
        ensures
            final(self)@ == (UiModel { tooltip: Seq::<char>::empty(), interacted: false }),
    {
        self.interacted = false;
        self.tooltip = String::new();
    }

    /// Ends a frame: once the left mouse button is up, no element holds the mouse.
    pub fn end_frame(&mut self, mouse_down: bool)
        ensures
            final(self)@ == (UiModel { interacted: old(self)@.interacted && mouse_down, ..old(self)@ }),
    {
        if !mouse_down {
            self.interacted = false;
        }
    }
}

impl Default for Ui {
    /// See `new`.
    fn default() -> (res: Ui)
        ensures
            res@.tooltip == Seq::<char>::empty(),
            !res@.interacted,
    {
        Ui::new()
    }
}

/// The states of a button.
#[derive(PartialEq, Eq, Structural, Debug, Clone, Copy)]
pub enum ButtonState {
    Idle,
    Hovered,
    Clicked,
    Held,
    Released,
}

/// What the left mouse button did in a frame.
#[derive(PartialEq, Eq, Structural, Debug, Clone, Copy)]
pub struct MouseInput {
    /// it went down this frame
    pub pressed: bool,
    /// it is down
    pub down: bool,
    /// it went up this frame
    pub released: bool,
}

/// The next state of a hovered button that takes the mouse: an idle button becomes hovered; a
/// hovered one clicked when the mouse is pressed; a clicked or held one held while the mouse
/// is down; a held one released when the mouse is released; and a released one hovered again.
pub open spec fn next_button_state(state: ButtonState, mouse: MouseInput) -> ButtonState {
    if state == ButtonState::Idle {
        ButtonState::Hovered
    } else if mouse.pressed && state == ButtonState::Hovered {
        ButtonState::Clicked
    } else if mouse.down && (state == ButtonState::Clicked || state == ButtonState::Held) {
        ButtonState::Held
    } else if mouse.released && state == ButtonState::Held {
        ButtonState::Released
    } else if state == ButtonState::Released {
        ButtonState::Hovered
    } else {
        state
    }
}

/// The state-changing part of a button: its state, whether it is disabled, its label and its
/// tooltip (where it is drawn is up to its owner).
pub struct Button {
    state: ButtonState,
    disabled: bool,
    label: Option<String>,
    tooltip: Option<String>,
}

/// The contents of a button.
pub struct ButtonModel {
    pub state: ButtonState,
    pub disabled: bool,
    pub label: Option<Seq<char>>,
    pub tooltip: Option<Seq<char>>,
}

/// The contents of an optional string.
pub open spec fn opt_string(s: Option<String>) -> Option<Seq<char>> {
    match s {
        Some(t) => Some(t@),
        None => None,
    }
}

impl View for Button {
    type V = ButtonModel;

    closed spec fn view(&self) -> ButtonModel {
        ButtonModel {
            state: self.state,
            disabled: self.disabled,
            label: opt_string(self.label),
            tooltip: opt_string(self.tooltip),
        }
    }
}

impl Button {
    /// An idle, enabled button.
    pub fn new(label: Option<String>, tooltip: Option<String>) -> (res: Button)
        ensures
            res@ == (ButtonModel {
                state: ButtonState::Idle,
                disabled: false,
                label: opt_string(label),
                tooltip: opt_string(tooltip),
            }),
    {
        Button { state: ButtonState::Idle, disabled: false, label, tooltip }
    }

    /// The state of the button.
    pub fn state(&self) -> (res: ButtonState)
        ensures
            res == self@.state,
    {
        self.state
    }

    /// Whether the button was released this frame, that is, clicked.
    pub fn released(&self) -> (res: bool)
        ensures
            res == (self@.state == ButtonState::Released),
    {
        self.state == ButtonState::Released
    }

    /// The label of the button.
    pub fn label(&self) -> (res: &Option<String>)
        ensures
            opt_string(*res) == self@.label,
    {
        &self.label
    }

    /// Whether the button is disabled.
    pub fn disabled(&self) -> (res: bool)
        ensures
            res == self@.disabled,
    {
        self.disabled
    }

    /// Gives the button the label `label`.
    pub fn set_label(&mut self, label: &str)
        ensures
            final(self)@ == (ButtonModel { label: Some(label@), ..old(self)@ }),
    {
        self.label = Some(label.to_owned());
    }

    /// Disables or enables the button.
    pub fn set_disabled(&mut self, disabled: bool)
        ensures
            final(self)@ == (ButtonModel { disabled, ..old(self)@ }),
    {
        self.disabled = disabled;
    }

    /// Updates the button for a frame in which the mouse is over it (`hovered`) or not: a
    /// disabled or unhovered button becomes idle; a hovered one does nothing if another element
    /// took the mouse, and otherwise takes it, shows its tooltip and moves to its next state.
    pub fn update(&mut self, ui: &mut Ui, hovered: bool, mouse: MouseInput)
        ensures
            final(self)@.disabled == old(self)@.disabled,
            final(self)@.label == old(self)@.label,
            final(self)@.tooltip == old(self)@.tooltip,
            (old(self)@.disabled || !hovered) ==> final(self)@.state == ButtonState::Idle && final(ui)@ == old(ui)@,
            (!old(self)@.disabled && hovered && old(ui)@.interacted) ==> final(self)@.state == old(self)@.state
                && final(ui)@ == old(ui)@,
            (!old(self)@.disabled && hovered && !old(ui)@.interacted) ==> {
                &&& final(self)@.state == next_button_state(old(self)@.state, mouse)
                &&& final(ui)@.interacted
                &&& final(ui)@.tooltip == (match old(self)@.tooltip {
                    Some(t) => t,
                    None => old(ui)@.tooltip,
                })
            },
    {
        if self.disabled {
            self.state = ButtonState::Idle;
            return;
        }
        if !hovered {
            self.state = ButtonState::Idle;
            return;
        }
        if ui.interacted() {
            return;
        }
        ui.interact();
        match &self.tooltip {
            Some(t) => ui.set_tooltip(t.as_str()),
            None => {},
        }
        if self.state == ButtonState::Idle {
            self.state = ButtonState::Hovered;
        } else if mouse.pressed && self.state == ButtonState::Hovered {
            self.state = ButtonState::Clicked;
        } else if mouse.down && (self.state == ButtonState::Clicked || self.state == ButtonState::Held) {
            self.state = ButtonState::Held;
        } else if mouse.released && self.state == ButtonState::Held {
            self.state = ButtonState::Released;
        } else if self.state == ButtonState::Released {
            self.state = ButtonState::Hovered;
        }
    }
}

/// A button is only released after being held, only held after being clicked or held, only
/// clicked after being hovered or clicked, and never goes back to idle while it is hovered.
pub proof fn lemma_button_steps(state: ButtonState, mouse: MouseInput)
    ensures
        next_button_state(state, mouse) == ButtonState::Released ==> state == ButtonState::Held,
        next_button_state(state, mouse) == ButtonState::Held ==> state == ButtonState::Clicked || state == ButtonState::Held,
        next_button_state(state, mouse) == ButtonState::Clicked ==> state == ButtonState::Hovered || state == ButtonState::Clicked,
        next_button_state(state, mouse) != ButtonState::Idle,
{
}

/// A hovered button that is pressed, held and let go is released after four frames, starting
/// from idle.
pub proof fn lemma_button_click()
    ensures
        ({
            let up = MouseInput { pressed: false, down: false, released: false };
            let press = MouseInput { pressed: true, down: true, released: false };
            let hold = MouseInput { pressed: false, down: true, released: false };
            let release = MouseInput { pressed: false, down: false, released: true };
            next_button_state(
                next_button_state(next_button_state(next_button_state(ButtonState::Idle, up), press), hold),
                release,
            ) == ButtonState::Released
        }),
{
}

/// A slider for a byte between `min` and `max`.
pub struct SliderU8 {
    min: u8,
    max: u8,
    active: bool,
}

impl SliderU8 {
    /// An inactive slider from `min` to `max`.
    pub fn new(min: u8, max: u8) -> (res: SliderU8)
        ensures
            res.spec_min() == min,
            res.spec_max() == max,
            !res.spec_active(),
    {
        SliderU8 { min, max, active: false }
    }

    pub closed spec fn spec_min(&self) -> u8 {
        self.min
    }

    pub closed spec fn spec_max(&self) -> u8 {
        self.max
    }

    pub closed spec fn spec_active(&self) -> bool {
        self.active
    }

    /// The smallest value of the slider.
    pub fn min(&self) -> (res: u8)
        ensures
            res == self.spec_min(),
    {
        self.min
    }

    /// The largest value of the slider.
    pub fn max(&self) -> (res: u8)
        ensures
            res == self.spec_max(),
    {
        self.max
    }

    /// Whether the slider follows the mouse.
    pub fn active(&self) -> (res: bool)
        ensures
            res == self.spec_active(),
    {
        self.active
    }

    /// The slider becomes active when the mouse is pressed over it, and inactive once the mouse
    /// is up.
    pub fn update_active(&mut self, pressed_over: bool, mouse_down: bool)
        ensures
            final(self).spec_min() == old(self).spec_min(),
            final(self).spec_max() == old(self).spec_max(),
            final(self).spec_active() == ((old(self).spec_active() || pressed_over) && mouse_down),
    {
        if pressed_over {
            self.active = true;
        }
        if !mouse_down {
            self.active = false;
        }
    }

    /// The value after the left and right arrow keys: each moves it by one, without going past
    /// 0 or 255, and then it is clamped between the minimum and maximum.
    pub fn nudge(&self, value: u8, left: bool, right: bool) -> (res: u8)
        requires
            self.spec_min() <= self.spec_max(),
        ensures
            res == nudged(value, left, right, self.spec_min(), self.spec_max()),
            self.spec_min() <= res <= self.spec_max() || (!left && !right && res == value),
    {
        let mut v = value;
        if left {
            v = clamp_u8(v.saturating_sub(1), self.min, self.max);
        }
        if right {
            v = clamp_u8(v.saturating_add(1), self.min, self.max);
        }
        v
    }
}

/// `v` clamped between `lo` and `hi`.
pub open spec fn spec_clamp_u8(v: u8, lo: u8, hi: u8) -> u8 {
    if v < lo {
        lo
    } else if v > hi {
        hi
    } else {
        v
    }
}

/// `v` clamped between `lo` and `hi`.
pub fn clamp_u8(v: u8, lo: u8, hi: u8) -> (res: u8)
    requires
        lo <= hi,
    ensures
        res == spec_clamp_u8(v, lo, hi),
{
    if v < lo {
        lo
    } else if v > hi {
        hi
    } else {
        v
    }
}

/// The value of a slider after the arrow keys (see `SliderU8::nudge`).
pub open spec fn nudged(value: u8, left: bool, right: bool, min: u8, max: u8) -> u8 {
    let a = if left {
        spec_clamp_u8(if value == 0 { 0 } else { (value - 1) as u8 }, min, max)
    } else {
        value
    };
    if right {
        spec_clamp_u8(if a == 255 { 255 } else { (a + 1) as u8 }, min, max)
    } else {
        a
    }
}

/// The kind of a toast message: a warning (red) or information (blue).
#[derive(PartialEq, Eq, Structural, Clone, Copy, Debug)]
pub enum ToastKind {
    Warning,
    Info,
}

} // verus!
