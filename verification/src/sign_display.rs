//! Showing a sign on the screen until the player closes it.
use vstd::prelude::*;

verus! {

/// The lines of the sign being read, if one is, and whether one was closed this frame.
pub struct SignDisplay {
    lines: Option<[String; 4]>,
    closed_this_frame: bool,
}

/// The state of the sign display: the four lines shown, if any, and whether a sign was closed
/// this frame.
pub struct SignDisplayModel {
    pub lines: Option<Seq<Seq<char>>>,
    pub closed_this_frame: bool,
}

/// The four lines of a sign, as a model.
pub open spec fn sign_lines_model(lines: [String; 4]) -> Seq<Seq<char>> {
    lines@.map_values(|l: String| l@)
}

impl View for SignDisplay {
    type V = SignDisplayModel;

    closed spec fn view(&self) -> SignDisplayModel {
        SignDisplayModel {
            lines: match self.lines {
                Some(l) => Some(sign_lines_model(l)),
                None => None,
            },
            closed_this_frame: self.closed_this_frame,
        }
    }
}

impl SignDisplay {
    /// Nothing shown.
    pub fn new() -> (res: SignDisplay)
        ensures
            res@.lines is None,
            !res@.closed_this_frame,
    {
        SignDisplay { lines: None, closed_this_frame: false }
    }

    /// Whether a sign is shown.
    pub fn active(&self) -> (res: bool)
        ensures
            res == self@.lines is Some,
    {
        self.lines.is_some()
    }

    /// Whether a sign was closed this frame.
    pub fn closed_this_frame(&self) -> (res: bool)
        ensures
            res == self@.closed_this_frame,
    {
        self.closed_this_frame
    }

    /// The lines shown, if a sign is.
    pub fn lines(&self) -> (res: &Option<[String; 4]>)
        ensures
            self@.lines == (match *res {
                Some(l) => Some(sign_lines_model(l)),
                None => None,
            }),
    {
        &self.lines
    }

    /// Shows a sign with these lines.
    pub fn set_lines(&mut self, lines: [String; 4])
        ensures
            final(self)@ == shown_display(old(self)@, sign_lines_model(lines)),
    {
        self.lines = Some(lines);
    }

    /// Updates the display for a frame (see `updated_display`).
    pub fn update(&mut self, close_pressed: bool)
        ensures
            final(self)@ == updated_display(old(self)@, close_pressed),
    {
        self.closed_this_frame = false;
        if self.lines.is_none() {
            return;
        }
        if close_pressed {
            self.lines = None;
            self.closed_this_frame = true;
        }
    }
}

/// The display after a frame: the sign shown is closed when the close key (W) was pressed,
/// and only then was a sign closed this frame.
pub open spec fn updated_display(m: SignDisplayModel, close_pressed: bool) -> SignDisplayModel {
    let closing = m.lines is Some && close_pressed;
    SignDisplayModel { lines: if closing { None } else { m.lines }, closed_this_frame: closing }
}

/// The display with a sign of these lines shown.
pub open spec fn shown_display(m: SignDisplayModel, lines: Seq<Seq<char>>) -> SignDisplayModel {
    SignDisplayModel { lines: Some(lines), ..m }
}

impl Default for SignDisplay {
    /// See `new`.
    fn default() -> (res: SignDisplay)
        ensures
            res@.lines is None,
            !res@.closed_this_frame,
    {
        SignDisplay::new()
    }
}

/// A sign that is shown stays shown until the close key is pressed; then it is gone and was
/// closed that frame, and the frame after nothing is closed.
pub proof fn lemma_show_then_close(m: SignDisplayModel, lines: Seq<Seq<char>>)
    ensures
        updated_display(shown_display(m, lines), false).lines == Some(lines),
        updated_display(shown_display(m, lines), true).lines is None,
        updated_display(shown_display(m, lines), true).closed_this_frame,
        !updated_display(updated_display(shown_display(m, lines), true), true).closed_this_frame,
{
}

} // verus!
