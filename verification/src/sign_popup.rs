//! The popup in which the editor writes the four lines of a sign.
use vstd::prelude::*;

use crate::font::{ascii_lowercase, font_valid_char, FontData};
use crate::text_edit::{after_delete, after_typing, delete_char, type_sign_char, MAX_USER_STRING_LEN};
use crate::ui::{Button, ButtonModel, ButtonState, MouseInput, Ui};

verus! {

/// What the popup asks for after a frame: nothing yet, to be cancelled, or to be done.
#[derive(PartialEq, Eq, Structural, Clone, Copy, Debug)]
pub enum SignPopupReturn {
    Nothing,
    Cancel,
    Done,
}

/// The four lines being written, the line being edited, and the done and cancel buttons.
pub struct SignPopup {
    lines: [String; 4],
    line: usize,
    done: Button,
    cancel: Button,
}

/// The line edited after the up key (the one before, wrapping around) and the down or enter
/// key (the one after, wrapping around).
pub open spec fn moved_line(line: int, up: bool, down: bool) -> int {
    let a = if up {
        if line == 0 {
            3
        } else {
            line - 1
        }
    } else {
        line
    };
    if down {
        if a == 3 {
            0
        } else {
            a + 1
        }
    } else {
        a
    }
}

impl SignPopup {
    pub closed spec fn spec_lines(&self) -> Seq<Seq<char>> {
        self.lines@.map_values(|l: String| l@)
    }

    pub closed spec fn spec_line(&self) -> int {
        self.line as int
    }

    pub closed spec fn spec_done(&self) -> ButtonModel {
        self.done@
    }

    pub closed spec fn spec_cancel(&self) -> ButtonModel {
        self.cancel@
    }

    /// The line edited is one of the four.
    pub closed spec fn wf(&self) -> bool {
        self.line < 4
    }

    /// A popup editing the given lines (or four empty ones), from the first line.
    pub fn new(lines: Option<[String; 4]>) -> (res: SignPopup)
        ensures
            res.wf(),
            res.spec_line() == 0,
            res.spec_lines() == (match lines {
                Some(l) => l@.map_values(|s: String| s@),
                None => seq![Seq::<char>::empty(), Seq::<char>::empty(), Seq::<char>::empty(), Seq::<char>::empty()],
            }),
            res.spec_done() == (ButtonModel { state: ButtonState::Idle, disabled: false, label: Some("Done"@), tooltip: None }),
            res.spec_cancel() == (ButtonModel {
                state: ButtonState::Idle,
                disabled: false,
                label: Some("Cancel"@),
                tooltip: None,
            }),
    {
        let lines = match lines {
            Some(l) => l,
            None => {
                let l = [String::new(), String::new(), String::new(), String::new()];
                assert(l@.map_values(|s: String| s@) =~= seq![
                    Seq::<char>::empty(),
                    Seq::<char>::empty(),
                    Seq::<char>::empty(),
                    Seq::<char>::empty(),
                ]);
                l
            },
        };
        SignPopup {
            lines,
            line: 0,
            done: Button::new(Some("Done".to_owned()), None),
            cancel: Button::new(Some("Cancel".to_owned()), None),
        }
    }

    /// The lines written.
    pub fn data(self) -> (res: [String; 4])
        ensures
            res@.map_values(|l: String| l@) == self.spec_lines(),
    {
        self.lines
    }

    /// The lines written so far.
    pub fn lines(&self) -> (res: &[String; 4])
        ensures
            res@.map_values(|l: String| l@) == self.spec_lines(),
    {
        &self.lines
    }

    /// The line being edited.
    pub fn line(&self) -> (res: usize)
        ensures
            res == self.spec_line(),
    {
        self.line
    }

    /// The done and cancel buttons.
    pub fn buttons(&self) -> (res: (&Button, &Button))
        ensures
            res.0@ == self.spec_done(),
            res.1@ == self.spec_cancel(),
    {
        (&self.done, &self.cancel)
    }

    /// Updates the popup for a frame: moves between lines with the up and down keys, types the
    /// character pressed (if any) into the line, lower-cased, when the font can draw it and
    /// the line holds fewer than 24 bytes, deletes the last character when asked, and then
    /// says whether the done or else the cancel button was released.
    pub fn update(
        &mut self,
        ui: &mut Ui,
        up: bool,
        down: bool,
        typed: Option<char>,
        delete: bool,
        font: &FontData,
        hovered_done: bool,
        hovered_cancel: bool,
        mouse: MouseInput,
    ) -> (res: SignPopupReturn)
        requires
            old(self).wf(),
        ensures
            final(self).wf(),
            final(self).spec_line() == moved_line(old(self).spec_line(), up, down),
            ({
                let l = final(self).spec_line();
                let before = old(self).spec_lines()[l];
                let typed_line = match typed {
                    Some(c) => after_typing(before, ascii_lowercase(c), font_valid_char(font@, ascii_lowercase(c)), 24),
                    None => before,
                };
                let after = if delete { after_delete(typed_line) } else { typed_line };
                final(self).spec_lines() == old(self).spec_lines().update(l, after)
            }),
            res == (if final(self).spec_done().state == ButtonState::Released {
                SignPopupReturn::Done
            } else if final(self).spec_cancel().state == ButtonState::Released {
                SignPopupReturn::Cancel
            } else {
                SignPopupReturn::Nothing
            }),
    {
        if up {
            self.line = if self.line == 0 { 3 } else { self.line - 1 };
        }
        if down {
            self.line = if self.line == 3 { 0 } else { self.line + 1 };
        }
        let ghost lines0 = self.lines@;
        let l = self.line;
        let mut text = String::new();
        std::mem::swap(&mut text, &mut self.lines[l]);
        assert(text@ == lines0[l as int]@);
        match typed {
            Some(c) => {
                let _ = type_sign_char(&mut text, c, font, MAX_USER_STRING_LEN);
            },
            None => {},
        }
        if delete {
            delete_char(&mut text);
        }
        let ghost t = text@;
        std::mem::swap(&mut text, &mut self.lines[l]);
        proof {
            assert(self.lines@.map_values(|s: String| s@) =~= lines0.map_values(|s: String| s@).update(l as int, t));
        }
        self.done.update(ui, hovered_done, mouse);
        self.cancel.update(ui, hovered_cancel, mouse);
        if self.done.released() {
            return SignPopupReturn::Done;
        }
        if self.cancel.released() {
            return SignPopupReturn::Cancel;
        }
        SignPopupReturn::Nothing
    }
}

} // verus!
