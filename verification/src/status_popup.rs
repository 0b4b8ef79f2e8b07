//! The read-aloud popup: what it shows, which of its two buttons can be used,
//! and how it reacts to the pointer.

use vstd::prelude::*;

use crate::icons::next_frame;
use crate::overlay::Rgb;

verus! {

pub const WIDTH: u32 = 380;

pub const HEIGHT: u32 = 66;

/// Distance of the popup from the bottom of the screen, in logical pixels.
pub const MARGIN: u32 = 124;

/// Seconds for which the popup lingers once reading is over.
pub const DONE_DWELL_SECS: u64 = 2;

/// Seconds for which the popup lingers after an error.
pub const ERROR_DWELL_SECS: u64 = 4;

pub const AMBER: Rgb = (255, 179, 64);

pub const BLUE: Rgb = (120, 180, 255);

pub const GREEN: Rgb = (120, 210, 140);

pub const GREY: Rgb = (170, 170, 178);

pub const RED: Rgb = (255, 99, 90);

/// How far a read-aloud has come, as far as it can be seen.
#[derive(Debug, Clone, Copy, PartialEq, Eq, Structural)]
pub enum Phase {
    Triggered,
    Generating,
    Speaking,
    Finished,
    Stopped,
    Error,
}

/// What the popup says in a phase.
pub open spec fn phase_label(p: Phase) -> Seq<char> {
    match p {
        Phase::Triggered => "Starting\u{2026}"@,
        Phase::Generating => "Generating\u{2026}"@,
        Phase::Speaking => "Speaking"@,
        Phase::Finished => "Done"@,
        Phase::Stopped => "Stopped"@,
        Phase::Error => "Error"@,
    }
}

/// Whether the status dot pulses in a phase.
pub open spec fn phase_animates(p: Phase) -> bool {
    p == Phase::Generating || p == Phase::Speaking
}

impl Phase {
    /// What the popup says.
    pub fn label(self) -> (r: &'static str)
        ensures
            r@ == phase_label(self),
    {
        match self {
            Phase::Triggered => "Starting\u{2026}",
            Phase::Generating => "Generating\u{2026}",
            Phase::Speaking => "Speaking",
            Phase::Finished => "Done",
            Phase::Stopped => "Stopped",
            Phase::Error => "Error",
        }
    }

    /// The colour of the status dot.
    pub fn accent(self) -> (r: Rgb)
        ensures
            r == (match self {
                Phase::Triggered => AMBER,
                Phase::Generating => AMBER,
                Phase::Speaking => BLUE,
                Phase::Finished => GREEN,
                Phase::Stopped => GREY,
                Phase::Error => RED,
            }),
    {
        match self {
            Phase::Triggered => AMBER,
            Phase::Generating => AMBER,
            Phase::Speaking => BLUE,
            Phase::Finished => GREEN,
            Phase::Stopped => GREY,
            Phase::Error => RED,
        }
    }

    /// Whether the status dot pulses.
    pub fn animates(self) -> (r: bool)
        ensures
            r == phase_animates(self),
    {
        match self {
            Phase::Generating => true,
            Phase::Speaking => true,
            _ => false,
        }
    }
}

/// What a click on the popup asks for.
#[derive(Debug, Clone, Copy, PartialEq, Eq, Structural)]
pub enum PopupAction {
    Replay,
    Stop,
}

/// A button of the popup.
#[derive(Debug, Clone, Copy, PartialEq, Eq, Structural)]
pub enum Button {
    Replay,
    Stop,
}

/// The popup as it is.
#[derive(Debug, Clone, Copy, PartialEq, Eq, Structural)]
pub struct StatusPopup {
    pub phase: Phase,
    /// The frame of the animation.
    pub frame: usize,
    /// Whether the pointer is on the popup.
    pub inside: bool,
    /// The button that the pointer is on, whether it can be used or not.
    pub under: Option<Button>,
    /// The button that is shown as hovered.
    pub hover: Option<Button>,
    pub can_replay: bool,
    pub can_stop: bool,
    pub visible: bool,
}

impl StatusPopup {
    /// Whether a button can be used.
    pub open spec fn enabled(self, b: Button) -> bool {
        match b {
            Button::Replay => self.can_replay,
            Button::Stop => self.can_stop,
        }
    }

    /// The button that should be shown as hovered: the one under the pointer, if
    /// it can be used.
    pub open spec fn hovered(self) -> Option<Button> {
        match self.under {
            Some(b) => if self.enabled(b) {
                Some(b)
            } else {
                None
            },
            None => None,
        }
    }

    /// The hovered button is the one that should be, and a pointer that is off the
    /// popup is on no button.
    pub open spec fn wf(self) -> bool {
        self.hover == self.hovered() && (!self.inside ==> self.under is None)
    }

    /// A popup that is not shown.
    pub fn create() -> (r: StatusPopup)
        ensures
            r.wf(),
            !r.visible && r.phase == Phase::Triggered && r.frame == 0 && !r.inside && !r.can_replay
                && !r.can_stop,
    {
        StatusPopup {
            phase: Phase::Triggered,
            frame: 0,
            inside: false,
            under: None,
            hover: None,
            can_replay: false,
            can_stop: false,
            visible: false,
        }
    }

    /// Whether the popup has to be redrawn on each frame.
    pub fn is_animating(&self) -> (r: bool)
        ensures
            r == (self.visible && phase_animates(self.phase)),
    {
        self.visible && self.phase.animates()
    }

    /// Shows a phase, with the buttons that can be used. The result says whether
    /// the window has to be revealed.
    pub fn show(&mut self, phase: Phase, can_replay: bool, can_stop: bool) -> (r: bool)
        requires
            old(self).wf(),
        ensures
            final(self).wf(),
            r == !old(self).visible,
            final(self).visible,
            final(self).phase == phase,
            final(self).can_replay == can_replay && final(self).can_stop == can_stop,
            final(self).inside == old(self).inside && final(self).under == old(self).under,
            final(self).frame == (if r {
                0
            } else {
                old(self).frame
            }),
    {
        let fresh = !self.visible;
        self.phase = phase;
        self.can_replay = can_replay;
        self.can_stop = can_stop;
        if fresh {
            self.frame = 0;
        }
        self.recompute_hover();
        self.visible = true;
        fresh
    }

    /// Hides the popup and forgets the pointer.
    pub fn dismiss(&mut self)
        ensures
            final(self).wf(),
            !final(self).visible && !final(self).inside && final(self).under is None
                && final(self).hover is None,
            final(self).phase == old(self).phase && final(self).frame == old(self).frame
                && final(self).can_replay == old(self).can_replay && final(self).can_stop
                == old(self).can_stop,
    {
        self.visible = false;
        self.inside = false;
        self.under = None;
        self.hover = None;
    }

    /// Goes on by one frame. The result says whether anything has to be redrawn.
    pub fn tick(&mut self) -> (r: bool)
        requires
            old(self).wf(),
        ensures
            r == (old(self).visible && phase_animates(old(self).phase)),
            !r ==> *final(self) == *old(self),
            r ==> *final(self) == (StatusPopup {
                frame: ((old(self).frame + 1) % (crate::icons::FRAMES as int)) as usize,
                ..*old(self)
            }),
    {
        if !self.is_animating() {
            return false;
        }
        self.frame = next_frame(self.frame);
        true
    }

    /// The pointer moved; `under` is the button it is on now. The result says
    /// whether the hovered button changed, so that it has to be redrawn.
    pub fn on_cursor_moved(&mut self, under: Option<Button>) -> (r: bool)
        requires
            old(self).wf(),
        ensures
            final(self).wf(),
            final(self).inside && final(self).under == under,
            r == (final(self).hover != old(self).hover),
            final(self).phase == old(self).phase && final(self).frame == old(self).frame
                && final(self).can_replay == old(self).can_replay && final(self).can_stop
                == old(self).can_stop && final(self).visible == old(self).visible,
    {
        self.inside = true;
        self.under = under;
        let before = self.hover;
        self.recompute_hover();
        self.hover != before
    }

    /// The pointer left. The result says whether the popup has to be redrawn.
    pub fn on_cursor_left(&mut self) -> (r: bool)
        requires
            old(self).wf(),
        ensures
            final(self).wf(),
            !final(self).inside && final(self).under is None && final(self).hover is None,
            r == (old(self).inside || old(self).hover is Some),
            final(self).phase == old(self).phase && final(self).frame == old(self).frame
                && final(self).can_replay == old(self).can_replay && final(self).can_stop
                == old(self).can_stop && final(self).visible == old(self).visible,
    {
        if self.inside || self.hover.is_some() {
            self.inside = false;
            self.under = None;
            self.hover = None;
            true
        } else {
            false
        }
    }

    /// What a click asks for: that of the button under the pointer, if it can be
    /// used.
    pub fn on_click(&self) -> (r: Option<PopupAction>)
        ensures
            r == (match self.hovered() {
                Some(Button::Replay) => Some(PopupAction::Replay),
                Some(Button::Stop) => Some(PopupAction::Stop),
                None => None,
            }),
    {
        match self.under {
            Some(Button::Replay) => if self.can_replay {
                Some(PopupAction::Replay)
            } else {
                None
            },
            Some(Button::Stop) => if self.can_stop {
                Some(PopupAction::Stop)
            } else {
                None
            },
            None => None,
        }
    }

    fn recompute_hover(&mut self)
        ensures
            *final(self) == (StatusPopup { hover: old(self).hovered(), ..*old(self) }),
    {
        self.hover = match self.under {
            Some(Button::Replay) => if self.can_replay {
                Some(Button::Replay)
            } else {
                None
            },
            Some(Button::Stop) => if self.can_stop {
                Some(Button::Stop)
            } else {
                None
            },
            None => None,
        };
    }
}

/// A click does nothing exactly if no button is shown as hovered: what lights up
/// is what works.
pub proof fn hover_shows_what_a_click_does(p: StatusPopup)
    requires
        p.wf(),
    ensures
        p.hover is Some <==> p.hovered() is Some,
        p.hover matches Some(b) ==> p.enabled(b),
{
}

/// A button is lit exactly while the pointer is on it and it can be used: Replay once
/// there is something to replay, Stop while there is something to stop.
pub proof fn a_button_is_lit_while_it_can_be_used(p: StatusPopup)
    ensures
        p.hovered() == Some(Button::Replay) <==> p.under == Some(Button::Replay) && p.can_replay,
        p.hovered() == Some(Button::Stop) <==> p.under == Some(Button::Stop) && p.can_stop,
        p.under is None ==> p.hovered() is None,
{
}

/// Each phase says what is going on, and only work that goes on pulses.
pub proof fn phases_say_what_is_going_on(p: Phase)
    ensures
        phase_label(Phase::Triggered) == "Starting\u{2026}"@,
        phase_label(Phase::Generating) == "Generating\u{2026}"@,
        phase_label(Phase::Speaking) == "Speaking"@,
        phase_label(Phase::Finished) == "Done"@,
        phase_label(Phase::Stopped) == "Stopped"@,
        phase_label(Phase::Error) == "Error"@,
        phase_animates(p) <==> p != Phase::Triggered && p != Phase::Finished && p != Phase::Stopped
            && p != Phase::Error,
{
}

} // verus!
