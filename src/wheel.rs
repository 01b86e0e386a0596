//! The navigation state of a gesture over the menu rings.
use vstd::prelude::*;

use crate::action::{is_menu, ActionBubble};
use crate::segment::{segment_number, segment_of};

verus! {

/// How far, in screen units, the pointer must get from the anchor before
/// its direction selects anything.
pub const GESTURE_THRESHOLD: u64 = 50;

/// Radius of the bubble drawn at the anchor.
pub const ACTIVE_RADIUS: u64 = 30;

/// Radius of the bubbles of the ring's entries.
pub const ACTION_RADIUS: u64 = 20;

/// Distance from the anchor to the centres of the ring's bubbles.
pub const BUBBLE_DISTANCE: u64 = 80;

/// The pointer as seen from the gesture's anchor.
#[derive(Clone, Copy, Debug, PartialEq, Eq)]
pub struct Polar {
    /// Distance from the anchor in whole screen units, rounded down.
    pub distance: u64,
    /// Direction from the anchor, as a fraction of a revolution in units of
    /// [`crate::segment::TURN`].
    pub turn: u64,
}

/// A radial menu under a pointer gesture.
///
/// `P` is the host's point type: the anchor of the gesture and the positions
/// of bubbles are stored and handed back, never looked into.
#[derive(Debug)]
pub struct Wheel<P> {
    /// Anchor of the current gesture; `None` while no gesture is active.
    pub center: Option<P>,
    /// Entries of the ring that is displayed.
    pub actions: Vec<ActionBubble>,
    /// The command that the last gesture committed.
    pub final_command: Option<String>,
}

impl<P> Wheel<P> {
    /// The displayed ring is a menu: it has an entry in every direction, and
    /// each nested menu it leads to has one too.
    pub open spec fn wf(self) -> bool {
        is_menu(self.actions@)
    }

    /// A gesture is under way over a ring with at least one entry.
    pub open spec fn is_active(self) -> bool {
        self.center is Some && self.actions.len() >= 1
    }

    /// The gesture is active and the pointer has left the inert zone around
    /// the anchor, so that its direction selects an entry.
    pub open spec fn is_aimed(self, at: Polar) -> bool {
        self.is_active() && at.distance >= GESTURE_THRESHOLD
    }

    /// Index of the entry of the displayed ring in the pointer's direction.
    pub open spec fn focus(self, at: Polar) -> int {
        segment_of(at.turn as int, self.actions.len() as int)
    }

    /// The pointer, aimed, points at an entry that opens a nested menu.
    pub open spec fn drills_into(self, at: Polar) -> bool {
        self.is_aimed(at) && self.actions@[self.focus(at)].subwheel is Some
    }

    /// The pointer, aimed, points at an entry that holds a command.
    pub open spec fn commits(self, at: Polar) -> bool {
        self.is_aimed(at) && self.actions@[self.focus(at)].command is Some
    }

    /// A wheel that shows the ring `actions` and awaits a gesture.
    pub fn new(actions: Vec<ActionBubble>) -> (wheel: Self)
        ensures
            wheel.center is None,
            wheel.actions@ == actions@,
            wheel.final_command is None,
            wheel.wf() == is_menu(actions@),
    {
        Wheel { center: None, actions, final_command: None }
    }

    /// The pointer goes down at `at`: a gesture starts, anchored there.
    ///
    /// The displayed ring stays, so that a gesture restarted after drilling
    /// down goes on in the nested menu.
    pub fn on_button(&mut self, at: P)
        ensures
            final(self).center == Some(at),
            final(self).actions == old(self).actions,
            final(self).final_command is None,
    {
        self.center = Some(at);
        self.final_command = None;
    }

    /// The pointer moves to `pointer`.
    ///
    /// Where it points, beyond the inert zone, at an entry with a nested
    /// menu, that menu replaces the displayed ring and the gesture is
    /// re-anchored at the entry's bubble, `bubbles[i]` for entry `i`.
    /// Anything else leaves the wheel as it is. Returns whether the wheel
    /// changed, and so has to be drawn again.
    pub fn on_mouse_move(&mut self, pointer: Polar, bubbles: Vec<P>) -> (redraw: bool)
        requires
            bubbles.len() == old(self).actions.len(),
        ensures
            redraw == old(self).drills_into(pointer),
            !redraw ==> *final(self) == *old(self),
            redraw ==> final(self).center == Some(bubbles@[old(self).focus(pointer)]),
            redraw ==> final(self).actions@ == old(self).actions@[old(self).focus(
                pointer,
            )].subwheel->0@,
            old(self).wf() ==> final(self).wf(),
            final(self).final_command == old(self).final_command,
    {
        if self.center.is_none() || self.actions.len() == 0 || pointer.distance < GESTURE_THRESHOLD {
            return false;
        }
        let segment = segment_number(pointer.turn, self.actions.len());
        if self.actions[segment].subwheel.is_none() {
            return false;
        }
        let focus = self.actions.swap_remove(segment);
        match focus.subwheel {
            Some(level) => {
                let mut bubbles = bubbles;
                self.center = Some(bubbles.swap_remove(segment));
                self.actions = level;
                true
            },
            None => false,
        }
    }

    /// The pointer is released at `pointer`: the gesture ends.
    ///
    /// Released inside the inert zone, the gesture is cancelled. Released
    /// over an entry with a command, the command is committed into
    /// `final_command` and taken from the entry. Returns whether a command
    /// was committed. Without an active gesture nothing changes.
    pub fn on_button_release(&mut self, pointer: Polar) -> (committed: bool)
        ensures
            committed == old(self).commits(pointer),
            !old(self).is_active() ==> *final(self) == *old(self),
            old(self).is_active() ==> final(self).center is None,
            committed ==> final(self).final_command == old(self).actions@[old(self).focus(
                pointer,
            )].command,
            committed ==> final(self).actions@ == old(self).actions@.update(
                old(self).focus(pointer),
                old(self).actions@[old(self).focus(pointer)].spent(),
            ),
            !committed ==> final(self).final_command == old(self).final_command,
            !committed ==> final(self).actions == old(self).actions,
            old(self).wf() ==> final(self).wf(),
    {
        if self.center.is_none() || self.actions.len() == 0 {
            return false;
        }
        self.center = None;
        if pointer.distance < GESTURE_THRESHOLD {
            return false;
        }
        let segment = segment_number(pointer.turn, self.actions.len());
        if self.actions[segment].command.is_none() {
            return false;
        }
        let mut focus = self.actions.remove(segment);
        let command = focus.command.take();
        self.actions.insert(segment, focus);
        proof {
            assert(self.actions@ =~= old(self).actions@.update(
                segment as int,
                old(self).actions@[segment as int].spent(),
            ));
        }
        self.final_command = command;
        true
    }
}

} // verus!
