//! Event combinator: an earlier, simpler form of the dead-man combo. It
//! reports the shutdown gesture whenever both menu buttons are held after an
//! event — without the rising-edge filter the event translator applies.

use vstd::prelude::*;
use crate::event_translator::Event;
use crate::event_translator::combo_after;

verus! {

/// A gesture recognized across several raw events.
#[derive(Clone, Copy, Debug, PartialEq, Eq, Structural)]
pub enum SpecialEvent {
    Shutdown,
}

/// Folds raw events into the two menu-button states.
#[derive(Debug)]
pub struct EventCombinator {
    /// Whether the left menu button is held.
    pub menu_left_pressed: bool,
    /// Whether the right menu button is held.
    pub menu_right_pressed: bool,
}

impl EventCombinator {
    /// A combinator with both menu buttons released.
    pub fn new() -> (r: EventCombinator)
        ensures
            !r.menu_left_pressed,
            !r.menu_right_pressed,
    {
        EventCombinator { menu_left_pressed: false, menu_right_pressed: false }
    }

    /// Fold one event in; reports the shutdown gesture whenever both menu
    /// buttons are held afterwards.
    pub fn add(&mut self, event: &Event) -> (r: Option<SpecialEvent>)
        ensures
            (final(self).menu_left_pressed, final(self).menu_right_pressed) == combo_after(
                old(self).menu_left_pressed,
                old(self).menu_right_pressed,
                *event,
            ),
            r == if final(self).menu_left_pressed && final(self).menu_right_pressed {
                Some(SpecialEvent::Shutdown)
            } else {
                None::<SpecialEvent>
            },
    {
        match event {
            Event::MenuL(pressed) => {
                self.menu_left_pressed = *pressed;
            }
            Event::MenuR(pressed) => {
                self.menu_right_pressed = *pressed;
            }
            _ => {}
        }
        if self.menu_left_pressed && self.menu_right_pressed {
            return Some(SpecialEvent::Shutdown);
        }
        None
    }
}

}
