//! Maps R10 remote actions onto the X4 hardware input path: an accepted page
//! turn is injected as the same button press the physical page keys produce.
use vstd::prelude::*;
use crate::reader_input::{Button, Event, RustmixReaderAction};
use crate::r10_remote_policy::R10RemoteAction;

verus! {

pub const R10_NEXT_PAGE_BUTTON: Button = Button::VolDown;

pub const R10_PREVIOUS_PAGE_BUTTON: Button = Button::VolUp;

#[derive(Clone, Copy, Debug, PartialEq, Eq, Structural)]
pub enum R10InputInjection {
    NoInjection,
    Press(Event),
}

/// The injection for a remote action: next page presses VolDown, previous page
/// presses VolUp, anything else injects nothing.
pub open spec fn injection_for(action: R10RemoteAction) -> R10InputInjection {
    match action {
        R10RemoteAction::Reader(RustmixReaderAction::NextPage) => R10InputInjection::Press(
            Event::Press(Button::VolDown),
        ),
        R10RemoteAction::Reader(RustmixReaderAction::PreviousPage) => R10InputInjection::Press(
            Event::Press(Button::VolUp),
        ),
        _ => R10InputInjection::NoInjection,
    }
}

impl R10InputInjection {
    pub fn from_remote_action(action: R10RemoteAction) -> (r: Self)
        ensures
            r == injection_for(action),
    {
        match action {
            R10RemoteAction::Reader(RustmixReaderAction::NextPage) => {
                Self::Press(Event::Press(R10_NEXT_PAGE_BUTTON))
            },
            R10RemoteAction::Reader(RustmixReaderAction::PreviousPage) => {
                Self::Press(Event::Press(R10_PREVIOUS_PAGE_BUTTON))
            },
            _ => Self::NoInjection,
        }
    }

    /// The event to queue, if any.
    pub fn event(self) -> (r: Option<Event>)
        ensures
            r == (match self {
                R10InputInjection::NoInjection => None,
                R10InputInjection::Press(e) => Some(e),
            }),
    {
        match self {
            Self::NoInjection => None,
            Self::Press(event) => Some(event),
        }
    }
}

/// The event that a remote action puts on the input queue, if any.
pub fn remote_action_event(action: R10RemoteAction) -> (r: Option<Event>)
    ensures
        r == (match injection_for(action) {
            R10InputInjection::NoInjection => None,
            R10InputInjection::Press(e) => Some(e),
        }),
{
    R10InputInjection::from_remote_action(action).event()
}

} // verus!
