use vstd::prelude::*;

verus! {

/// Reader navigation actions that an input source can ask for.
#[derive(Clone, Copy, Debug, PartialEq, Eq, Structural)]
pub enum RustmixReaderAction {
    BackToLibrary,
    OpenOrSelect,
    NextPage,
    PreviousPage,
    BookmarkOrMenu,
    Unsupported,
}

/// The X4 hardware buttons.
#[derive(Clone, Copy, Debug, PartialEq, Eq, Structural)]
pub enum Button {
    VolDown,
    VolUp,
    Right,
    Left,
    Confirm,
    Back,
    Power,
}

/// A hardware input event as the X4 input queue carries it.
#[derive(Clone, Copy, Debug, PartialEq, Eq, Structural)]
pub enum Event {
    Press(Button),
    Release(Button),
    LongPress(Button),
    Repeat(Button),
}

} // verus!
