//! The displays that can be captured.

use vstd::prelude::*;

verus! {

/// One physical display, identified by its platform id.
#[derive(Clone, Copy, Debug, PartialEq, Eq, Structural)]
pub struct DisplayImpl {
    pub id: u32,
}

impl DisplayImpl {
    /// Every display that is attached: a single default display with id 0.
    pub fn list() -> (displays: Vec<DisplayImpl>)
        ensures
            displays@ == seq![(DisplayImpl { id: 0 })],
    {
        let mut displays: Vec<DisplayImpl> = Vec::new();
        displays.push(DisplayImpl { id: 0 });
        assert(displays@ =~= seq![(DisplayImpl { id: 0 })]);
        displays
    }

    /// The primary display, which is the display with id 0.
    pub fn primary() -> (display: DisplayImpl)
        ensures
            display == (DisplayImpl { id: 0 }),
    {
        DisplayImpl { id: 0 }
    }

    /// The platform id of this display.
    pub fn id(&self) -> (id: u32)
        ensures
            id == self.id,
    {
        self.id
    }
}

} // verus!
