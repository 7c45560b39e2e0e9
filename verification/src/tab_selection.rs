use vstd::prelude::*;

verus! {

/// Which list the track panel is showing.
#[derive(Copy, Clone, Debug, PartialEq, Eq, Structural)]
pub enum TabSelection {
    Queue,
    History,
}

impl Default for TabSelection {
    fn default() -> (r: Self)
        ensures
            r == TabSelection::Queue,
    {
        TabSelection::Queue
    }
}

impl TabSelection {
    /// The caption shown on the tab for this selection.
    pub fn label(&self) -> (r: &'static str)
        ensures
            self == TabSelection::Queue ==> r@ == "Queue"@,
            self == TabSelection::History ==> r@ == "History"@,
    {
        match self {
            TabSelection::Queue => "Queue",
            TabSelection::History => "History",
        }
    }
}

} // verus!
