use vstd::prelude::*;

verus! {

/// Which list a tabbed panel is showing.
#[derive(Copy, Clone, Debug, PartialEq, Eq, Structural)]
pub enum TabView {
    Queue,
    History,
}

impl Default for TabView {
    fn default() -> (r: Self)
        ensures
            r == TabView::Queue,
    {
        TabView::Queue
    }
}

impl TabView {
    /// The caption shown on the tab for this view.
    pub fn label(&self) -> (r: &'static str)
        ensures
            self == TabView::Queue ==> r@ == "Queue"@,
            self == TabView::History ==> r@ == "History"@,
    {
        match self {
            TabView::Queue => "Queue",
            TabView::History => "History",
        }
    }
}

} // verus!
