use vstd::prelude::*;

verus! {

/// Whether an element is visible in its viewport, as last reported by an
/// intersection observer watching it.
pub struct ElementVisibility {
    visible: bool,
}

impl View for ElementVisibility {
    type V = bool;

    closed spec fn view(&self) -> bool {
        self.visible
    }
}

impl ElementVisibility {
    /// Before the first report the element counts as not visible.
    pub fn new() -> (v: Self)
        ensures
            !v@,
    {
        ElementVisibility { visible: false }
    }

    /// An observer report arrives; `intersecting` holds, per entry of the
    /// report, whether the target intersects the viewport. The first entry
    /// decides.
    pub fn intersection_observed(&mut self, intersecting: &Vec<bool>)
        requires
            intersecting.len() > 0,
        ensures
            final(self)@ == intersecting@[0],
    {
        self.visible = intersecting[0];
    }

    /// Whether the element is visible.
    pub fn is_visible(&self) -> (b: bool)
        ensures
            b == self@,
    {
        self.visible
    }
}

} // verus!
