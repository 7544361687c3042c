use vstd::prelude::*;

verus! {

/// The about overlay; it holds no state of its own.
pub struct About {}

impl About {
    pub fn id() -> (r: &'static str)
        ensures
            r@ == "About"@,
    {
        "About"
    }

    pub fn new() -> (r: About) {
        About {}
    }
}

} // verus!
