//! The scene shown when the game data cannot be loaded.
use vstd::prelude::*;

verus! {

/// Shows why the game data failed to load; on Android the platform shows it
/// once, natively.
#[derive(Clone, Debug, PartialEq, Eq)]
pub struct NoDataScene {
    pub shown: bool,
    pub err: String,
}

impl NoDataScene {
    /// The scene for the load error described by `err`.
    pub fn new(err: String) -> (r: NoDataScene)
        ensures
            r.err@ == err@,
            !r.shown,
    {
        NoDataScene { shown: false, err }
    }

    /// One tick: whether the error is to be shown by the platform now, which
    /// is on the first tick only.
    pub fn tick(&mut self) -> (show: bool)
        ensures
            show == !old(self).shown,
            final(self).shown,
            final(self).err@ == old(self).err@,
    {
        if !self.shown {
            self.shown = true;
            return true;
        }
        false
    }
}

} // verus!
