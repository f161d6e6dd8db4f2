//! Hooks: whether a plugin runs before or after a given command.

use vstd::prelude::*;

verus! {

/// One side of a hook: whether it is on.
pub struct HookPoint {
    enabled: bool,
}

/// Whether a plugin runs before and after a command.
pub struct Hook {
    before: HookPoint,
    after: HookPoint,
}

/// The model of a `Hook`.
pub struct HookView {
    pub before: bool,
    pub after: bool,
}

impl View for HookPoint {
    type V = bool;

    closed spec fn view(&self) -> bool {
        self.enabled
    }
}

impl View for Hook {
    type V = HookView;

    closed spec fn view(&self) -> HookView {
        HookView { before: self.before@, after: self.after@ }
    }
}

impl HookPoint {
    /// A hook side that is on when `enabled`.
    pub fn new(enabled: bool) -> (r: Self)
        ensures
            r@ == enabled,
    {
        HookPoint { enabled }
    }

    /// Whether this side is on.
    pub fn enabled(&self) -> (r: bool)
        ensures
            r == self@,
    {
        self.enabled
    }
}

impl Hook {
    /// A hook with the given sides.
    pub fn new(before: HookPoint, after: HookPoint) -> (r: Self)
        ensures
            r@ == (HookView { before: before@, after: after@ }),
    {
        Hook { before, after }
    }

    /// The side that runs before the command.
    pub fn before(&self) -> (r: &HookPoint)
        ensures
            r@ == self@.before,
    {
        &self.before
    }

    /// The side that runs after the command.
    pub fn after(&self) -> (r: &HookPoint)
        ensures
            r@ == self@.after,
    {
        &self.after
    }
}

} // verus!
