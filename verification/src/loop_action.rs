//! What a component asks of the main loop without going through the channel.

use vstd::prelude::*;

verus! {

/// Requests to the main loop for the time after the current event. The main
/// loop owns it and lends it to a component for one call.
#[derive(Clone, Copy, Debug, PartialEq, Eq, Structural)]
pub struct LoopAction {
    render: bool,
}

impl LoopAction {
    /// Whether another render pass has been asked for.
    pub closed spec fn render_requested(&self) -> bool {
        self.render
    }

    /// Nothing asked for.
    pub fn new() -> (r: LoopAction)
        ensures
            !r.render_requested(),
    {
        LoopAction { render: false }
    }

    /// Asks for another render pass.
    pub fn render(&mut self)
        ensures
            final(self).render_requested(),
    {
        self.render = true;
    }

    /// Whether another render pass has been asked for.
    pub fn is_render_requested(&self) -> (r: bool)
        ensures
            r == self.render_requested(),
    {
        self.render
    }
}

} // verus!
