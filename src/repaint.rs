use vstd::prelude::*;

verus! {

#[verifier::external_type_specification]
#[verifier::external_body]
pub struct ExContext(eframe::egui::Context);

/// A thread-safe handle that schedules a redraw of the user interface.
pub struct Repainter {
    ctx: eframe::egui::Context,
    /// How many repaints this handle has requested through `request`.
    requests: Ghost<nat>,
}

/// Relies on egui's `Context::request_repaint`: marks the context as needing a
/// redraw and wakes the integration; calls before the redraw coalesce.
#[verifier::external_body]
fn context_request_repaint(ctx: &eframe::egui::Context) {
    ctx.request_repaint();
}

/// Relies on egui's `Context::clone`, derived over an `Arc`: a second handle
/// to the same shared context.
#[verifier::external_body]
fn context_clone(ctx: &eframe::egui::Context) -> (r: eframe::egui::Context)
    ensures
        r == *ctx,
{
    ctx.clone()
}

impl Repainter {
    /// The repainter that wakes `ctx`.
    pub closed spec fn new_spec(ctx: eframe::egui::Context) -> Repainter {
        Repainter { ctx, requests: Ghost(0) }
    }

    /// The render context this handle wakes.
    pub closed spec fn target(&self) -> eframe::egui::Context {
        self.ctx
    }

    /// How many repaints this handle has requested through `request`.
    pub closed spec fn requests(&self) -> nat {
        self.requests@
    }

    /// A repainter that wakes the given render context.
    pub fn new(ctx: eframe::egui::Context) -> (r: Self)
        ensures
            r == Repainter::new_spec(ctx),
    {
        Repainter { ctx, requests: Ghost(0) }
    }

    /// Request a repaint from the renderer.
    pub fn request_repaint(&self) {
        context_request_repaint(&self.ctx);
    }

    /// Request a repaint from the renderer, counting the request.
    pub fn request(&mut self)
        ensures
            final(self).requests() == old(self).requests() + 1,
            final(self).target() == old(self).target(),
    {
        context_request_repaint(&self.ctx);
        self.requests = Ghost(self.requests@ + 1);
    }
}

impl Clone for Repainter {
    /// A second handle that wakes the same render context.
    fn clone(&self) -> (r: Self)
        ensures
            r == *self,
    {
        Repainter { ctx: context_clone(&self.ctx), requests: Ghost(self.requests@) }
    }
}

impl From<eframe::egui::Context> for Repainter {
    fn from(ctx: eframe::egui::Context) -> Self {
        Repainter::new(ctx)
    }
}

impl vstd::std_specs::convert::FromSpecImpl<eframe::egui::Context> for Repainter {
    open spec fn obeys_from_spec() -> bool {
        true
    }

    open spec fn from_spec(ctx: eframe::egui::Context) -> Self {
        Repainter::new_spec(ctx)
    }
}

} // verus!
