use crate::repaint::Repainter;
use crate::view::View;
use vstd::prelude::*;

verus! {

/// The outcome of one call of a page hook.
pub enum Switch<P, E> {
    /// Keep the current page.
    Continue,
    /// Replace the current page with this one.
    SwitchTo(P),
    /// Abort this tick and show the error until it is acknowledged.
    Failure(E),
}

/// What a page hook is handed for one call.
pub struct UpdateContext<'u, U, S> {
    /// The surface to draw into.
    pub ui: &'u mut U,
    /// The application view.
    pub view: &'u mut View,
    /// The application state.
    pub state: &'u mut S,
    /// An object capable of requesting a repaint.
    pub repainter: &'u Repainter,
}

/// A page capable of being rendered.
///
/// Every hook but `name` defaults to doing nothing and keeping the page.
pub trait Page: Sized {
    /// The surface the host hands to the hooks to draw into.
    type Ui;
    /// The application state shared by all pages.
    type State;
    /// The error a hook may fail with.
    type Error;

    /// The name of the page, used for error reporting and logging; not empty.
    fn name(&self) -> &str;

    /// Called when the page becomes current.
    fn enter(&mut self, _view: &mut View) {
    }

    /// Called when the page stops being current; undoes `enter` if needed.
    fn exit(&mut self, _view: &mut View) {
    }

    /// Called with the error a hook failed with, once the user has
    /// acknowledged it. Failing again here shows the new error in turn.
    fn on_error(&mut self, _err: Self::Error) -> Switch<Self, Self::Error> {
        Switch::Continue
    }

    /// One-time initialisation, one tick after the page became current and
    /// before any render hook; it should not draw.
    fn init(&mut self, _ctx: UpdateContext<'_, Self::Ui, Self::State>) {
    }

    /// The top bar.
    fn top(&mut self, _ctx: UpdateContext<'_, Self::Ui, Self::State>) -> Switch<Self, Self::Error> {
        Switch::Continue
    }

    /// The main content.
    fn render(&mut self, _ctx: UpdateContext<'_, Self::Ui, Self::State>) -> Switch<Self, Self::Error> {
        Switch::Continue
    }

    /// The bottom bar.
    fn bottom(&mut self, _ctx: UpdateContext<'_, Self::Ui, Self::State>) -> Switch<Self, Self::Error> {
        Switch::Continue
    }
}

/// An application: where its pages start, and what it does on shutdown.
pub trait App<P: Page> {
    /// The initial page the application should open.
    fn initial_page(&mut self) -> P;

    /// Called to save state, before `on_exit`.
    fn save(&mut self, _state: &P::State) {
    }

    /// Called on shutdown.
    fn on_exit(&mut self) {
    }
}

} // verus!
