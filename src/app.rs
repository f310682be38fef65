//! The frame-loop driver: which hooks of the current page run in a tick, and
//! how their outcomes move the application from page to page.

use crate::lifecycle::{
    enter_exit_paired, ev, init_before_paint, initialised, lemma_push_call, lemma_push_switch, Call, Event,
    Region,
};
use crate::page::{App, Page, Switch, UpdateContext};
use crate::repaint::Repainter;
use crate::view::View;
use vstd::prelude::*;

verus! {

/// What the current tick does.
#[derive(Debug, Clone, Copy, PartialEq, Eq, Structural)]
pub enum Phase {
    /// An error is pending: only its acknowledgment is shown.
    Acknowledge,
    /// The current page runs its one-time initialisation, and nothing else.
    Init,
    /// The render hooks run, in the order top, render, bottom.
    Paint,
    /// Nothing more happens until the next tick.
    Done,
}

/// Whether the view lets `region` be drawn.
pub open spec fn region_shown(view: View, region: Region) -> bool {
    match region {
        Region::Top => view.top(),
        Region::Render => true,
        Region::Bottom => view.bottom(),
    }
}

/// The control loop: the current page, the view, an optional pending error and
/// the application state, driven one tick at a time by the host.
pub struct Application<A, P: Page> {
    app: A,
    page: P,
    /// Whether `init` has run for the current page.
    init: bool,
    view: View,
    error: Option<P::Error>,
    state: P::State,
    repainter: Repainter,
    phase: Phase,
    /// Regions ranked below this have had their turn in this tick.
    next_region: u8,
    /// Every call made on a page, in order.
    history: Ghost<Seq<Event>>,
    /// The activation number of the current page.
    activation: Ghost<nat>,
    /// The value the current page had when it was handed to `enter`.
    entered: Ghost<P>,
}

impl<A: App<P>, P: Page> Application<A, P> {
    /// Every call made on a page so far, in order.
    pub closed spec fn history(&self) -> Seq<Event> {
        self.history@
    }

    /// The activation number of the current page: how many switches happened.
    pub closed spec fn activation(&self) -> nat {
        self.activation@
    }

    /// Whether the current page has been initialised.
    pub closed spec fn initialized(&self) -> bool {
        self.init
    }

    /// The error waiting to be acknowledged.
    pub closed spec fn pending(&self) -> Option<P::Error> {
        self.error
    }

    /// What the rest of the current tick does.
    pub closed spec fn phase(&self) -> Phase {
        self.phase
    }

    /// Regions ranked below this have had their turn in this tick.
    pub closed spec fn next_region(&self) -> nat {
        self.next_region as nat
    }

    /// The view.
    pub closed spec fn spec_view(&self) -> View {
        self.view
    }

    /// The current page.
    pub closed spec fn spec_page(&self) -> P {
        self.page
    }

    /// The application state.
    pub closed spec fn spec_state(&self) -> P::State {
        self.state
    }

    /// The value the current page had when it was handed to its `enter` hook.
    pub closed spec fn spec_entered(&self) -> P {
        self.entered@
    }

    /// How many repaints the loop has requested.
    pub closed spec fn repaints(&self) -> nat {
        self.repainter.requests()
    }

    /// The loop's invariant.
    pub closed spec fn wf(&self) -> bool {
        &&& enter_exit_paired(self.history@, self.activation@)
        &&& init_before_paint(self.history@)
        &&& self.init == initialised(self.history@, self.activation@)
        &&& !self.init ==> self.error is None
        &&& self.next_region <= 3
        &&& self.phase == Phase::Paint ==> self.init && self.error is None
        &&& self.phase == Phase::Init ==> !self.init && self.error is None
        &&& self.phase == Phase::Acknowledge ==> self.error is Some
    }

    /// Whether `paint(region, ..)` calls a hook now: the tick paints, the
    /// region's turn has not passed, and the view shows it.
    pub open spec fn paints(&self, region: Region) -> bool {
        &&& self.phase() == Phase::Paint
        &&& self.next_region() <= region.rank()
        &&& region_shown(self.spec_view(), region)
    }

    /// `self` is what a hook outcome made of a loop whose history had become
    /// `h` at activation `a`, with the tick in phase `ph` and `r` repaints
    /// requested: the page kept; or the next page entered after the current one
    /// exited, and a repaint requested; or an error pending.
    pub open spec fn settled(&self, h: Seq<Event>, a: nat, ph: Phase, r: nat) -> bool {
        ||| {
            &&& self.history() == h
            &&& self.activation() == a
            &&& self.initialized()
            &&& self.pending() is None
            &&& self.phase() == ph
            &&& self.repaints() == r
        }
        ||| {
            &&& self.history() == h.push(ev(a, Call::Exit)).push(ev(a + 1, Call::Enter))
            &&& self.activation() == a + 1
            &&& !self.initialized()
            &&& self.pending() is None
            &&& self.phase() == Phase::Done
            &&& self.repaints() == r + 1
        }
        ||| {
            &&& self.history() == h
            &&& self.activation() == a
            &&& self.initialized()
            &&& self.pending() is Some
            &&& self.phase() == Phase::Done
            &&& self.repaints() == r
        }
    }

    /// Start the loop: the application's initial page is created and entered.
    pub fn start(app: A, view: View, state: P::State, repainter: Repainter) -> (r: Self)
        ensures
            r.wf(),
            r.history() == seq![ev(0, Call::Enter)],
            r.activation() == 0,
            !r.initialized(),
            r.pending() is None,
            r.phase() == Phase::Done,
            r.spec_state() == state,
            r.repaints() == repainter.requests(),
    {
        let mut app = app;
        let mut view = view;
        let mut page = app.initial_page();
        let ghost first = page;
        page.enter(&mut view);
        let ghost h = seq![ev(0, Call::Enter)];
        assert(h[0] == ev(0, Call::Enter));
        assert(h.contains(ev(0, Call::Enter)));
        assert(!initialised(h, 0));
        Application {
            app,
            page,
            init: false,
            view,
            error: None,
            state,
            repainter,
            phase: Phase::Done,
            next_region: 0,
            history: Ghost(h),
            activation: Ghost(0),
            entered: Ghost(first),
        }
    }

    /// Apply a hook outcome: keep the page; or exit it, enter the next one,
    /// mark it uninitialised and request a repaint; or hold the error.
    fn process(&mut self, switch: Switch<P, P::Error>)
        requires
            old(self).wf(),
            old(self).initialized(),
            old(self).pending() is None,
        ensures
            final(self).wf(),
            final(self).next_region() == old(self).next_region(),
            final(self).spec_state() == old(self).spec_state(),
            match switch {
                Switch::Continue => {
                    &&& final(self).repaints() == old(self).repaints()
                    &&& final(self).spec_view() == old(self).spec_view()
                    &&& final(self).spec_state() == old(self).spec_state()
                    &&& final(self).spec_page() == old(self).spec_page()
                    &&& final(self).history() == old(self).history()
                    &&& final(self).activation() == old(self).activation()
                    &&& final(self).initialized()
                    &&& final(self).pending() is None
                    &&& final(self).phase() == old(self).phase()
                },
                Switch::SwitchTo(next) => {
                    let a = old(self).activation();
                    &&& final(self).spec_entered() == next
                    &&& final(self).repaints() == old(self).repaints() + 1
                    &&& final(self).history() == old(self).history().push(ev(a, Call::Exit)).push(
                        ev(a + 1, Call::Enter),
                    )
                    &&& final(self).activation() == a + 1
                    &&& !final(self).initialized()
                    &&& final(self).pending() is None
                    &&& final(self).phase() == Phase::Done
                },
                Switch::Failure(e) => {
                    &&& final(self).spec_view() == old(self).spec_view()
                    &&& final(self).spec_page() == old(self).spec_page()
                    &&& final(self).repaints() == old(self).repaints()
                    &&& final(self).history() == old(self).history()
                    &&& final(self).activation() == old(self).activation()
                    &&& final(self).initialized()
                    &&& final(self).pending() == Some(e)
                    &&& final(self).phase() == Phase::Done
                },
            },
    {
        match switch {
            Switch::Continue => {},
            Switch::SwitchTo(next) => {
                self.page.exit(&mut self.view);
                self.page = next;
                self.entered = Ghost(self.page);
                self.page.enter(&mut self.view);
                proof {
                    lemma_push_switch(self.history@, self.activation@);
                }
                self.history = Ghost(
                    self.history@.push(ev(self.activation@, Call::Exit)).push(
                        ev(self.activation@ + 1, Call::Enter),
                    ),
                );
                self.activation = Ghost(self.activation@ + 1);
                self.init = false;
                self.phase = Phase::Done;
                self.repainter.request();
            },
            Switch::Failure(err) => {
                self.error = Some(err);
                self.phase = Phase::Done;
            },
        }
    }

    /// Begin a tick: a pending error pre-empts everything; a page that has not
    /// been initialised is initialised and not drawn; otherwise the render
    /// hooks run.
    pub fn begin_tick(&mut self) -> (r: Phase)
        requires
            old(self).wf(),
        ensures
            final(self).wf(),
            r == final(self).phase(),
            r == (if old(self).pending() is Some {
                Phase::Acknowledge
            } else if !old(self).initialized() {
                Phase::Init
            } else {
                Phase::Paint
            }),
            final(self).next_region() == 0,
            final(self).history() == old(self).history(),
            final(self).activation() == old(self).activation(),
            final(self).initialized() == old(self).initialized(),
            final(self).pending() == old(self).pending(),
            final(self).spec_view() == old(self).spec_view(),
            final(self).spec_state() == old(self).spec_state(),
            final(self).spec_page() == old(self).spec_page(),
            final(self).repaints() == old(self).repaints(),
    {
        let phase = if self.error.is_some() {
            Phase::Acknowledge
        } else if !self.init {
            Phase::Init
        } else {
            Phase::Paint
        };
        self.phase = phase;
        self.next_region = 0;
        phase
    }

    /// The user acknowledged the pending error: clear it, hand it to the
    /// page's error hook and apply the outcome. Does nothing unless the tick
    /// shows an acknowledgment.
    pub fn acknowledge(&mut self)
        requires
            old(self).wf(),
        ensures
            final(self).wf(),
            old(self).phase() != Phase::Acknowledge ==> *final(self) == *old(self),
            final(self).spec_state() == old(self).spec_state(),
            old(self).phase() == Phase::Acknowledge ==> final(self).settled(
                old(self).history().push(ev(old(self).activation(), Call::Recover)),
                old(self).activation(),
                Phase::Done,
                old(self).repaints(),
            ),
    {
        if self.phase != Phase::Acknowledge {
            return;
        }
        let taken = self.error.take();
        match taken {
            Some(err) => {
                proof {
                    lemma_push_call(self.history@, self.activation@, Call::Recover);
                }
                self.history = Ghost(self.history@.push(ev(self.activation@, Call::Recover)));
                self.phase = Phase::Done;
                let switch = self.page.on_error(err);
                self.process(switch);
            },
            None => {},
        }
    }

    /// Run the current page's one-time initialisation. Does nothing unless
    /// the tick initialises.
    pub fn init_page(&mut self, ui: &mut P::Ui)
        requires
            old(self).wf(),
        ensures
            final(self).wf(),
            old(self).phase() != Phase::Init ==> *final(self) == *old(self),
            old(self).phase() == Phase::Init ==> {
                &&& final(self).history() == old(self).history().push(ev(old(self).activation(), Call::Init))
                &&& final(self).activation() == old(self).activation()
                &&& final(self).initialized()
                &&& final(self).pending() is None
                &&& final(self).phase() == Phase::Done
                &&& final(self).repaints() == old(self).repaints()
            },
    {
        if self.phase != Phase::Init {
            return;
        }
        proof {
            lemma_push_call(self.history@, self.activation@, Call::Init);
        }
        self.history = Ghost(self.history@.push(ev(self.activation@, Call::Init)));
        self.init = true;
        self.phase = Phase::Done;
        let ctx = UpdateContext { ui, view: &mut self.view, state: &mut self.state, repainter: &self.repainter };
        self.page.init(ctx);
    }

    /// Run the render hook of `region` and apply its outcome. Does nothing
    /// unless the tick paints, the region's turn (top, render, bottom) has not
    /// passed and the view shows it. Returns whether the tick still paints: a
    /// switch or a failure ends it.
    pub fn paint(&mut self, region: Region, ui: &mut P::Ui) -> (more: bool)
        requires
            old(self).wf(),
        ensures
            final(self).wf(),
            more == (final(self).phase() == Phase::Paint),
            !old(self).paints(region) ==> *final(self) == *old(self),
            old(self).paints(region) ==> {
                &&& final(self).next_region() == region.rank() + 1
                &&& final(self).settled(
                    old(self).history().push(ev(old(self).activation(), Call::Paint(region))),
                    old(self).activation(),
                    Phase::Paint,
                    old(self).repaints(),
                )
            },
    {
        let shown = match region {
            Region::Top => self.view.top_enabled(),
            Region::Render => true,
            Region::Bottom => self.view.bottom_enabled(),
        };
        let rank = region.index();
        if self.phase != Phase::Paint || rank < self.next_region || !shown {
            return self.phase == Phase::Paint;
        }
        proof {
            lemma_push_call(self.history@, self.activation@, Call::Paint(region));
        }
        self.history = Ghost(self.history@.push(ev(self.activation@, Call::Paint(region))));
        self.next_region = rank + 1;
        let ctx = UpdateContext { ui, view: &mut self.view, state: &mut self.state, repainter: &self.repainter };
        let switch = match region {
            Region::Top => self.page.top(ctx),
            Region::Render => self.page.render(ctx),
            Region::Bottom => self.page.bottom(ctx),
        };
        self.process(switch);
        self.phase == Phase::Paint
    }

    /// The view.
    pub fn view(&self) -> (r: &View)
        ensures
            *r == self.spec_view(),
    {
        &self.view
    }

    /// The current page.
    pub fn page(&self) -> &P {
        &self.page
    }

    /// The application state.
    pub fn state(&self) -> &P::State {
        &self.state
    }

    /// The repainter the loop requests redraws through.
    pub fn repainter(&self) -> &Repainter {
        &self.repainter
    }

    /// The error waiting to be acknowledged.
    pub fn error(&self) -> (r: Option<&P::Error>)
        ensures
            r is Some == self.pending() is Some,
            r is Some ==> *r->0 == self.pending()->0,
    {
        self.error.as_ref()
    }

    /// Shut down: the application saves its state, then runs its exit hook;
    /// no page hook runs and the state, the view and the page stay as they are.
    pub fn shutdown(&mut self)
        requires
            old(self).wf(),
        ensures
            final(self).wf(),
            final(self).history() == old(self).history().push(ev(old(self).activation(), Call::Save)).push(
                ev(old(self).activation(), Call::Close),
            ),
            final(self).activation() == old(self).activation(),
            final(self).phase() == old(self).phase(),
            final(self).spec_state() == old(self).spec_state(),
            final(self).spec_view() == old(self).spec_view(),
            final(self).spec_page() == old(self).spec_page(),
            final(self).pending() == old(self).pending(),
            final(self).initialized() == old(self).initialized(),
            final(self).repaints() == old(self).repaints(),
    {
        proof {
            lemma_push_call(self.history@, self.activation@, Call::Save);
        }
        self.history = Ghost(self.history@.push(ev(self.activation@, Call::Save)));
        self.app.save(&self.state);
        proof {
            lemma_push_call(self.history@, self.activation@, Call::Close);
        }
        self.history = Ghost(self.history@.push(ev(self.activation@, Call::Close)));
        self.app.on_exit();
    }

    /// Enter and exit are strictly paired, whatever outcomes the hooks
    /// returned: every page made current was entered exactly once, before any
    /// other call on it, and every page replaced was exited exactly once, after
    /// every other call on it and right before its successor was entered,
    /// also where an error hook asked for the switch.
    pub proof fn lemma_enter_exit_paired(&self)
        requires
            self.wf(),
        ensures
            enter_exit_paired(self.history(), self.activation()),
    {
    }

    /// Init runs at most once per activation and strictly before the first
    /// render hook of that activation; a page that has not been initialised
    /// has no error pending, so the next tick initialises it.
    pub proof fn lemma_init_before_paint(&self)
        requires
            self.wf(),
        ensures
            init_before_paint(self.history()),
            self.initialized() == initialised(self.history(), self.activation()),
            !self.initialized() ==> self.pending() is None,
    {
    }
}

} // verus!
