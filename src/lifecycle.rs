//! The record of calls that the control loop makes on pages, and the rules
//! that record obeys.

use vstd::prelude::*;

verus! {

/// A region of the window that a page draws into during a tick.
#[derive(Debug, Clone, Copy, PartialEq, Eq, Structural)]
pub enum Region {
    /// The top bar.
    Top,
    /// The main content.
    Render,
    /// The bottom bar.
    Bottom,
}

impl Region {
    /// Position of the region in the order of a tick: top, render, bottom.
    pub open spec fn rank(self) -> nat {
        match self {
            Region::Top => 0,
            Region::Render => 1,
            Region::Bottom => 2,
        }
    }

    /// Position of the region in the order of a tick.
    pub fn index(&self) -> (r: u8)
        ensures
            r as nat == self.rank(),
    {
        match self {
            Region::Top => 0,
            Region::Render => 1,
            Region::Bottom => 2,
        }
    }
}

/// A hook of a page, or of the application, that the control loop invoked.
pub ghost enum Call {
    /// The page became current.
    Enter,
    /// The page stopped being current.
    Exit,
    /// The page's one-time initialisation.
    Init,
    /// One of the render hooks.
    Paint(Region),
    /// The error hook, after an error was acknowledged.
    Recover,
    /// The application saved its state, at shutdown.
    Save,
    /// The application's exit hook, at shutdown.
    Close,
}

/// A call made on the page of the given activation; activations are numbered
/// from 0 in the order in which pages became current.
pub ghost struct Event {
    pub activation: nat,
    pub call: Call,
}

/// The event of `call` on the page of `activation`.
pub open spec fn ev(activation: nat, call: Call) -> Event {
    Event { activation, call }
}

/// Activation `k` was exited and activation `k + 1` entered right after.
pub open spec fn handed_over(h: Seq<Event>, k: nat) -> bool {
    exists|i: int| 0 <= i && i + 1 < h.len() && #[trigger] h[i] == ev(k, Call::Exit) && h[i + 1] == ev(k + 1, Call::Enter)
}

/// Enter and exit are paired: in a history whose current activation is `cur`,
/// each activation up to `cur` was entered exactly once, before any other call
/// on it; each earlier one was exited exactly once, after every other call on
/// it and right before the next one was entered; the current one was not exited.
pub open spec fn enter_exit_paired(h: Seq<Event>, cur: nat) -> bool {
    &&& forall|i: int| 0 <= i < h.len() ==> #[trigger] h[i].activation <= cur
    &&& forall|k: nat| k <= cur ==> #[trigger] h.contains(ev(k, Call::Enter))
    &&& forall|i: int, j: int|
        0 <= i < h.len() && 0 <= j < h.len() && #[trigger] h[i].call == Call::Enter
            && #[trigger] h[j].activation == h[i].activation ==> i <= j
    &&& forall|k: nat| k < cur ==> #[trigger] handed_over(h, k)
    &&& forall|i: int, j: int|
        0 <= i < h.len() && 0 <= j < h.len() && #[trigger] h[i].call == Call::Exit
            && #[trigger] h[j].activation == h[i].activation ==> j <= i
    &&& forall|i: int| 0 <= i < h.len() && #[trigger] h[i].call == Call::Exit ==> h[i].activation < cur
}

/// The call at `j` has an `Init` of the same activation before it.
pub open spec fn init_before(h: Seq<Event>, j: int) -> bool {
    exists|i: int| 0 <= i < j && h[i] == ev(h[j].activation, Call::Init)
}

/// Init comes first: each activation is initialised at most once, and every
/// render hook call on it comes after its initialisation.
pub open spec fn init_before_paint(h: Seq<Event>) -> bool {
    &&& forall|i: int, j: int|
        0 <= i < h.len() && 0 <= j < h.len() && #[trigger] h[i].call == Call::Init
            && #[trigger] h[j].call == Call::Init && h[i].activation == h[j].activation ==> i == j
    &&& forall|j: int| 0 <= j < h.len() && (#[trigger] h[j].call) is Paint ==> init_before(h, j)
}

/// Activation `k` has been initialised.
pub open spec fn initialised(h: Seq<Event>, k: nat) -> bool {
    h.contains(ev(k, Call::Init))
}

/// A call on the current page other than entering or leaving keeps both rules;
/// an `Init` needs the page not yet initialised, a render hook needs it initialised.
pub(crate) proof fn lemma_push_call(h: Seq<Event>, cur: nat, c: Call)
    requires
        enter_exit_paired(h, cur),
        init_before_paint(h),
        c != Call::Enter,
        c != Call::Exit,
        c == Call::Init ==> !initialised(h, cur),
        c is Paint ==> initialised(h, cur),
    ensures
        enter_exit_paired(h.push(ev(cur, c)), cur),
        init_before_paint(h.push(ev(cur, c))),
        initialised(h.push(ev(cur, c)), cur) == (initialised(h, cur) || c == Call::Init),
{
    lemma_call_paired(h, cur, c);
    lemma_call_init(h, cur, c);
}

proof fn lemma_call_paired(h: Seq<Event>, cur: nat, c: Call)
    requires
        enter_exit_paired(h, cur),
        c != Call::Enter,
        c != Call::Exit,
    ensures
        enter_exit_paired(h.push(ev(cur, c)), cur),
{
    let g = h.push(ev(cur, c));
    let n = h.len() as int;
    assert(g[n] == ev(cur, c));
    assert forall|k: nat| k <= cur implies #[trigger] g.contains(ev(k, Call::Enter)) by {
        assert(h.contains(ev(k, Call::Enter)));
        let i = choose|i: int| 0 <= i < h.len() && h[i] == ev(k, Call::Enter);
        assert(g[i] == h[i]);
    }
    assert forall|k: nat| k < cur implies #[trigger] handed_over(g, k) by {
        assert(handed_over(h, k));
        let i = choose|i: int|
            0 <= i && i + 1 < h.len() && #[trigger] h[i] == ev(k, Call::Exit) && h[i + 1] == ev(k + 1, Call::Enter);
        assert(g[i] == h[i] && g[i + 1] == h[i + 1]);
    }
    assert forall|i: int| 0 <= i < g.len() implies #[trigger] g[i].activation <= cur by {
        if i < n {
            assert(g[i] == h[i]);
        }
    }
    assert forall|i: int, j: int|
        0 <= i < g.len() && 0 <= j < g.len() && #[trigger] g[i].call == Call::Enter
            && #[trigger] g[j].activation == g[i].activation implies i <= j by {
        assert(i < n);
        assert(g[i] == h[i]);
        if j < n {
            assert(g[j] == h[j]);
        }
    }
    assert forall|i: int, j: int|
        0 <= i < g.len() && 0 <= j < g.len() && #[trigger] g[i].call == Call::Exit
            && #[trigger] g[j].activation == g[i].activation implies j <= i by {
        assert(i < n);
        assert(g[i] == h[i]);
        assert(h[i].activation < cur);
        if j < n {
            assert(g[j] == h[j]);
        }
    }
    assert forall|i: int| 0 <= i < g.len() && #[trigger] g[i].call == Call::Exit implies g[i].activation < cur by {
        assert(i < n);
        assert(g[i] == h[i]);
    }
}

proof fn lemma_call_init(h: Seq<Event>, cur: nat, c: Call)
    requires
        init_before_paint(h),
        c == Call::Init ==> !initialised(h, cur),
        c is Paint ==> initialised(h, cur),
    ensures
        init_before_paint(h.push(ev(cur, c))),
        initialised(h.push(ev(cur, c)), cur) == (initialised(h, cur) || c == Call::Init),
{
    let g = h.push(ev(cur, c));
    let n = h.len() as int;
    assert(g[n] == ev(cur, c));
    assert forall|i: int, j: int|
        0 <= i < g.len() && 0 <= j < g.len() && #[trigger] g[i].call == Call::Init
            && #[trigger] g[j].call == Call::Init && g[i].activation == g[j].activation implies i == j by {
        if i < n && j < n {
            assert(g[i] == h[i] && g[j] == h[j]);
        } else if i < n {
            assert(g[i] == h[i]);
            assert(h.contains(ev(cur, Call::Init)));
        } else if j < n {
            assert(g[j] == h[j]);
            assert(h.contains(ev(cur, Call::Init)));
        }
    }
    assert forall|j: int| 0 <= j < g.len() && (#[trigger] g[j].call) is Paint implies init_before(g, j) by {
        if j < n {
            assert(g[j] == h[j]);
            assert(init_before(h, j));
            let i = choose|i: int| 0 <= i < j && h[i] == ev(h[j].activation, Call::Init);
            assert(g[i] == h[i]);
        } else {
            let i = choose|i: int| 0 <= i < h.len() && h[i] == ev(cur, Call::Init);
            assert(g[i] == h[i]);
        }
    }
    if c == Call::Init {
        assert(g.contains(ev(cur, Call::Init)));
    } else {
        if initialised(g, cur) {
            let i = choose|i: int| 0 <= i < g.len() && g[i] == ev(cur, Call::Init);
            assert(i != n);
            assert(h[i] == g[i]);
        }
    }
    if initialised(h, cur) {
        let i = choose|i: int| 0 <= i < h.len() && h[i] == ev(cur, Call::Init);
        assert(g[i] == h[i]);
    }
}

/// Leaving the current page and entering the next keeps both rules, with the
/// new page not yet initialised.
pub(crate) proof fn lemma_push_switch(h: Seq<Event>, cur: nat)
    requires
        enter_exit_paired(h, cur),
        init_before_paint(h),
    ensures
        enter_exit_paired(h.push(ev(cur, Call::Exit)).push(ev(cur + 1, Call::Enter)), cur + 1),
        init_before_paint(h.push(ev(cur, Call::Exit)).push(ev(cur + 1, Call::Enter))),
        !initialised(h.push(ev(cur, Call::Exit)).push(ev(cur + 1, Call::Enter)), cur + 1),
{
    lemma_switch_entered(h, cur);
    lemma_switch_order(h, cur);
    lemma_switch_init(h, cur);
}

proof fn lemma_switch_entered(h: Seq<Event>, cur: nat)
    requires
        enter_exit_paired(h, cur),
    ensures
        ({
            let g = h.push(ev(cur, Call::Exit)).push(ev(cur + 1, Call::Enter));
            &&& forall|i: int| 0 <= i < g.len() ==> #[trigger] g[i].activation <= cur + 1
            &&& forall|k: nat| k <= cur + 1 ==> #[trigger] g.contains(ev(k, Call::Enter))
            &&& forall|k: nat| k < cur + 1 ==> #[trigger] handed_over(g, k)
            &&& forall|i: int| 0 <= i < g.len() && #[trigger] g[i].call == Call::Exit ==> g[i].activation < cur + 1
        }),
{
    let g = h.push(ev(cur, Call::Exit)).push(ev(cur + 1, Call::Enter));
    let n = h.len() as int;
    assert(g[n] == ev(cur, Call::Exit));
    assert(g[n + 1] == ev(cur + 1, Call::Enter));
    assert forall|i: int| 0 <= i < h.len() implies g[i] == h[i] by {}
    assert forall|k: nat| k <= cur + 1 implies #[trigger] g.contains(ev(k, Call::Enter)) by {
        if k <= cur {
            assert(h.contains(ev(k, Call::Enter)));
            let i = choose|i: int| 0 <= i < h.len() && h[i] == ev(k, Call::Enter);
            assert(g[i] == h[i]);
        } else {
            assert(g[n + 1] == ev(k, Call::Enter));
        }
    }
    assert forall|k: nat| k < cur + 1 implies #[trigger] handed_over(g, k) by {
        if k < cur {
            assert(handed_over(h, k));
            let i = choose|i: int|
                0 <= i && i + 1 < h.len() && #[trigger] h[i] == ev(k, Call::Exit) && h[i + 1] == ev(k + 1, Call::Enter);
            assert(g[i] == h[i] && g[i + 1] == h[i + 1]);
        } else {
            assert(g[n] == ev(k, Call::Exit) && g[n + 1] == ev(k + 1, Call::Enter));
        }
    }
    assert forall|i: int| 0 <= i < g.len() && #[trigger] g[i].call == Call::Exit implies g[i].activation < cur + 1 by {
        if i < n {
            assert(g[i] == h[i]);
        }
    }
}

proof fn lemma_switch_order(h: Seq<Event>, cur: nat)
    requires
        enter_exit_paired(h, cur),
    ensures
        ({
            let g = h.push(ev(cur, Call::Exit)).push(ev(cur + 1, Call::Enter));
            &&& forall|i: int, j: int|
                0 <= i < g.len() && 0 <= j < g.len() && #[trigger] g[i].call == Call::Enter
                    && #[trigger] g[j].activation == g[i].activation ==> i <= j
            &&& forall|i: int, j: int|
                0 <= i < g.len() && 0 <= j < g.len() && #[trigger] g[i].call == Call::Exit
                    && #[trigger] g[j].activation == g[i].activation ==> j <= i
        }),
{
    let g = h.push(ev(cur, Call::Exit)).push(ev(cur + 1, Call::Enter));
    let n = h.len() as int;
    assert(g[n] == ev(cur, Call::Exit));
    assert(g[n + 1] == ev(cur + 1, Call::Enter));
    assert forall|i: int, j: int|
        0 <= i < g.len() && 0 <= j < g.len() && #[trigger] g[i].call == Call::Enter
            && #[trigger] g[j].activation == g[i].activation implies i <= j by {
        if i < n {
            assert(g[i] == h[i]);
            if j < n {
                assert(g[j] == h[j]);
            }
        } else if j < n {
            assert(g[j] == h[j]);
            assert(h[j].activation <= cur);
        }
    }
    assert forall|i: int, j: int|
        0 <= i < g.len() && 0 <= j < g.len() && #[trigger] g[i].call == Call::Exit
            && #[trigger] g[j].activation == g[i].activation implies j <= i by {
        if i < n {
            assert(g[i] == h[i]);
            assert(h[i].activation < cur);
            if j < n {
                assert(g[j] == h[j]);
            }
        } else if j < n {
            assert(g[j] == h[j]);
        }
    }
}

proof fn lemma_switch_init(h: Seq<Event>, cur: nat)
    requires
        enter_exit_paired(h, cur),
        init_before_paint(h),
    ensures
        init_before_paint(h.push(ev(cur, Call::Exit)).push(ev(cur + 1, Call::Enter))),
        !initialised(h.push(ev(cur, Call::Exit)).push(ev(cur + 1, Call::Enter)), cur + 1),
{
    let g = h.push(ev(cur, Call::Exit)).push(ev(cur + 1, Call::Enter));
    let n = h.len() as int;
    assert(g[n] == ev(cur, Call::Exit));
    assert(g[n + 1] == ev(cur + 1, Call::Enter));
    assert forall|i: int, j: int|
        0 <= i < g.len() && 0 <= j < g.len() && #[trigger] g[i].call == Call::Init
            && #[trigger] g[j].call == Call::Init && g[i].activation == g[j].activation implies i == j by {
        assert(i < n && j < n);
        assert(g[i] == h[i] && g[j] == h[j]);
    }
    assert forall|j: int| 0 <= j < g.len() && (#[trigger] g[j].call) is Paint implies init_before(g, j) by {
        assert(j < n);
        assert(g[j] == h[j]);
        assert(init_before(h, j));
        let i = choose|i: int| 0 <= i < j && h[i] == ev(h[j].activation, Call::Init);
        assert(g[i] == h[i]);
    }
    if initialised(g, cur + 1) {
        let i = choose|i: int| 0 <= i < g.len() && g[i] == ev(cur + 1, Call::Init);
        assert(i < n);
        assert(g[i] == h[i]);
        assert(h[i].activation <= cur);
    }
}

} // verus!
