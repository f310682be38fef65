//! Reporting how far a background iteration has got to the page that waits
//! for it.

use crate::repaint::Repainter;
use vstd::prelude::*;

verus! {

#[verifier::external_type_specification]
#[verifier::external_body]
#[verifier::reject_recursive_types(T)]
pub struct ExSender<T>(std::sync::mpsc::Sender<T>);

#[verifier::external_type_specification]
#[verifier::external_body]
#[verifier::reject_recursive_types(T)]
pub struct ExReceiver<T>(std::sync::mpsc::Receiver<T>);

#[verifier::external_type_specification]
#[verifier::external_body]
pub struct ExSpinner(eframe::egui::Spinner);

/// Relies on `std::sync::mpsc::channel`: a new unbounded channel, its sending
/// and its receiving end.
#[verifier::external_body]
fn channel<T>() -> (std::sync::mpsc::Sender<T>, std::sync::mpsc::Receiver<T>) {
    std::sync::mpsc::channel()
}

/// Relies on `std::sync::mpsc::Sender::send`: queues the value unless the
/// receiving end is gone; reports whether it was queued.
#[verifier::external_body]
fn send<T>(sender: &std::sync::mpsc::Sender<T>, value: T) -> bool {
    sender.send(value).is_ok()
}

/// Relies on `std::sync::mpsc::Receiver::try_iter`: takes, without blocking,
/// the values queued so far, oldest first.
#[verifier::external_body]
fn take_queued<T>(receiver: &std::sync::mpsc::Receiver<T>) -> Vec<T> {
    receiver.try_iter().collect()
}

/// Relies on egui's `Spinner::new`: a spinner widget of default size.
#[verifier::external_body]
fn new_spinner() -> eframe::egui::Spinner {
    eframe::egui::Spinner::new()
}

/// A completion fraction `done / total`, never outside `[0, 1]`.
#[derive(Debug, Clone, Copy, PartialEq, Eq, Structural)]
pub struct Progress {
    done: usize,
    total: usize,
}

/// The fraction reported before an element is taken from a sequence of known
/// `length` with `remaining` elements left, as `(done, total)`; none where the
/// length is unknown (zero).
pub open spec fn position(length: nat, remaining: nat) -> Option<(nat, nat)> {
    if length == 0 {
        None
    } else if remaining >= length {
        Some((0, length))
    } else {
        Some(((length - remaining) as nat, length))
    }
}

impl Progress {
    #[verifier::type_invariant]
    spec fn bounded(self) -> bool {
        self.done <= self.total && self.total > 0
    }

    /// The numerator.
    pub closed spec fn spec_done(&self) -> usize {
        self.done
    }

    /// The denominator.
    pub closed spec fn spec_total(&self) -> usize {
        self.total
    }

    /// The fraction is one.
    pub open spec fn spec_is_complete(&self) -> bool {
        self.spec_done() == self.spec_total()
    }

    /// The fraction `done / total`; none unless `0 <= done <= total` and `total > 0`.
    pub fn new(done: usize, total: usize) -> (r: Option<Progress>)
        ensures
            r is Some == (done <= total && total > 0),
            r matches Some(p) ==> p.spec_done() == done && p.spec_total() == total,
    {
        if done <= total && total > 0 {
            Some(Progress { done, total })
        } else {
            None
        }
    }

    /// Nothing done yet: `0 / 1`.
    pub fn zero() -> (r: Progress)
        ensures
            r.spec_done() == 0,
            r.spec_total() == 1,
    {
        Progress { done: 0, total: 1 }
    }

    /// The numerator.
    #[verifier::when_used_as_spec(spec_done)]
    pub fn done(&self) -> (r: usize)
        ensures
            r == self.spec_done(),
            r <= self.spec_total(),
    {
        proof {
            use_type_invariant(self);
        }
        self.done
    }

    /// The denominator, never zero.
    #[verifier::when_used_as_spec(spec_total)]
    pub fn total(&self) -> (r: usize)
        ensures
            r == self.spec_total(),
            r > 0,
    {
        proof {
            use_type_invariant(self);
        }
        self.total
    }

    /// Whether the fraction is one.
    #[verifier::when_used_as_spec(spec_is_complete)]
    pub fn is_complete(&self) -> (r: bool)
        ensures
            r == self.spec_is_complete(),
    {
        self.done == self.total
    }

    /// The fraction reported before an element is taken from a sequence of
    /// known `length` with `remaining` elements left.
    pub fn position(length: usize, remaining: usize) -> (r: Option<Progress>)
        ensures
            r is Some == position(length as nat, remaining as nat) is Some,
            r matches Some(p) ==> (p.spec_done() as nat, p.spec_total() as nat) == position(
                length as nat,
                remaining as nat,
            )->0,
    {
        if length == 0 {
            None
        } else if remaining >= length {
            Some(Progress { done: 0, total: length })
        } else {
            Some(Progress { done: length - remaining, total: length })
        }
    }

    /// Before element `k` of a sequence of known length `n`, with `n - k`
    /// elements left, the fraction reported is `k / n`; once the sequence is
    /// exhausted it is `n / n`. No reported fraction lies outside `[0, 1]`.
    pub proof fn lemma_fraction_before_element(n: nat, k: nat)
        requires
            0 < n,
            k <= n,
        ensures
            position(n, (n - k) as nat) == Some((k, n)),
            forall|rem: nat| #[trigger]
                position(n, rem) matches Some((d, t)) ==> d <= t && t == n && t > 0,
    {
    }
}

/// The consumer's end: the latest fraction observed from a background
/// iteration, shown as a progress bar or a spinner.
pub struct ProgressUi {
    repainter: Repainter,
    progress: Progress,
    update: std::sync::mpsc::Receiver<Progress>,
}

/// The producer's end, handed to the background iteration.
pub struct ProgressAdapter(std::sync::mpsc::Sender<Progress>);

/// Create a matching `ProgressUi` and `ProgressAdapter`; nothing is observed
/// yet, so the fraction is zero.
pub fn create(repainter: &Repainter) -> (r: (ProgressUi, ProgressAdapter))
    ensures
        r.0.spec_repainter() == *repainter,
        r.0.latest().spec_done() == 0,
        r.0.latest().spec_total() == 1,
{
    let (sender, receiver) = channel::<Progress>();
    (ProgressUi { repainter: repainter.clone(), progress: Progress::zero(), update: receiver }, ProgressAdapter(sender))
}

impl ProgressUi {
    /// The fraction observed last.
    pub closed spec fn latest(&self) -> Progress {
        self.progress
    }

    /// The handle that wakes the frame loop.
    pub closed spec fn spec_repainter(&self) -> Repainter {
        self.repainter
    }

    /// How many repaints this end has requested.
    pub open spec fn repaints(&self) -> nat {
        self.spec_repainter().requests()
    }

    /// The newest of the fractions that `arrived`, oldest first; `current`
    /// where none did.
    pub fn newest(current: Progress, arrived: &Vec<Progress>) -> (r: Progress)
        ensures
            r == (if arrived@.len() == 0 {
                current
            } else {
                arrived@.last()
            }),
    {
        if arrived.len() == 0 {
            current
        } else {
            arrived[arrived.len() - 1]
        }
    }

    /// Request a repaint, so that the frame loop keeps ticking while the
    /// iteration runs, and take the newest fraction that arrived.
    fn update_progress(&mut self)
        ensures
            final(self).repaints() == old(self).repaints() + 1,
            final(self).spec_repainter().target() == old(self).spec_repainter().target(),
    {
        self.repainter.request();
        let arrived = take_queued(&self.update);
        self.progress = ProgressUi::newest(self.progress, &arrived);
    }

    /// The fraction to show as a progress bar; it stays at one once complete,
    /// and no longer reads the channel then.
    pub fn cbar(&mut self) -> (r: Progress)
        ensures
            r == final(self).latest(),
            old(self).latest().is_complete() ==> final(self).latest() == old(self).latest()
                && final(self).repaints() == old(self).repaints(),
            !old(self).latest().is_complete() ==> final(self).repaints() == old(self).repaints() + 1,
    {
        if !self.progress.is_complete() {
            self.update_progress();
        }
        self.progress
    }

    /// The fraction to show as a progress bar, after taking the newest that
    /// arrived; none once complete.
    pub fn bar(&mut self) -> (r: Option<Progress>)
        ensures
            r == (if final(self).latest().is_complete() {
                None
            } else {
                Some(final(self).latest())
            }),
            final(self).repaints() == old(self).repaints() + 1,
    {
        self.update_progress();
        if self.progress.is_complete() {
            None
        } else {
            Some(self.progress)
        }
    }

    /// A spinner, after taking the newest fraction that arrived; none once
    /// complete.
    pub fn spinner(&mut self) -> (r: Option<eframe::egui::Spinner>)
        ensures
            r is None == final(self).latest().is_complete(),
            final(self).repaints() == old(self).repaints() + 1,
    {
        self.update_progress();
        if self.progress.is_complete() {
            None
        } else {
            Some(new_spinner())
        }
    }

    /// Whether the newest fraction observed, after taking what arrived, is one.
    pub fn complete(&mut self) -> (r: bool)
        ensures
            r == final(self).latest().is_complete(),
            final(self).repaints() == old(self).repaints() + 1,
    {
        self.update_progress();
        self.progress.is_complete()
    }
}

/// A sequence of known length whose position is sent to a `ProgressUi`
/// before each element is taken.
pub struct ProgressView<I> {
    length: usize,
    inner: I,
    update: std::sync::mpsc::Sender<Progress>,
}

impl<I> ProgressView<I> {
    /// The length of the sequence; zero where it is unknown.
    pub closed spec fn spec_length(&self) -> nat {
        self.length as nat
    }

    /// The wrapped sequence.
    pub closed spec fn spec_inner(&self) -> I {
        self.inner
    }

    /// Bind `adapter` to `inner`, whose upper bound on its length is `upper`;
    /// without one, no fraction is ever sent.
    pub fn new(inner: I, upper: Option<usize>, adapter: ProgressAdapter) -> (r: Self)
        ensures
            r.spec_length() == match upper {
                Some(n) => n as nat,
                None => 0,
            },
            r.spec_inner() == inner,
    {
        let length = match upper {
            Some(n) => n,
            None => 0,
        };
        ProgressView { length, inner, update: adapter.0 }
    }

    /// The length of the sequence; zero where it is unknown.
    pub fn length(&self) -> (r: usize)
        ensures
            r == self.spec_length(),
    {
        self.length
    }

    /// The wrapped sequence, to take the next element from.
    pub fn inner_mut(&mut self) -> (r: &mut I)
        ensures
            *r == old(self).spec_inner(),
            final(self).spec_inner() == *final(r),
            final(self).spec_length() == old(self).spec_length(),
    {
        &mut self.inner
    }

    /// Send the position before the next element is taken, `remaining`
    /// elements being left. Returns the fraction sent, none where the length
    /// is unknown, and whether it was queued: it is not once the receiving
    /// end is gone, which is harmless.
    pub fn report(&self, remaining: usize) -> (r: (Option<Progress>, bool))
        ensures
            r.0 is Some == position(self.spec_length(), remaining as nat) is Some,
            r.0 matches Some(p) ==> (p.spec_done() as nat, p.spec_total() as nat) == position(
                self.spec_length(),
                remaining as nat,
            )->0,
            r.1 ==> r.0 is Some,
    {
        let position = Progress::position(self.length, remaining);
        let queued = match position {
            Some(p) => send(&self.update, p),
            None => false,
        };
        (position, queued)
    }
}

} // verus!
