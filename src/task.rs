//! The handle through which the result of a background task reaches the
//! frame loop, at most once.

use vstd::prelude::*;

verus! {

#[verifier::external_type_specification]
#[verifier::external_body]
#[verifier::reject_recursive_types(T)]
pub struct ExOneshotReceiver<T>(futures::channel::oneshot::Receiver<T>);

#[verifier::external_type_specification]
#[verifier::external_body]
pub struct ExCanceled(futures::channel::oneshot::Canceled);

/// Relies on futures' `oneshot::Receiver::try_recv`: without blocking, the
/// value if it was sent and not yet taken, nothing if it has not been sent
/// yet, or `Canceled` once the sender is gone.
#[verifier::external_body]
fn oneshot_try_recv<T>(
    receiver: &mut futures::channel::oneshot::Receiver<T>,
) -> Result<Option<T>, futures::channel::oneshot::Canceled> {
    receiver.try_recv()
}

/// What one poll of a `TaskHandle` gives.
pub enum Receive<T> {
    /// The task has not delivered yet.
    Pending,
    /// The task's result; given once.
    Ready(T),
    /// The result was already taken, or will never come.
    Closed,
}

/// A single-value channel carrying a background task's result.
#[verifier::reject_recursive_types(T)]
pub struct TaskHandle<T> {
    receiver: futures::channel::oneshot::Receiver<T>,
    finished: bool,
}

impl<T> TaskHandle<T> {
    /// The result was taken, or the task is known never to deliver.
    pub closed spec fn spec_finished(&self) -> bool {
        self.finished
    }

    /// A handle on the receiving end of the task's channel.
    pub fn new(receiver: futures::channel::oneshot::Receiver<T>) -> (r: Self)
        ensures
            !r.spec_finished(),
    {
        TaskHandle { receiver, finished: false }
    }

    /// What one poll of the channel means: a value is ready, nothing is there
    /// yet, or the sender went away without sending.
    pub fn interpret(polled: Result<Option<T>, futures::channel::oneshot::Canceled>) -> (r: Receive<T>)
        ensures
            match polled {
                Ok(Some(v)) => r == Receive::Ready(v),
                Ok(None) => r is Pending,
                Err(_) => r is Closed,
            },
    {
        match polled {
            Ok(Some(v)) => Receive::Ready(v),
            Ok(None) => Receive::Pending,
            Err(_) => Receive::Closed,
        }
    }

    /// Poll without blocking. The value is given by exactly one poll: every
    /// poll before it gives `Pending`, every poll after it `Closed`, and the
    /// channel is not read again.
    pub fn try_receive(&mut self) -> (r: Receive<T>)
        ensures
            old(self).spec_finished() ==> r is Closed,
            r is Ready ==> !old(self).spec_finished(),
            final(self).spec_finished() == !(r is Pending),
    {
        if self.finished {
            return Receive::Closed;
        }
        let r = TaskHandle::interpret(oneshot_try_recv(&mut self.receiver));
        match r {
            Receive::Pending => {},
            _ => {
                self.finished = true;
            },
        }
        r
    }

    /// Whether the result was taken, or the task is known never to deliver.
    pub fn is_finished(&self) -> (r: bool)
        ensures
            r == self.spec_finished(),
    {
        self.finished
    }
}

} // verus!
