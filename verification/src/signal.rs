//! The shutdown signal that a server shares with the tasks it starts.
//!
//! The signal is a `tokio::sync::Notify` behind an `Arc`. Firing it is a plain
//! call and happens here; waiting for it is an `await` and belongs to the
//! caller, who gets at the notifier through [`ShutdownSignal::notifier`].
//!
//! `SignalState` writes down how such a notifier behaves according to its
//! documentation: a trigger wakes the task that has waited longest, and only
//! that one; with nobody waiting it leaves a single permit behind. The proof
//! functions below are about that description.

use std::sync::Arc;
use tokio::sync::Notify;
use vstd::prelude::*;

verus! {

/// `tokio::sync::Notify`, carried as it is: nothing of its inside is seen
/// here.
#[verifier::external_type_specification]
#[verifier::external_body]
pub struct ExNotify(Notify);

/// `tokio::sync::Notify::new` makes a notifier. Nothing is claimed of it:
/// what it holds cannot be seen from here.
pub assume_specification[ Notify::new ]() -> (notify: Notify)
;

/// `tokio::sync::Notify::notify_one` returns nothing and does not panic.
/// Its effect is on tasks that wait, so no clause can speak of it.
pub assume_specification[ Notify::notify_one ](notify: &Notify)
;

/// `Arc::clone`: another pointer to the same notifier.
#[verifier::external_body]
fn same_notifier(notify: &Arc<Notify>) -> (shared: Arc<Notify>)
    ensures
        shared == *notify,
{
    Arc::clone(notify)
}

/// A handle on the signal. Handles made by `share` have one notifier
/// between them.
pub struct ShutdownSignal {
    notify: Arc<Notify>,
}

impl ShutdownSignal {
    /// A signal that nobody waits for yet and that has not fired.
    pub fn new() -> (signal: Self) {
        ShutdownSignal { notify: Arc::new(Notify::new()) }
    }

    /// Fires the signal once. Returns at once; it waits for nobody.
    pub fn trigger(&self) {
        self.notify.notify_one();
    }

    /// The notifier that all handles on this signal share.
    pub closed spec fn shared(&self) -> Notify {
        *self.notify
    }

    /// The notifier, for the side that waits.
    pub fn notifier(&self) -> (notify: &Notify)
        ensures
            *notify == self.shared(),
    {
        &self.notify
    }

    /// A second handle on the same notifier, for a task to take along.
    pub fn share(&self) -> (signal: Self)
        ensures
            signal.shared() == self.shared(),
    {
        ShutdownSignal { notify: same_notifier(&self.notify) }
    }
}

/// What a wake-one notifier holds: the tasks that wait, the one that has
/// waited longest first, and whether a permit is stored.
pub struct SignalState {
    pub waiting: Seq<int>,
    pub permit: bool,
}

impl SignalState {
    /// A new signal: nobody waits, no permit.
    pub open spec fn fresh() -> SignalState {
        SignalState { waiting: Seq::empty(), permit: false }
    }

    /// A permit exists only while nobody waits, and no task waits twice.
    pub open spec fn wf(self) -> bool {
        &&& self.permit ==> self.waiting.len() == 0
        &&& self.waiting.no_duplicates()
    }

    /// Whether a task that begins to wait now goes on at once.
    pub open spec fn passes(self) -> bool {
        self.permit
    }

    /// The signal once `task` has begun to wait: a stored permit is used up
    /// and the task does not queue; without one it queues behind the others.
    pub open spec fn awaited_by(self, task: int) -> SignalState {
        if self.permit {
            SignalState { permit: false, ..self }
        } else if self.waiting.contains(task) {
            self
        } else {
            SignalState { waiting: self.waiting.push(task), ..self }
        }
    }

    /// The task that one trigger wakes, if any waits.
    pub open spec fn woken(self) -> Option<int> {
        if self.waiting.len() > 0 {
            Some(self.waiting[0])
        } else {
            None
        }
    }

    /// The signal after one trigger.
    pub open spec fn triggered(self) -> SignalState {
        if self.waiting.len() > 0 {
            SignalState { waiting: self.waiting.drop_first(), ..self }
        } else {
            SignalState { permit: true, ..self }
        }
    }
}

/// One trigger wakes one waiting task and no more: the one that has waited
/// longest leaves the queue, every other task still waits, and no permit is
/// left for them.
pub proof fn lemma_trigger_wakes_one(s: SignalState)
    requires
        s.wf(),
        s.waiting.len() > 0,
    ensures
        s.woken() == Some(s.waiting[0]),
        s.triggered().wf(),
        s.triggered().waiting.len() == s.waiting.len() - 1,
        !s.triggered().waiting.contains(s.waiting[0]),
        forall|task: int|
            s.waiting.contains(task) && task != s.waiting[0] ==> s.triggered().waiting.contains(
                task,
            ),
        !s.triggered().permit,
{
    let rest = s.waiting.drop_first();
    assert forall|task: int| s.waiting.contains(task) && task != s.waiting[0] implies rest.contains(
        task,
    ) by {
        let i = choose|i: int| 0 <= i < s.waiting.len() && s.waiting[i] == task;
        assert(rest[i - 1] == task);
    }
    if rest.contains(s.waiting[0]) {
        let j = choose|j: int| 0 <= j < rest.len() && rest[j] == s.waiting[0];
        assert(s.waiting[j + 1] == s.waiting[0]);
    }
}

/// With nobody waiting a trigger is kept as a permit: the next task to wait
/// goes on at once and uses it up.
pub proof fn lemma_trigger_is_kept(s: SignalState, task: int)
    requires
        s.wf(),
        s.waiting.len() == 0,
    ensures
        s.woken() is None,
        s.triggered().wf(),
        s.triggered().passes(),
        s.triggered().awaited_by(task) == (SignalState { permit: false, ..s }),
        !s.triggered().awaited_by(task).passes(),
{
}

/// Triggering again while the permit is still there changes nothing.
pub proof fn lemma_retrigger_is_benign(s: SignalState)
    requires
        s.wf(),
        s.waiting.len() == 0,
    ensures
        s.triggered().triggered() == s.triggered(),
{
}

} // verus!
