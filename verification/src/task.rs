//! A cooperative executor: a queue of tasks polled in turn until each has
//! finished.
use vstd::prelude::*;

verus! {

/// What polling a task reported.
#[derive(PartialEq, Eq, Structural, Clone, Copy, Debug)]
pub enum PollOutcome {
    /// The task has finished.
    Ready,
    /// The task has more to do and must be polled again.
    Pending,
}

/// The queue `q` after its front task was polled, reported pending and was
/// queued again: it goes to the back.
pub open spec fn rotate<T>(q: Seq<T>) -> Seq<T> {
    q.drop_first().push(q[0])
}

/// The queue `q` after `k` such turns.
pub open spec fn rotate_times<T>(q: Seq<T>, k: nat) -> Seq<T>
    decreases k,
{
    if k == 0 {
        q
    } else {
        rotate(rotate_times(q, (k - 1) as nat))
    }
}

/// The queue of tasks that wait to be polled, front first.
pub struct SimpleExecutor<T> {
    task_queue: std::collections::VecDeque<T>,
}

impl<T> View for SimpleExecutor<T> {
    type V = Seq<T>;

    closed spec fn view(&self) -> Seq<T> {
        self.task_queue@
    }
}

impl<T> SimpleExecutor<T> {
    /// An executor with no task.
    pub fn new() -> (e: Self)
        ensures
            e@ == Seq::<T>::empty(),
    {
        SimpleExecutor { task_queue: std::collections::VecDeque::new() }
    }

    /// Queues `task` behind the tasks already there.
    pub fn spawn(&mut self, task: T)
        ensures
            final(self)@ == old(self)@.push(task),
    {
        self.task_queue.push_back(task);
    }

    /// Takes the task to poll next, the one at the front; `None` once every
    /// task has finished, which ends the run.
    pub fn next_task(&mut self) -> (t: Option<T>)
        ensures
            t is None <==> old(self)@.len() == 0,
            t is None ==> final(self)@ == old(self)@,
            t matches Some(task) ==> task == old(self)@[0] && final(self)@ == old(self)@.drop_first(),
    {
        self.task_queue.pop_front()
    }

    /// Hands back the task just polled: a finished task is dropped, a pending
    /// one goes to the back of the queue.
    pub fn complete_poll(&mut self, task: T, outcome: PollOutcome)
        ensures
            outcome == PollOutcome::Ready ==> final(self)@ == old(self)@,
            outcome == PollOutcome::Pending ==> final(self)@ == old(self)@.push(task),
    {
        match outcome {
            PollOutcome::Ready => {},
            PollOutcome::Pending => self.task_queue.push_back(task),
        }
    }
}

/// After `k` turns in which the front task stayed pending, the queue is the
/// original one with its first `k` tasks moved, in order, to the back.
pub proof fn lemma_rotate_times<T>(q: Seq<T>, k: nat)
    requires
        k <= q.len(),
    ensures
        rotate_times(q, k) == q.subrange(k as int, q.len() as int) + q.subrange(0, k as int),
    decreases k,
{
    if k == 0 {
        assert(q.subrange(0, q.len() as int) + q.subrange(0, 0) =~= q);
    } else {
        lemma_rotate_times(q, (k - 1) as nat);
        let prev = rotate_times(q, (k - 1) as nat);
        let n = q.len() as int;
        assert(prev.len() == n);
        assert(prev[0] == q[k - 1]);
        assert(rotate(prev) =~= q.subrange(k as int, n) + q.subrange(0, k as int));
    }
}

/// Round robin: when every one of the queued tasks has been polled once and
/// each stayed pending, the queue is back in its original order.
pub proof fn lemma_full_round_restores_queue<T>(q: Seq<T>)
    ensures
        rotate_times(q, q.len()) == q,
{
    lemma_rotate_times(q, q.len());
    assert(q.subrange(q.len() as int, q.len() as int) + q.subrange(0, q.len() as int) =~= q);
}

} // verus!
