//! Work for the toolkit thread: the main queue, and the cells of the tasks
//! that are polled through it.

use vstd::prelude::*;

verus! {

/// One piece of work for the toolkit thread.
#[derive(Clone, Copy, Debug, PartialEq, Eq, Structural)]
pub enum Job {
    /// Call the boxed closure at this address.
    Call(usize),
    /// Poll the task whose cell is at this address.
    Poll(usize),
}

/// The work that waits for the toolkit thread. What was queued first runs
/// first.
pub struct MainQueue {
    pending: Vec<Job>,
}

/// What is left of a queue after `n` jobs were taken from its front.
pub open spec fn drained(pending: Seq<Job>, n: nat) -> Seq<Job>
    decreases n,
{
    if n == 0 {
        pending
    } else {
        drained(pending.drop_first(), (n - 1) as nat)
    }
}

/// Taking `n` jobs from the front leaves what stands behind the first `n`.
pub proof fn lemma_drained_is_skip(pending: Seq<Job>, n: nat)
    requires
        n <= pending.len(),
    ensures
        drained(pending, n) == pending.skip(n as int),
    decreases n,
{
    if n == 0 {
        assert(pending.skip(0) =~= pending);
    } else {
        lemma_drained_is_skip(pending.drop_first(), (n - 1) as nat);
        assert(pending.drop_first().skip(n - 1) =~= pending.skip(n as int));
    }
}

/// Jobs run in the order in which they were queued: of two jobs queued one
/// after the other, behind whatever waits already, the first comes to the
/// front when all that waited has run, the second right after it, and then
/// the queue is empty.
pub proof fn lemma_fifo(pending: Seq<Job>, a: Job, b: Job)
    ensures
        drained(pending.push(a).push(b), pending.len()).first() == a,
        drained(pending.push(a).push(b), pending.len() + 1).first() == b,
        drained(pending.push(a).push(b), pending.len() + 2).len() == 0,
        forall|k: nat|
            k < pending.len() ==> (#[trigger] drained(pending.push(a).push(b), k)).first()
                == pending[k as int],
{
    let q = pending.push(a).push(b);
    let n = pending.len();
    lemma_drained_is_skip(q, n);
    lemma_drained_is_skip(q, n + 1);
    lemma_drained_is_skip(q, n + 2);
    assert forall|k: nat| k < pending.len() implies (#[trigger] drained(q, k)).first()
        == pending[k as int] by {
        lemma_drained_is_skip(q, k);
    }
}

/// One use of a queue: a job is put on it, or the next job is taken.
#[derive(Clone, Copy, Debug, PartialEq, Eq, Structural)]
pub enum QueueOp {
    Queue(Job),
    Take,
}

/// The jobs that `ops` put on the queue, in the order in which they were put.
pub open spec fn queued_by(ops: Seq<QueueOp>) -> Seq<Job>
    decreases ops.len(),
{
    if ops.len() == 0 {
        Seq::empty()
    } else {
        match ops.last() {
            QueueOp::Queue(job) => queued_by(ops.drop_last()).push(job),
            QueueOp::Take => queued_by(ops.drop_last()),
        }
    }
}

/// What `ops` make of an empty queue: the jobs taken, in the order in which
/// they were taken, and the jobs that still wait. Taking from an empty queue
/// gives nothing.
pub open spec fn replayed(ops: Seq<QueueOp>) -> (Seq<Job>, Seq<Job>)
    decreases ops.len(),
{
    if ops.len() == 0 {
        (Seq::empty(), Seq::empty())
    } else {
        let (taken, pending) = replayed(ops.drop_last());
        match ops.last() {
            QueueOp::Queue(job) => (taken, pending.push(job)),
            QueueOp::Take => if pending.len() == 0 {
                (taken, pending)
            } else {
                (taken.push(pending.first()), pending.drop_first())
            },
        }
    }
}

/// However queuing and taking alternate, the jobs taken followed by the jobs
/// that wait are the jobs queued, in the order in which they were queued: no
/// job overtakes another, none is lost, and none runs twice.
pub proof fn lemma_taken_in_queued_order(ops: Seq<QueueOp>)
    ensures
        replayed(ops).0 + replayed(ops).1 == queued_by(ops),
    decreases ops.len(),
{
    if ops.len() > 0 {
        lemma_taken_in_queued_order(ops.drop_last());
        let (taken, pending) = replayed(ops.drop_last());
        match ops.last() {
            QueueOp::Queue(job) => {
                assert(taken + pending.push(job) =~= (taken + pending).push(job));
            },
            QueueOp::Take => {
                if pending.len() > 0 {
                    assert(taken.push(pending.first()) + pending.drop_first() =~= taken + pending);
                }
            },
        }
    } else {
        assert(Seq::<Job>::empty() + Seq::<Job>::empty() =~= Seq::<Job>::empty());
    }
}

impl MainQueue {
    /// The waiting jobs, the next one first.
    pub closed spec fn view(&self) -> Seq<Job> {
        self.pending@
    }

    /// A queue with nothing in it.
    pub fn new() -> (queue: MainQueue)
        ensures
            queue@ == Seq::<Job>::empty(),
    {
        MainQueue { pending: Vec::new() }
    }

    /// How many jobs wait.
    pub fn len(&self) -> (n: usize)
        ensures
            n == self@.len(),
    {
        self.pending.len()
    }

    /// Whether no job waits.
    pub fn is_empty(&self) -> (empty: bool)
        ensures
            empty == (self@.len() == 0),
    {
        self.pending.len() == 0
    }

    /// Puts a job behind all that wait.
    pub fn queue(&mut self, job: Job)
        ensures
            final(self)@ == old(self)@.push(job),
    {
        self.pending.push(job);
    }

    /// Takes the job that has waited longest, if any waits.
    pub fn take_next(&mut self) -> (job: Option<Job>)
        ensures
            old(self)@.len() == 0 ==> job is None && final(self)@ == old(self)@,
            old(self)@.len() > 0 ==> job == Some(old(self)@.first()),
            old(self)@.len() > 0 ==> final(self)@ == old(self)@.drop_first(),
    {
        if self.pending.len() == 0 {
            None
        } else {
            let job = self.pending.remove(0);
            assert(self.pending@ =~= old(self).pending@.drop_first());
            Some(job)
        }
    }
}

/// Evidence that the toolkit is running, which may be copied and carried to
/// other threads. All it allows is to queue work for the toolkit thread.
#[derive(Clone, Copy)]
pub struct Context {
    pub(crate) _token: (),
}

impl Context {
    /// Queues a boxed closure to be called on the toolkit thread, behind
    /// everything queued before it. Does not wait for the call.
    pub fn queue_main(self, queue: &mut MainQueue, callback: usize)
        ensures
            final(queue)@ == old(queue)@.push(Job::Call(callback)),
    {
        queue.queue(Job::Call(callback));
    }

    /// Makes the cell of a new task whose future lies at `addr`, and queues
    /// its first poll. The queued poll owns the cell's one reference.
    pub fn spawn(self, queue: &mut MainQueue, addr: usize) -> (cell: TaskCell)
        ensures
            cell@ == (TaskView { addr, refs: 1, polling: false, done: false }),
            cell@.wf(),
            final(queue)@ == old(queue)@.push(Job::Poll(addr)),
    {
        queue.queue(Job::Poll(addr));
        TaskCell { addr, refs: 1, polling: false, done: false }
    }
}

/// What a task cell holds, as plain values.
pub struct TaskView {
    /// Where the task's future lies.
    pub addr: usize,
    /// How many references to the cell are alive: one for each waker, and
    /// one for each queued poll.
    pub refs: nat,
    /// Whether a poll of the future is in flight.
    pub polling: bool,
    /// Whether the future has completed.
    pub done: bool,
}

/// What to do with a poll that has come to the front of the queue.
#[derive(Clone, Copy, Debug, PartialEq, Eq, Structural)]
pub enum PollDecision {
    /// Poll the future now, then report with [`TaskCell::end_poll`].
    Poll,
    /// A poll is in flight; this one was put back on the queue.
    Busy,
    /// The future has completed; this poll's reference was released.
    /// `free` says whether it was the last one, so that the caller frees the
    /// cell.
    Finished { free: bool },
}

impl TaskView {
    /// The cell is alive, and a poll in flight holds two references: the
    /// queued poll's own and its waker's.
    pub open spec fn wf(self) -> bool {
        &&& self.refs >= 1
        &&& self.refs <= usize::MAX
        &&& self.polling ==> self.refs >= 2
        &&& self.polling ==> !self.done
    }

    /// The cell with one reference more.
    pub open spec fn retained(self) -> TaskView {
        TaskView { refs: self.refs + 1, ..self }
    }

    /// The cell with one reference fewer.
    pub open spec fn released(self) -> TaskView {
        TaskView { refs: (self.refs - 1) as nat, ..self }
    }

    /// What becomes of a poll that comes to the front of the queue.
    pub open spec fn poll_decision(self) -> PollDecision {
        if self.polling {
            PollDecision::Busy
        } else if self.done {
            PollDecision::Finished { free: self.refs == 1 }
        } else {
            PollDecision::Poll
        }
    }

    /// The cell after a poll has come to the front of the queue.
    pub open spec fn after_begin_poll(self) -> TaskView {
        if self.polling {
            self
        } else if self.done {
            self.released()
        } else {
            TaskView { polling: true, ..self.retained() }
        }
    }

    /// The cell after the poll in flight has returned: the poll's waker and
    /// the poll's own reference are gone.
    pub open spec fn after_end_poll(self, ready: bool) -> TaskView {
        TaskView { refs: (self.refs - 2) as nat, polling: false, done: ready, ..self }
    }
}

/// What can happen to a task cell.
#[derive(Clone, Copy, Debug, PartialEq, Eq, Structural)]
pub enum TaskEvent {
    /// A waker is cloned.
    CloneWaker,
    /// A waker is used up to wake the task.
    Wake,
    /// A waker wakes the task and stays alive.
    WakeByRef,
    /// A waker is dropped.
    DropWaker,
    /// A queued poll comes to the front of the queue.
    BeginPoll,
    /// The poll in flight returns.
    EndPoll { ready: bool },
}

impl TaskView {
    /// Whether `event` can happen to the cell: the cell is alive, a count
    /// that grows has room, only a poll in flight returns, and the two
    /// references of a poll in flight are not dropped as wakers.
    pub open spec fn allows(self, event: TaskEvent) -> bool {
        &&& self.wf()
        &&& match event {
            TaskEvent::CloneWaker => self.refs < usize::MAX,
            TaskEvent::Wake => true,
            TaskEvent::WakeByRef => self.refs < usize::MAX,
            TaskEvent::DropWaker => !self.polling || self.refs > 2,
            TaskEvent::BeginPoll => self.refs < usize::MAX,
            TaskEvent::EndPoll { ready } => self.polling,
        }
    }

    /// The cell after `event`.
    pub open spec fn after(self, event: TaskEvent) -> TaskView {
        match event {
            TaskEvent::CloneWaker => self.retained(),
            TaskEvent::Wake => self,
            TaskEvent::WakeByRef => self.retained(),
            TaskEvent::DropWaker => self.released(),
            TaskEvent::BeginPoll => self.after_begin_poll(),
            TaskEvent::EndPoll { ready } => self.after_end_poll(ready),
        }
    }

    /// How many polls `event` starts, less how many it ends.
    pub open spec fn polls_started(self, event: TaskEvent) -> int {
        match event {
            TaskEvent::BeginPoll => if self.poll_decision() == PollDecision::Poll {
                1
            } else {
                0
            },
            TaskEvent::EndPoll { ready } => -1,
            _ => 0,
        }
    }
}

/// The cell after those of `events` that can happen to it, one after the
/// other, and how many polls are in flight then, given that `in_flight`
/// were before. An event that cannot happen is left out.
pub open spec fn after_events(cell: TaskView, in_flight: int, events: Seq<TaskEvent>) -> (
    TaskView,
    int,
)
    decreases events.len(),
{
    if events.len() == 0 {
        (cell, in_flight)
    } else {
        let (before, polls) = after_events(cell, in_flight, events.drop_last());
        if before.allows(events.last()) {
            (before.after(events.last()), polls + before.polls_started(events.last()))
        } else {
            (before, polls)
        }
    }
}

/// Whatever happens to a cell that was spawned, in whatever order: at most
/// one poll of its future is in flight at any time, a completed future is
/// not polled, and the cell is either alive or has lost its last reference.
pub proof fn lemma_polls_never_overlap(addr: usize, events: Seq<TaskEvent>)
    ensures
        ({
            let spawned = TaskView { addr, refs: 1, polling: false, done: false };
            let (cell, polls) = after_events(spawned, 0, events);
            &&& 0 <= polls <= 1
            &&& cell.polling <==> polls == 1
            &&& cell.polling ==> !cell.done
            &&& cell.wf() || cell.refs == 0
            &&& cell.addr == addr
        }),
    decreases events.len(),
{
    if events.len() > 0 {
        lemma_polls_never_overlap(addr, events.drop_last());
    }
}

/// At most one poll of a task is in flight. A poll starts only on a cell
/// that is not being polled; until it ends, every other poll that comes to
/// the front of the queue is put back and leaves the cell as it is; and when
/// it ends no poll is in flight and the poll's two references are gone.
pub proof fn lemma_single_flight(cell: TaskView, ready: bool)
    requires
        cell.wf(),
        cell.poll_decision() == PollDecision::Poll,
    ensures
        !cell.polling,
        cell.after_begin_poll().polling,
        cell.after_begin_poll().poll_decision() == PollDecision::Busy,
        cell.after_begin_poll().after_begin_poll() == cell.after_begin_poll(),
        !cell.after_begin_poll().after_end_poll(ready).polling,
        cell.after_begin_poll().after_end_poll(ready).done == ready,
        cell.after_begin_poll().after_end_poll(ready).refs == cell.refs - 1,
{
}

/// A completed task is never polled again, and a cell is freed exactly when
/// its last reference goes.
pub proof fn lemma_completed_is_not_polled(cell: TaskView)
    requires
        cell.wf(),
        cell.done,
    ensures
        cell.poll_decision() == (PollDecision::Finished { free: cell.refs == 1 }),
        cell.after_begin_poll().refs == cell.refs - 1,
        cell.after_begin_poll().done,
{
}

/// The shared state of one spawned task: how many references to it are
/// alive, whether a poll is in flight, and whether the future has completed.
pub struct TaskCell {
    addr: usize,
    refs: usize,
    polling: bool,
    done: bool,
}

impl TaskCell {
    /// The cell as plain values.
    pub closed spec fn view(&self) -> TaskView {
        TaskView { addr: self.addr, refs: self.refs as nat, polling: self.polling, done: self.done }
    }

    /// Where the task's future lies.
    pub fn addr(&self) -> (addr: usize)
        ensures
            addr == self@.addr,
    {
        self.addr
    }

    /// How many references are alive.
    pub fn ref_count(&self) -> (refs: usize)
        ensures
            refs == self@.refs,
    {
        self.refs
    }

    /// Whether a poll is in flight.
    pub fn is_polling(&self) -> (polling: bool)
        ensures
            polling == self@.polling,
    {
        self.polling
    }

    /// Whether the future has completed.
    pub fn is_done(&self) -> (done: bool)
        ensures
            done == self@.done,
    {
        self.done
    }

    /// Whether `event` can happen to the cell now. What cannot happen must
    /// not be asked for.
    pub fn can(&self, event: TaskEvent) -> (allowed: bool)
        ensures
            allowed == self@.allows(event),
    {
        let alive = self.refs >= 1 && (!self.polling || (self.refs >= 2 && !self.done));
        let room = self.refs < usize::MAX;
        alive && match event {
            TaskEvent::CloneWaker => room,
            TaskEvent::Wake => true,
            TaskEvent::WakeByRef => room,
            TaskEvent::DropWaker => !self.polling || self.refs > 2,
            TaskEvent::BeginPoll => room,
            TaskEvent::EndPoll { ready: _ } => self.polling,
        }
    }

    /// A waker is cloned: one reference more.
    pub fn clone_waker(&mut self)
        requires
            old(self)@.allows(TaskEvent::CloneWaker),
        ensures
            final(self)@ == old(self)@.retained(),
            final(self)@.wf(),
    {
        self.refs = self.refs + 1;
    }

    /// A waker is used up to wake the task: its reference passes to the poll
    /// that is queued.
    pub fn wake(&mut self, queue: &mut MainQueue)
        requires
            old(self)@.allows(TaskEvent::Wake),
        ensures
            final(self)@ == old(self)@,
            final(queue)@ == old(queue)@.push(Job::Poll(old(self)@.addr)),
    {
        queue.queue(Job::Poll(self.addr));
    }

    /// A waker wakes the task and stays alive: the poll that is queued gets a
    /// reference of its own.
    pub fn wake_by_ref(&mut self, queue: &mut MainQueue)
        requires
            old(self)@.allows(TaskEvent::WakeByRef),
        ensures
            final(self)@ == old(self)@.retained(),
            final(self)@.wf(),
            final(queue)@ == old(queue)@.push(Job::Poll(old(self)@.addr)),
    {
        self.refs = self.refs + 1;
        queue.queue(Job::Poll(self.addr));
    }

    /// A waker is dropped: one reference fewer. Tells whether it was the
    /// last, so that the caller frees the cell; the cell must not be used
    /// after that.
    pub fn drop_waker(&mut self) -> (free: bool)
        requires
            old(self)@.allows(TaskEvent::DropWaker),
        ensures
            final(self)@ == old(self)@.released(),
            free == (final(self)@.refs == 0),
            !free ==> final(self)@.wf(),
    {
        self.refs = self.refs - 1;
        self.refs == 0
    }

    /// A queued poll of the future has come to the front of the queue.
    ///
    /// Decides whether the future is polled now. While a poll is in flight
    /// the job goes back on the queue, with its reference. Once the future
    /// has completed the job's reference is released.
    pub fn begin_poll(&mut self, queue: &mut MainQueue) -> (decision: PollDecision)
        requires
            old(self)@.allows(TaskEvent::BeginPoll),
        ensures
            decision == old(self)@.poll_decision(),
            final(self)@ == old(self)@.after_begin_poll(),
            decision == PollDecision::Busy ==> final(queue)@ == old(queue)@.push(
                Job::Poll(old(self)@.addr),
            ),
            decision != PollDecision::Busy ==> final(queue)@ == old(queue)@,
            decision == (PollDecision::Finished { free: true }) || final(self)@.wf(),
    {
        if self.polling {
            queue.queue(Job::Poll(self.addr));
            PollDecision::Busy
        } else if self.done {
            self.refs = self.refs - 1;
            PollDecision::Finished { free: self.refs == 0 }
        } else {
            self.polling = true;
            self.refs = self.refs + 1;
            PollDecision::Poll
        }
    }

    /// The poll in flight has returned, with the future ready or pending.
    ///
    /// The poll's waker and the poll's own reference are released. Tells
    /// whether no reference is left, so that the caller frees the cell: a
    /// pending task that nothing can wake any more, or a completed one.
    pub fn end_poll(&mut self, ready: bool) -> (free: bool)
        requires
            old(self)@.allows(TaskEvent::EndPoll { ready }),
        ensures
            final(self)@ == old(self)@.after_end_poll(ready),
            free == (final(self)@.refs == 0),
            !free ==> final(self)@.wf(),
    {
        self.polling = false;
        self.done = ready;
        self.refs = self.refs - 2;
        self.refs == 0
    }
}

} // verus!
