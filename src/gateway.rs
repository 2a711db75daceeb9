//! The execution gateway's decisions. A call in blocking mode runs on the
//! calling thread; a call in non-blocking mode takes a slot of the worker
//! pool, or is refused when none is free, and its result is delivered
//! through a task handle that is fulfilled exactly once. A dispatched task
//! is never cancelled: dropping its handle does not stop the work.

use vstd::prelude::*;

use crate::heavy_work::heavy_work_message;
use crate::pipeline::{
    blurs, lemma_transform_deterministic, pipeline_outcome, result_view, TransformError,
    TransformParams,
};

verus! {

/// How an exposed operation is executed.
#[derive(Clone, Copy, Debug, PartialEq, Eq, Structural)]
pub enum ExecutionMode {
    /// On the calling thread, which waits until the work is done.
    Blocking,
    /// On a worker of the pool; the caller receives a task handle at once.
    NonBlocking,
}

/// Where the gateway sends an admitted call.
#[derive(Clone, Copy, Debug, PartialEq, Eq, Structural)]
pub enum Placement {
    CallingThread,
    Worker,
}

/// A refusal at submission time, before any handle exists.
#[derive(Clone, Copy, Debug, PartialEq, Eq, Structural)]
pub enum GatewayError {
    /// Every worker slot of the pool is taken.
    PoolSubmission,
}

/// The admission state of the worker pool: how many slots it has and how
/// many run a task.
pub struct WorkerPool {
    capacity: usize,
    in_flight: usize,
}

impl WorkerPool {
    pub closed spec fn spec_capacity(&self) -> nat {
        self.capacity as nat
    }

    pub closed spec fn spec_in_flight(&self) -> nat {
        self.in_flight as nat
    }

    /// Never more tasks in flight than there are slots.
    pub open spec fn wf(&self) -> bool {
        self.spec_in_flight() <= self.spec_capacity()
    }

    /// A pool of `capacity` slots, all free.
    pub fn new(capacity: usize) -> (r: WorkerPool)
        ensures
            r.wf(),
            r.spec_capacity() == capacity,
            r.spec_in_flight() == 0,
    {
        WorkerPool { capacity, in_flight: 0 }
    }

    pub fn capacity(&self) -> (r: usize)
        ensures
            r == self.spec_capacity(),
    {
        self.capacity
    }

    pub fn in_flight(&self) -> (r: usize)
        ensures
            r == self.spec_in_flight(),
    {
        self.in_flight
    }

    /// Decides where a call in `mode` runs. A blocking call always runs on
    /// the calling thread and takes no slot; a non-blocking call takes a
    /// free slot, and is refused when there is none.
    pub fn dispatch(&mut self, mode: ExecutionMode) -> (r: Result<Placement, GatewayError>)
        requires
            old(self).wf(),
        ensures
            final(self).wf(),
            final(self).spec_capacity() == old(self).spec_capacity(),
            mode == ExecutionMode::Blocking ==> r == Ok::<Placement, GatewayError>(
                Placement::CallingThread,
            ) && final(self).spec_in_flight() == old(self).spec_in_flight(),
            mode == ExecutionMode::NonBlocking && old(self).spec_in_flight() < old(
                self,
            ).spec_capacity() ==> r == Ok::<Placement, GatewayError>(Placement::Worker)
                && final(self).spec_in_flight() == old(self).spec_in_flight() + 1,
            mode == ExecutionMode::NonBlocking && old(self).spec_in_flight() == old(
                self,
            ).spec_capacity() ==> r == Err::<Placement, GatewayError>(GatewayError::PoolSubmission)
                && final(self).spec_in_flight() == old(self).spec_in_flight(),
    {
        match mode {
            ExecutionMode::Blocking => Ok(Placement::CallingThread),
            ExecutionMode::NonBlocking => {
                if self.in_flight < self.capacity {
                    self.in_flight = self.in_flight + 1;
                    Ok(Placement::Worker)
                } else {
                    Err(GatewayError::PoolSubmission)
                }
            },
        }
    }

    /// A worker has finished its task and gives its slot back. With no
    /// task in flight nothing changes.
    pub fn release(&mut self)
        requires
            old(self).wf(),
        ensures
            final(self).wf(),
            final(self).spec_capacity() == old(self).spec_capacity(),
            old(self).spec_in_flight() > 0 ==> final(self).spec_in_flight() == old(
                self,
            ).spec_in_flight() - 1,
            old(self).spec_in_flight() == 0 ==> final(self).spec_in_flight() == 0,
    {
        if self.in_flight > 0 {
            self.in_flight = self.in_flight - 1;
        }
    }
}

/// The life of a dispatched task.
#[derive(Debug)]
pub enum TaskState<T, E> {
    Submitted,
    Running,
    /// Terminal: the task completed with a value or failed with an error.
    Done(Result<T, E>),
}

/// A write-once, read-many slot for the outcome of a non-blocking task.
pub struct TaskHandle<T, E> {
    state: TaskState<T, E>,
}

/// The moves that a task handle can make: staying put, starting a
/// submitted task, or a running task reaching its terminal state.
pub open spec fn allowed_step<T, E>(before: TaskState<T, E>, after: TaskState<T, E>) -> bool {
    ||| after == before
    ||| before is Submitted && after is Running
    ||| before is Running && after is Done
}

impl<T, E> TaskHandle<T, E> {
    pub closed spec fn spec_state(&self) -> TaskState<T, E> {
        self.state
    }

    /// A handle for a task that has just been submitted.
    pub fn submitted() -> (r: TaskHandle<T, E>)
        ensures
            r.spec_state() is Submitted,
    {
        TaskHandle { state: TaskState::Submitted }
    }

    /// Marks a submitted task as running; in any other state nothing
    /// changes. Returns whether the state changed.
    pub fn start(&mut self) -> (r: bool)
        ensures
            r == old(self).spec_state() is Submitted,
            r ==> final(self).spec_state() is Running,
            !r ==> final(self).spec_state() == old(self).spec_state(),
            allowed_step(old(self).spec_state(), final(self).spec_state()),
    {
        match self.state {
            TaskState::Submitted => {
                self.state = TaskState::Running;
                true
            },
            _ => false,
        }
    }

    /// Fulfills a running task's handle with `outcome`. A handle that was
    /// not started, or already holds an outcome, does not change. Returns
    /// whether it was fulfilled now.
    pub fn fulfill(&mut self, outcome: Result<T, E>) -> (r: bool)
        ensures
            r == old(self).spec_state() is Running,
            r ==> final(self).spec_state() == TaskState::<T, E>::Done(outcome),
            !r ==> final(self).spec_state() == old(self).spec_state(),
            allowed_step(old(self).spec_state(), final(self).spec_state()),
    {
        match self.state {
            TaskState::Running => {
                self.state = TaskState::Done(outcome);
                true
            },
            _ => false,
        }
    }

    /// Whether the task has reached its terminal state.
    pub fn is_terminal(&self) -> (r: bool)
        ensures
            r == self.spec_state() is Done,
    {
        match self.state {
            TaskState::Done(_) => true,
            _ => false,
        }
    }

    /// The outcome of the task, once there is one.
    pub fn poll(&self) -> (r: Option<&Result<T, E>>)
        ensures
            match self.spec_state() {
                TaskState::Done(o) => r == Some(&o),
                _ => r is None,
            },
    {
        match &self.state {
            TaskState::Done(o) => Some(o),
            _ => None,
        }
    }
}

/// Once a task handle holds its outcome, it keeps it: along any sequence of
/// allowed moves that starts at the terminal state, every state is that same
/// terminal state, so every poll returns the same outcome.
pub proof fn lemma_terminal_is_permanent<T, E>(trace: Seq<TaskState<T, E>>, outcome: Result<T, E>)
    requires
        trace.len() > 0,
        trace[0] == TaskState::<T, E>::Done(outcome),
        forall|i: int| 0 <= i < trace.len() - 1 ==> #[trigger] allowed_step(trace[i], trace[i + 1]),
    ensures
        forall|j: int| 0 <= j < trace.len() ==> #[trigger] trace[j] == TaskState::<T, E>::Done(outcome),
    decreases trace.len(),
{
    if trace.len() > 1 {
        let rest = trace.subrange(0, trace.len() - 1);
        assert forall|i: int| 0 <= i < rest.len() - 1 implies #[trigger] allowed_step(rest[i], rest[i + 1]) by {
            assert(allowed_step(trace[i], trace[i + 1]));
        }
        lemma_terminal_is_permanent(rest, outcome);
        let last = trace.len() - 1;
        let k = last - 1;
        assert(rest[k] == trace[k]);
        assert(allowed_step(trace[k], trace[k + 1]));
        assert forall|j: int| 0 <= j < trace.len() implies #[trigger] trace[j] == TaskState::<T, E>::Done(outcome) by {
            if j < last {
                assert(rest[j] == trace[j]);
            }
        }
    }
}

/// A task handle reaches at most one terminal state: two terminal states on
/// one sequence of allowed moves hold the same outcome.
pub proof fn lemma_single_terminal_state<T, E>(trace: Seq<TaskState<T, E>>, i: int, j: int)
    requires
        0 <= i <= j < trace.len(),
        trace[i] is Done,
        trace[j] is Done,
        forall|k: int| 0 <= k < trace.len() - 1 ==> #[trigger] allowed_step(trace[k], trace[k + 1]),
    ensures
        trace[i] == trace[j],
{
    let outcome = trace[i]->Done_0;
    let tail = trace.subrange(i, trace.len() as int);
    assert forall|k: int| 0 <= k < tail.len() - 1 implies #[trigger] allowed_step(tail[k], tail[k + 1]) by {
        assert(allowed_step(trace[i + k], trace[i + k + 1]));
    }
    lemma_terminal_is_permanent(tail, outcome);
    assert(tail[j - i] == trace[j]);
}

/// The execution mode does not change a transform's result: a handle whose
/// worker ran the pipeline holds an outcome that agrees with a blocking call
/// on the same payload and parameters on whether the payload decodes, and,
/// where no blur applies, is the same outcome.
pub proof fn lemma_transform_modes_agree(
    payload: Seq<u8>,
    params: TransformParams,
    blocking: Result<Vec<u8>, TransformError>,
    handle: TaskHandle<Vec<u8>, TransformError>,
)
    requires
        pipeline_outcome(payload, params, result_view(blocking)),
        handle.spec_state() is Done,
        pipeline_outcome(payload, params, result_view(handle.spec_state()->Done_0)),
    ensures
        (blocking == Err::<Vec<u8>, TransformError>(TransformError::Decode)) == (
        handle.spec_state()->Done_0 == Err::<Vec<u8>, TransformError>(TransformError::Decode)),
        !blurs(payload, params) ==> result_view(blocking) == result_view(
            handle.spec_state()->Done_0,
        ),
{
    lemma_transform_deterministic(
        payload,
        params,
        result_view(blocking),
        result_view(handle.spec_state()->Done_0),
    );
}

/// The execution mode does not change the stand-in workload's result: a
/// handle whose worker delivered the workload's value completed with the
/// message that the blocking call returns.
pub proof fn lemma_heavy_work_modes_agree<E>(blocking: String, handle: TaskHandle<String, E>)
    requires
        blocking@ == heavy_work_message(),
        handle.spec_state() matches TaskState::Done(Ok(v)) && v@ == heavy_work_message(),
    ensures
        handle.spec_state() matches TaskState::Done(Ok(v)) && v@ == blocking@,
{
}

} // verus!
