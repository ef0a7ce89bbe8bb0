//! The background task that plays frames.

use crate::coyote3::state::State;
use vstd::prelude::*;

verus! {

/// Holds the callback that is called with the device state once per frame.
///
/// A callback is taken out while it runs, so that it may itself set or clear the callback.
pub struct StateCallbackSlot<C> {
    /// Counts how often the callback was set or cleared, and wraps around.
    pub generation: u64,
    /// The callback, unless there is none or it runs.
    pub callback: Option<C>,
}

/// The count after `generation`.
pub open spec fn next_generation(generation: u64) -> u64 {
    if generation == u64::MAX {
        0
    } else {
        (generation + 1) as u64
    }
}

impl<C> StateCallbackSlot<C> {
    /// Create a slot without a callback.
    pub fn new() -> (slot: Self)
        ensures
            slot == (StateCallbackSlot { generation: 0, callback: None::<C> }),
    {
        StateCallbackSlot { generation: 0, callback: None }
    }

    /// Replace the callback.
    pub fn set(&mut self, callback: C)
        ensures
            *final(self) == (StateCallbackSlot {
                generation: next_generation(old(self).generation),
                callback: Some(callback),
            }),
    {
        self.generation = self.generation.wrapping_add(1);
        self.callback = Some(callback);
    }

    /// Remove the callback.
    pub fn clear(&mut self)
        ensures
            *final(self) == (StateCallbackSlot {
                generation: next_generation(old(self).generation),
                callback: None::<C>,
            }),
    {
        self.generation = self.generation.wrapping_add(1);
        self.callback = None;
    }

    /// Take the callback out to run it; also return the count that [`Self::finish_invoke`] needs.
    pub fn begin_invoke(&mut self) -> (taken: (u64, Option<C>))
        ensures
            taken == (old(self).generation, old(self).callback),
            *final(self) == (StateCallbackSlot {
                generation: old(self).generation,
                callback: None::<C>,
            }),
    {
        (self.generation, self.callback.take())
    }

    /// The slot after a callback that was taken out at `generation` has run.
    pub open spec fn after_invoke(self, generation: u64, callback: C) -> Self {
        if self.generation == generation && self.callback is None {
            StateCallbackSlot { generation, callback: Some(callback) }
        } else {
            self
        }
    }

    /// Put a callback back after it has run, unless it was replaced or removed meanwhile.
    pub fn finish_invoke(&mut self, generation: u64, callback: C)
        ensures
            *final(self) == old(self).after_invoke(generation, callback),
    {
        if self.generation == generation && self.callback.is_none() {
            self.callback = Some(callback);
        }
    }

    /// Tell whether there is a callback that does not run.
    pub fn has_callback(&self) -> (found: bool)
        ensures
            found == (self.callback is Some),
    {
        self.callback.is_some()
    }
}

/// Holds the background task of a runtime, of which there is at most one.
pub struct TaskGuard<T> {
    /// The task, if there is one.
    pub task: Option<T>,
}

impl<T> TaskGuard<T> {
    /// Create a guard without a task.
    pub fn new() -> (guard: Self)
        ensures
            guard.task is None,
    {
        TaskGuard { task: None }
    }

    /// Hold `task`, and return the task that it displaces, which is to be aborted.
    pub fn replace(&mut self, task: T) -> (displaced: Option<T>)
        ensures
            displaced == old(self).task,
            final(self).task == Some(task),
    {
        let displaced = self.abort();
        self.task = Some(task);
        displaced
    }

    /// Let go of the task, and return it to be aborted.
    pub fn abort(&mut self) -> (displaced: Option<T>)
        ensures
            displaced == old(self).task,
            final(self).task is None,
    {
        self.task.take()
    }

    /// Let go of the task if it is finished, and tell whether that was done.
    pub fn clear_if_finished(&mut self, finished: bool) -> (cleared: bool)
        ensures
            cleared == (finished && old(self).task is Some),
            final(self).task == if finished {
                None
            } else {
                old(self).task
            },
    {
        if finished && self.task.is_some() {
            self.task = None;
            true
        } else {
            false
        }
    }

    /// Tell whether there is no task.
    pub fn is_empty(&self) -> (empty: bool)
        ensures
            empty == (self.task is None),
    {
        self.task.is_none()
    }

    /// Make room for a new task where the old one is finished or there is none, and tell whether
    /// there is room. A task that still runs is kept.
    pub fn make_room(&mut self, finished: bool) -> (room: bool)
        ensures
            room == (finished || old(self).task is None),
            room ==> final(self).task is None,
            !room ==> *final(self) == *old(self),
    {
        self.clear_if_finished(finished);
        self.is_empty()
    }
}

/// How many milliseconds lie between two frames.
pub const FRAME_PERIOD_MS: u64 = 100;

/// What the background task of a runtime does next.
#[derive(Clone, Copy, Debug, PartialEq, Eq, Structural)]
pub enum RuntimeStep {
    /// Wait until the next frame is due, [`FRAME_PERIOD_MS`] after the one before, and read the
    /// device state.
    AwaitTick,
    /// Call the callback with this state.
    RunCallback(State),
    /// Make the frame for this state and send it.
    SendFrame(State),
    /// End the task.
    Stopped,
}

/// What came out of a step of the background task.
#[derive(Clone, Copy, Debug, PartialEq, Eq, Structural)]
pub enum RuntimeEvent {
    /// A frame is due, and the device is in this state.
    Due(State),
    /// The step was done.
    Done,
    /// The step could not be done.
    Failed,
}

impl RuntimeStep {
    /// Return the first step.
    pub fn first() -> (step: Self)
        ensures
            step == RuntimeStep::AwaitTick,
            step == runtime_after(Seq::empty()),
    {
        RuntimeStep::AwaitTick
    }

    /// The step that follows this one after `event`; an event that this step does not wait for
    /// leaves it as it is.
    pub open spec fn next(self, event: RuntimeEvent) -> Self {
        match (self, event) {
            (RuntimeStep::AwaitTick, RuntimeEvent::Due(state)) => RuntimeStep::RunCallback(state),
            (RuntimeStep::RunCallback(state), RuntimeEvent::Done) => RuntimeStep::SendFrame(state),
            (RuntimeStep::SendFrame(_), RuntimeEvent::Done) => RuntimeStep::AwaitTick,
            (RuntimeStep::SendFrame(_), RuntimeEvent::Failed) => RuntimeStep::Stopped,
            _ => self,
        }
    }

    /// Return the step that follows this one after `event`.
    pub fn advance(self, event: RuntimeEvent) -> (step: Self)
        ensures
            step == self.next(event),
    {
        match (self, event) {
            (RuntimeStep::AwaitTick, RuntimeEvent::Due(state)) => RuntimeStep::RunCallback(state),
            (RuntimeStep::RunCallback(state), RuntimeEvent::Done) => RuntimeStep::SendFrame(state),
            (RuntimeStep::SendFrame(_), RuntimeEvent::Done) => RuntimeStep::AwaitTick,
            (RuntimeStep::SendFrame(_), RuntimeEvent::Failed) => RuntimeStep::Stopped,
            _ => self,
        }
    }
}

// Laws.

/// The slot after some changes of the callback, where `Some` sets it and `None` clears it.
pub open spec fn changed<C>(
    slot: StateCallbackSlot<C>,
    changes: Seq<Option<C>>,
) -> StateCallbackSlot<C>
    decreases changes.len(),
{
    if changes.len() == 0 {
        slot
    } else {
        StateCallbackSlot {
            generation: next_generation(changed(slot, changes.drop_last()).generation),
            callback: changes.last(),
        }
    }
}

/// The count goes up by one with every change.
proof fn generation_counts_changes<C>(slot: StateCallbackSlot<C>, changes: Seq<Option<C>>)
    ensures
        changed(slot, changes).generation == (slot.generation + changes.len())
            % 0x1_0000_0000_0000_0000,
    decreases changes.len(),
{
    if changes.len() > 0 {
        generation_counts_changes(slot, changes.drop_last());
    }
}

/// A callback that has run is put back exactly where nobody set or cleared the callback meanwhile;
/// else the last such change stands, for any number of changes that the count can tell apart.
pub proof fn last_change_of_the_callback_stands<C>(
    slot: StateCallbackSlot<C>,
    callback: C,
    changes: Seq<Option<C>>,
)
    requires
        slot.callback == Some(callback),
        changes.len() < 0x1_0000_0000_0000_0000,
    ensures
        ({
            let running = StateCallbackSlot { generation: slot.generation, callback: None::<C> };
            let after = changed(running, changes).after_invoke(slot.generation, callback);
            if changes.len() == 0 {
                after == slot
            } else {
                after == changed(running, changes) && after.callback == changes.last()
            }
        }),
{
    let running = StateCallbackSlot { generation: slot.generation, callback: None::<C> };
    generation_counts_changes(running, changes);
}

/// The step that a runtime is at after some events.
pub open spec fn runtime_after(events: Seq<RuntimeEvent>) -> RuntimeStep
    decreases events.len(),
{
    if events.len() == 0 {
        RuntimeStep::AwaitTick
    } else {
        runtime_after(events.drop_last()).next(events.last())
    }
}

/// The states of the frames that became due, in order.
pub open spec fn states_due(events: Seq<RuntimeEvent>) -> Seq<State>
    decreases events.len(),
{
    if events.len() == 0 {
        Seq::empty()
    } else {
        let before = states_due(events.drop_last());
        match (runtime_after(events.drop_last()), events.last()) {
            (RuntimeStep::AwaitTick, RuntimeEvent::Due(state)) => before.push(state),
            _ => before,
        }
    }
}

/// The states that the callback was called with, in order.
pub open spec fn states_called(events: Seq<RuntimeEvent>) -> Seq<State>
    decreases events.len(),
{
    if events.len() == 0 {
        Seq::empty()
    } else {
        let before = states_called(events.drop_last());
        match (runtime_after(events.drop_last()), events.last()) {
            (RuntimeStep::RunCallback(state), RuntimeEvent::Done) => before.push(state),
            _ => before,
        }
    }
}

/// The states that frames were made and sent for, in order; a frame that could not be sent counts.
pub open spec fn states_sent(events: Seq<RuntimeEvent>) -> Seq<State>
    decreases events.len(),
{
    if events.len() == 0 {
        Seq::empty()
    } else {
        let before = states_sent(events.drop_last());
        match (runtime_after(events.drop_last()), events.last()) {
            (RuntimeStep::SendFrame(state), RuntimeEvent::Done) => before.push(state),
            (RuntimeStep::SendFrame(state), RuntimeEvent::Failed) => before.push(state),
            _ => before,
        }
    }
}

/// For every frame that becomes due, the callback is called once with the state that was read, and
/// then one frame is made and sent for that same state: the states of the callbacks and of the
/// frames are those that were read, in the same order, up to the frame that is under way.
pub proof fn callback_and_frame_get_the_same_state(events: Seq<RuntimeEvent>)
    ensures
        match runtime_after(events) {
            RuntimeStep::RunCallback(state) => {
                &&& states_due(events) == states_called(events).push(state)
                &&& states_called(events) == states_sent(events)
            },
            RuntimeStep::SendFrame(state) => {
                &&& states_due(events) == states_called(events)
                &&& states_called(events) == states_sent(events).push(state)
            },
            _ => {
                &&& states_due(events) == states_called(events)
                &&& states_called(events) == states_sent(events)
            },
        },
    decreases events.len(),
{
    if events.len() > 0 {
        callback_and_frame_get_the_same_state(events.drop_last());
    }
}

/// A runtime stops after a frame that could not be sent, and only then.
pub proof fn runtime_stops_after_a_failed_frame(events: Seq<RuntimeEvent>)
    ensures
        runtime_after(events) is Stopped <==> exists|i: int|
            0 <= i < events.len() && #[trigger] events[i] == RuntimeEvent::Failed && runtime_after(
                events.take(i),
            ) is SendFrame,
    decreases events.len(),
{
    if events.len() > 0 {
        let before = events.drop_last();
        let last = events.len() - 1;
        runtime_stops_after_a_failed_frame(before);
        assert(events.take(last) =~= before);
        assert forall|i: int| 0 <= i < last implies before.take(i) == #[trigger] events.take(i)
            && before[i] == events[i] by {
            assert(before.take(i) =~= events.take(i));
        }
        if runtime_after(before) is Stopped {
            let i = choose|i: int|
                0 <= i < before.len() && #[trigger] before[i] == RuntimeEvent::Failed
                    && runtime_after(before.take(i)) is SendFrame;
            assert(events[i] == RuntimeEvent::Failed && runtime_after(events.take(i)) is SendFrame);
        } else if runtime_after(events) is Stopped {
            assert(events[last] == RuntimeEvent::Failed);
        } else {
            assert forall|i: int|
                0 <= i < events.len() && #[trigger] events[i] == RuntimeEvent::Failed implies !(
            runtime_after(events.take(i)) is SendFrame) by {
                if i < last {
                    assert(before[i] == RuntimeEvent::Failed);
                }
            }
        }
    }
}

/// Nothing is done any more by a runtime that has stopped.
pub proof fn stopped_runtimes_stay_stopped(event: RuntimeEvent)
    ensures
        RuntimeStep::Stopped.next(event) == RuntimeStep::Stopped,
{
}

} // verus!
