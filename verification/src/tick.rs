//! The tick coordinator: instances that ticked wait in a batch until the
//! host runs the deferred execution, which takes the whole batch at once.
//!
//! The host calls `video_tick` once per frame for each instance, under the
//! lock that guards the batch, and does what the returned action says. When
//! the deferred execution runs, it calls `execute_tick_tasks`, again under
//! the lock, and then runs the reorder engine for each instance it got back.

use crate::active_window_manager::FocusedWindow;
use crate::source::FocusedWindowSource;
use vstd::prelude::*;

verus! {

/// The instances that ticked since the last deferred execution, oldest
/// first.
pub struct PendingBatch {
    tasks: Vec<FocusedWindowSource>,
}

impl View for PendingBatch {
    type V = Seq<FocusedWindowSource>;

    closed spec fn view(&self) -> Seq<FocusedWindowSource> {
        self.tasks@
    }
}

/// What the host does after a frame tick.
#[derive(Debug, Clone, Copy, PartialEq, Eq, Structural)]
pub enum TickAction {
    /// Nothing: the instance is disabled.
    Skip,
    /// Wake the sampler for a fresh sample and schedule one deferred
    /// execution.
    Schedule,
}

/// The batch after a tick of `instance`: an enabled instance is appended, a
/// disabled one is not.
pub open spec fn after_tick(
    batch: Seq<FocusedWindowSource>,
    instance: FocusedWindowSource,
) -> Seq<FocusedWindowSource> {
    if instance.enable {
        batch.push(instance)
    } else {
        batch
    }
}

/// The batch after the ticks of `instances`, taken in their order.
pub open spec fn after_ticks(
    batch: Seq<FocusedWindowSource>,
    instances: Seq<FocusedWindowSource>,
) -> Seq<FocusedWindowSource>
    decreases instances.len(),
{
    if instances.len() == 0 {
        batch
    } else {
        after_tick(after_ticks(batch, instances.drop_last()), instances.last())
    }
}

/// The instances for which a deferred execution runs the engine: the whole
/// batch while a focused window is known, none otherwise.
pub open spec fn due_instances(
    batch: Seq<FocusedWindowSource>,
    focused: Option<FocusedWindow>,
) -> Seq<FocusedWindowSource> {
    if focused is Some {
        batch
    } else {
        Seq::empty()
    }
}

impl PendingBatch {
    /// An empty batch.
    pub fn new() -> (batch: Self)
        ensures
            batch@ == Seq::<FocusedWindowSource>::empty(),
    {
        PendingBatch { tasks: Vec::new() }
    }

    /// Number of waiting instances.
    pub fn len(&self) -> (n: usize)
        ensures
            n == self@.len(),
    {
        self.tasks.len()
    }

    /// Appends an instance behind those that wait.
    pub fn push(&mut self, instance: FocusedWindowSource)
        ensures
            final(self)@ == old(self)@.push(instance),
    {
        self.tasks.push(instance);
    }

    /// Takes every waiting instance out, oldest first, and leaves the batch
    /// empty.
    pub fn drain(&mut self) -> (taken: Vec<FocusedWindowSource>)
        ensures
            taken@ == old(self)@,
            final(self)@ == Seq::<FocusedWindowSource>::empty(),
    {
        let mut taken: Vec<FocusedWindowSource> = Vec::new();
        std::mem::swap(&mut self.tasks, &mut taken);
        taken
    }
}

/// One frame tick of `instance`, given as a snapshot of its configuration.
/// An enabled instance joins the batch and the host is told to wake the
/// sampler and to schedule a deferred execution; a disabled one is ignored.
pub fn video_tick(instance: FocusedWindowSource, batch: &mut PendingBatch) -> (action: TickAction)
    ensures
        final(batch)@ == after_tick(old(batch)@, instance),
        action == if instance.enable {
            TickAction::Schedule
        } else {
            TickAction::Skip
        },
{
    if !instance.enable {
        return TickAction::Skip;
    }
    batch.push(instance);
    TickAction::Schedule
}

/// The deferred execution: empties the batch and returns the instances for
/// which the host now runs the reorder engine, in the order of their ticks.
/// While no focused window is known the batch is emptied all the same and
/// the engine runs for none.
pub fn execute_tick_tasks(batch: &mut PendingBatch, focused: &Option<FocusedWindow>) -> (due: Vec<
    FocusedWindowSource,
>)
    ensures
        final(batch)@ == Seq::<FocusedWindowSource>::empty(),
        due@ == due_instances(old(batch)@, *focused),
{
    let taken = batch.drain();
    match focused {
        Some(_) => taken,
        None => Vec::new(),
    }
}

/// Ticks of enabled instances, from however many sources and in whatever
/// order they reach the batch, are all queued, each once and in that order.
pub proof fn enabled_ticks_are_queued_once(
    batch: Seq<FocusedWindowSource>,
    instances: Seq<FocusedWindowSource>,
)
    requires
        forall|i: int| 0 <= i < instances.len() ==> instances[i].enable,
    ensures
        after_ticks(batch, instances) == batch + instances,
    decreases instances.len(),
{
    if instances.len() == 0 {
        assert(batch + instances =~= batch);
    } else {
        enabled_ticks_are_queued_once(batch, instances.drop_last());
        assert(batch + instances =~= (batch + instances.drop_last()).push(instances.last()));
    }
}

/// A deferred execution that follows any number of ticks on an empty batch
/// hands out every enabled instance that ticked, each once, and the next
/// one starts from an empty batch.
pub proof fn one_drain_takes_every_tick(
    instances: Seq<FocusedWindowSource>,
    focused: Option<FocusedWindow>,
)
    requires
        forall|i: int| 0 <= i < instances.len() ==> instances[i].enable,
        focused is Some,
    ensures
        due_instances(after_ticks(Seq::empty(), instances), focused) == instances,
{
    enabled_ticks_are_queued_once(Seq::empty(), instances);
    assert(Seq::<FocusedWindowSource>::empty() + instances =~= instances);
}

} // verus!
