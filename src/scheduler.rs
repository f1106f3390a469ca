use vstd::prelude::*;
use std::collections::BTreeMap;
use crate::task::{PollOutcome, TaskId};

verus! {

broadcast use {vstd::std_specs::btree::group_btree_axioms, vstd::laws_cmp::group_laws_cmp};

/// Why the scheduler could not carry out a step.
#[derive(Clone, Copy, Debug, PartialEq, Eq, Structural)]
pub enum SchedulerError {
    /// Every task identity has been handed out; identities are never reused.
    IdsExhausted,
    /// A suspended task was to be parked under an identity that was never
    /// issued or that already holds a parked task.
    RegistryCorruption,
}

/// The registry after a task with identity `id` reported `outcome`:
/// a suspended task is parked under its identity, a finished one is dropped.
pub open spec fn settled<T>(
    parked: Map<TaskId, T>,
    id: TaskId,
    task: T,
    outcome: PollOutcome,
) -> Map<TaskId, T> {
    match outcome {
        PollOutcome::Pending => parked.insert(id, task),
        PollOutcome::Ready => parked,
    }
}

/// Whether a task that reported `outcome` under `id` may be settled into a
/// registry holding `parked`, with `issued` identities handed out, without
/// corrupting it.
pub open spec fn may_settle(issued: nat, parked: Set<TaskId>, id: TaskId, outcome: PollOutcome) -> bool {
    outcome == PollOutcome::Pending ==> (id < issued && !parked.contains(id))
}

/// The identities still parked after the run loop serviced a readiness event
/// for `id` whose poll reported `outcome`: a task that completed leaves the
/// registry, one that suspended again stays, and a stale event changes nothing.
pub open spec fn after_service(parked: Set<TaskId>, id: TaskId, outcome: PollOutcome) -> Set<TaskId> {
    if parked.contains(id) && outcome == PollOutcome::Pending {
        parked
    } else {
        parked.remove(id)
    }
}

/// One readiness event as the run loop services it: the identity woken, what
/// its poll reported, and the identities of the tasks that the poll spawned
/// and that suspended in their first poll.
pub type ServiceEvent = (TaskId, PollOutcome, Set<TaskId>);

/// The identities parked after the run loop serviced `event`: the woken task
/// leaves or stays as `after_service` says, and the suspended tasks that it
/// spawned join the registry.
pub open spec fn after_event(parked: Set<TaskId>, event: ServiceEvent) -> Set<TaskId> {
    after_service(parked, event.0, event.1).union(event.2)
}

/// The identities still parked after the run loop serviced `events` in order.
pub open spec fn after_services(parked: Set<TaskId>, events: Seq<ServiceEvent>) -> Set<TaskId>
    decreases events.len(),
{
    if events.len() == 0 {
        parked
    } else {
        after_services(after_event(parked, events[0]), events.drop_first())
    }
}

/// Whether some event in `events` reports that the task `id` completed.
pub open spec fn completes_in(events: Seq<ServiceEvent>, id: TaskId) -> bool {
    exists|i: int| 0 <= i < events.len() && #[trigger] events[i].0 == id && events[i].1 == PollOutcome::Ready
}

/// Whether every task ever parked reports completion in `events`: each of
/// `parked` somewhere, and each task spawned during an event in a later event.
pub open spec fn all_complete(parked: Set<TaskId>, events: Seq<ServiceEvent>) -> bool {
    &&& forall|id: TaskId| parked.contains(id) ==> completes_in(events, id)
    &&& forall|i: int, id: TaskId|
        0 <= i < events.len() && #[trigger] events[i].2.contains(id)
            ==> completes_in(events.subrange(i + 1, events.len() as int), id)
}

/// A task whose first poll completes it is never parked, and settling it
/// cannot fail. If nothing else was parked, the registry stays empty, so the
/// run loop has nothing to wait for and ends without reading the ready queue.
pub proof fn lemma_immediate_completion_not_parked<T>(
    issued: nat,
    parked: Map<TaskId, T>,
    id: TaskId,
    task: T,
)
    ensures
        may_settle(issued, parked.dom(), id, PollOutcome::Ready),
        settled(parked, id, task, PollOutcome::Ready) == parked,
        parked.is_empty() ==> settled(parked, id, task, PollOutcome::Ready).is_empty(),
{
}

/// One readiness event as the run loop services it: the woken task is taken
/// out, its poll spawns tasks whose suspended ones are parked (`spawned`),
/// and then what the poll reported is settled. Settling the woken task cannot
/// fail, and the parked identities are those that `after_event` gives.
pub proof fn lemma_service_step<T>(
    issued: nat,
    parked: Map<TaskId, T>,
    during: Map<TaskId, T>,
    spawned: Set<TaskId>,
    id: TaskId,
    task: T,
    outcome: PollOutcome,
)
    requires
        id < issued,
        parked.contains_key(id),
        !spawned.contains(id),
        during.dom() == parked.remove(id).dom().union(spawned),
    ensures
        may_settle(issued, during.dom(), id, outcome),
        settled(during, id, task, outcome).dom() == after_event(parked.dom(), (id, outcome, spawned)),
{
    assert(settled(during, id, task, outcome).dom() =~= after_event(parked.dom(), (id, outcome, spawned)));
}

/// A woken task that is not parked is a stale notification: taking it out
/// changes nothing, and nothing is polled or settled.
pub proof fn lemma_stale_event_changes_nothing<T>(parked: Map<TaskId, T>, id: TaskId)
    requires
        !parked.contains_key(id),
    ensures
        parked.remove(id) == parked,
        after_event(parked.dom(), (id, PollOutcome::Pending, Set::empty())) == parked.dom(),
        after_event(parked.dom(), (id, PollOutcome::Ready, Set::empty())) == parked.dom(),
{
    assert(parked.remove(id) =~= parked);
    assert(after_event(parked.dom(), (id, PollOutcome::Pending, Set::empty())) =~= parked.dom());
    assert(after_event(parked.dom(), (id, PollOutcome::Ready, Set::empty())) =~= parked.dom());
}

/// The run loop cannot stall: starting from any set of parked tasks,
/// once every task ever parked, those spawned while events were serviced
/// included, has reported completion, in whatever order and between however
/// many stale or repeated wakes, the registry is empty and the loop ends.
pub proof fn lemma_run_drains(parked: Set<TaskId>, events: Seq<ServiceEvent>)
    requires
        all_complete(parked, events),
    ensures
        after_services(parked, events).is_empty(),
    decreases events.len(),
{
    if events.len() == 0 {
        assert forall|id: TaskId| !parked.contains(id) by {
            if parked.contains(id) {
                assert(completes_in(events, id));
            }
        }
        assert(parked =~= Set::<TaskId>::empty());
    } else {
        let e = events[0];
        let rest = events.drop_first();
        let p1 = after_event(parked, e);
        assert forall|id: TaskId| p1.contains(id) implies completes_in(rest, id) by {
            if e.2.contains(id) {
                assert(events.subrange(1, events.len() as int) =~= rest);
            } else {
                let i = choose|i: int| 0 <= i < events.len() && #[trigger] events[i].0 == id
                    && events[i].1 == PollOutcome::Ready;
                assert(i != 0);
                assert(rest[i - 1].0 == id);
            }
        }
        assert forall|j: int, id: TaskId|
            0 <= j < rest.len() && #[trigger] rest[j].2.contains(id)
                implies completes_in(rest.subrange(j + 1, rest.len() as int), id) by {
            assert(events[j + 1].2.contains(id));
            assert(events.subrange(j + 2, events.len() as int) =~= rest.subrange(j + 1, rest.len() as int));
        }
        lemma_run_drains(p1, rest);
    }
}

/// The scheduler's own state: the identity counter and the registry of
/// suspended tasks, keyed by identity.
///
/// Polling a task and waiting for readiness happen outside; this type decides
/// which identity a new task gets, where a suspended task is parked, what a
/// readiness event for an identity yields, and when the run loop is done.
pub struct Scheduler<T> {
    next_id: TaskId,
    parked: BTreeMap<TaskId, T>,
}

impl<T> Scheduler<T> {
    /// How many identities have been handed out: they are `0 .. issued()`.
    pub closed spec fn issued(&self) -> nat {
        self.next_id as nat
    }

    /// The suspended tasks, by identity.
    pub closed spec fn parked(&self) -> Map<TaskId, T> {
        self.parked@
    }

    /// Only identities that were handed out are parked.
    #[verifier::type_invariant]
    spec fn wf(&self) -> bool {
        forall|id: TaskId| #[trigger] self.parked@.contains_key(id) ==> id < self.next_id
    }

    pub fn new() -> (s: Self)
        ensures
            s.issued() == 0,
            s.parked() == Map::<TaskId, T>::empty(),
    {
        Scheduler { next_id: 0, parked: BTreeMap::new() }
    }

    /// Hands out the next identity. Identities only grow, so one is never
    /// handed out twice and never names a task that is parked.
    pub fn issue_id(&mut self) -> (r: Result<TaskId, SchedulerError>)
        ensures
            final(self).parked() == old(self).parked(),
            (r is Err) <==> old(self).issued() == usize::MAX,
            match r {
                Ok(id) => {
                    &&& id as nat == old(self).issued()
                    &&& final(self).issued() == old(self).issued() + 1
                    &&& !old(self).parked().contains_key(id)
                },
                Err(e) => e == SchedulerError::IdsExhausted && final(self).issued() == old(self).issued(),
            },
    {
        proof {
            use_type_invariant(&*self);
        }
        if self.next_id == usize::MAX {
            Err(SchedulerError::IdsExhausted)
        } else {
            let id = self.next_id;
            self.next_id = self.next_id + 1;
            Ok(id)
        }
    }

    /// Records what one poll of the task `id` reported: a suspended task is
    /// parked, a finished one is dropped. Parking under an identity that was
    /// never issued, or that already holds a task, is refused and leaves the
    /// registry as it was.
    pub fn settle(&mut self, id: TaskId, task: T, outcome: PollOutcome) -> (r: Result<(), SchedulerError>)
        ensures
            final(self).issued() == old(self).issued(),
            (r is Ok) <==> may_settle(old(self).issued(), old(self).parked().dom(), id, outcome),
            r is Ok ==> final(self).parked() == settled(old(self).parked(), id, task, outcome),
            r is Err ==> r == Err::<(), SchedulerError>(SchedulerError::RegistryCorruption)
                && final(self).parked() == old(self).parked(),
    {
        proof {
            use_type_invariant(&*self);
        }
        match outcome {
            PollOutcome::Ready => Ok(()),
            PollOutcome::Pending => {
                if id >= self.next_id || self.parked.contains_key(&id) {
                    Err(SchedulerError::RegistryCorruption)
                } else {
                    let mut parked = BTreeMap::new();
                    std::mem::swap(&mut self.parked, &mut parked);
                    parked.insert(id, task);
                    std::mem::swap(&mut self.parked, &mut parked);
                    Ok(())
                }
            },
        }
    }

    /// Takes the task `id` out of the registry to be polled after it was
    /// woken. `None` means the notification was stale: the task was already
    /// serviced or has finished, and nothing changes.
    pub fn resume(&mut self, id: TaskId) -> (r: Option<T>)
        ensures
            final(self).issued() == old(self).issued(),
            final(self).parked() == old(self).parked().remove(id),
            r == (if old(self).parked().contains_key(id) {
                Some(old(self).parked()[id])
            } else {
                None
            }),
    {
        proof {
            use_type_invariant(&*self);
        }
        let mut parked = BTreeMap::new();
        std::mem::swap(&mut self.parked, &mut parked);
        let r = parked.remove(&id);
        std::mem::swap(&mut self.parked, &mut parked);
        r
    }

    /// Whether some task is parked: the run loop waits for a readiness event
    /// exactly while this holds, and is done once it does not.
    pub fn has_parked(&self) -> (r: bool)
        ensures
            r == !self.parked().is_empty(),
    {
        !self.parked.is_empty()
    }

    /// How many tasks are parked.
    pub fn parked_count(&self) -> (r: usize)
        ensures
            r as nat == self.parked().len(),
    {
        self.parked.len()
    }
}

} // verus!
