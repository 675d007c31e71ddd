//! What the scheduler hands back to its caller: errors, events to publish,
//! and orders to carry out.

use vstd::prelude::*;
use crate::models::swarm_task::SwarmProgress;
use crate::models::task::TaskStatus;

verus! {

/// Why a scheduler operation was refused.
#[derive(Debug)]
pub enum SwarmError {
    ExecutionNotFound(u128),
    NoAvailableWorkers,
    TaskNotFound(u128),
    InvalidStateTransition(String),
    ExecutionFailed(String),
}

/// What the scheduler publishes to subscribers.
#[derive(Debug)]
pub enum SwarmEvent {
    TaskStarted { swarm_task_id: u128, agent_id: u128 },
    TaskCompleted { swarm_task_id: u128 },
    TaskFailed { swarm_task_id: u128, error: String },
    ExecutionProgress { progress: SwarmProgress },
    ExecutionCompleted { swarm_execution_id: u128 },
    ExecutionFailed { swarm_execution_id: u128, error: String },
    ConsensusRequired { swarm_execution_id: u128 },
}

/// Mathematical view of a [`SwarmEvent`].
pub ghost enum SwarmEventView {
    TaskStarted { swarm_task_id: u128, agent_id: u128 },
    TaskCompleted { swarm_task_id: u128 },
    TaskFailed { swarm_task_id: u128, error: Seq<char> },
    ExecutionProgress { progress: SwarmProgress },
    ExecutionCompleted { swarm_execution_id: u128 },
    ExecutionFailed { swarm_execution_id: u128, error: Seq<char> },
    ConsensusRequired { swarm_execution_id: u128 },
}

impl View for SwarmEvent {
    type V = SwarmEventView;

    open spec fn view(&self) -> SwarmEventView {
        match self {
            SwarmEvent::TaskStarted { swarm_task_id, agent_id } => SwarmEventView::TaskStarted {
                swarm_task_id: *swarm_task_id,
                agent_id: *agent_id,
            },
            SwarmEvent::TaskCompleted { swarm_task_id } => SwarmEventView::TaskCompleted {
                swarm_task_id: *swarm_task_id,
            },
            SwarmEvent::TaskFailed { swarm_task_id, error } => SwarmEventView::TaskFailed {
                swarm_task_id: *swarm_task_id,
                error: error@,
            },
            SwarmEvent::ExecutionProgress { progress } => SwarmEventView::ExecutionProgress {
                progress: *progress,
            },
            SwarmEvent::ExecutionCompleted {
                swarm_execution_id,
            } => SwarmEventView::ExecutionCompleted { swarm_execution_id: *swarm_execution_id },
            SwarmEvent::ExecutionFailed {
                swarm_execution_id,
                error,
            } => SwarmEventView::ExecutionFailed {
                swarm_execution_id: *swarm_execution_id,
                error: error@,
            },
            SwarmEvent::ConsensusRequired {
                swarm_execution_id,
            } => SwarmEventView::ConsensusRequired { swarm_execution_id: *swarm_execution_id },
        }
    }
}

impl DeepView for SwarmEvent {
    type V = SwarmEventView;

    open spec fn deep_view(&self) -> SwarmEventView {
        self@
    }
}

/// A change of status that the caller applies to a child task.
#[derive(Debug, Clone, Copy, PartialEq, Eq, Structural)]
pub struct TaskUpdate {
    pub task_id: u128,
    pub status: TaskStatus,
}

/// An order to create the workspace of a SubTask that was just assigned.
/// Once the workspace exists, the caller reports it with
/// [`SwarmManager::start_task`].
#[derive(Debug)]
pub struct StartOrder {
    pub swarm_task_id: u128,
    pub task_id: u128,
    pub agent_id: u128,
    pub branch_name: String,
}

/// Mathematical view of a [`StartOrder`].
pub ghost struct StartOrderView {
    pub swarm_task_id: u128,
    pub task_id: u128,
    pub agent_id: u128,
    pub branch_name: Seq<char>,
}

impl View for StartOrder {
    type V = StartOrderView;

    open spec fn view(&self) -> StartOrderView {
        StartOrderView {
            swarm_task_id: self.swarm_task_id,
            task_id: self.task_id,
            agent_id: self.agent_id,
            branch_name: self.branch_name@,
        }
    }
}

impl DeepView for StartOrder {
    type V = StartOrderView;

    open spec fn deep_view(&self) -> StartOrderView {
        self@
    }
}

/// What one step of the scheduler asks its caller to carry out.
#[derive(Debug)]
pub struct Effects {
    pub starts: Vec<StartOrder>,
    pub task_updates: Vec<TaskUpdate>,
    pub events: Vec<SwarmEvent>,
}

/// Mathematical view of [`Effects`].
pub ghost struct EffectsView {
    pub starts: Seq<StartOrderView>,
    pub task_updates: Seq<TaskUpdate>,
    pub events: Seq<SwarmEventView>,
}

impl View for Effects {
    type V = EffectsView;

    open spec fn view(&self) -> EffectsView {
        EffectsView {
            starts: self.starts.deep_view(),
            task_updates: self.task_updates@,
            events: self.events.deep_view(),
        }
    }
}

impl EffectsView {
    /// Nothing to carry out.
    pub open spec fn nothing() -> EffectsView {
        EffectsView { starts: Seq::empty(), task_updates: Seq::empty(), events: Seq::empty() }
    }

    /// The effects of `self` followed by those of `next`.
    pub open spec fn followed_by(self, next: EffectsView) -> EffectsView {
        EffectsView {
            starts: self.starts + next.starts,
            task_updates: self.task_updates + next.task_updates,
            events: self.events + next.events,
        }
    }
}

impl Effects {
    /// Nothing to carry out.
    pub fn nothing() -> (e: Effects)
        ensures
            e@ == EffectsView::nothing(),
    {
        let e = Effects { starts: Vec::new(), task_updates: Vec::new(), events: Vec::new() };
        assert(e.starts.deep_view() =~= Seq::empty());
        assert(e.events.deep_view() =~= Seq::empty());
        e
    }

    /// One update of a child task, and the events that go with it.
    pub fn of_update(update: TaskUpdate, events: Vec<SwarmEvent>) -> (e: Effects)
        ensures
            e@ == (EffectsView {
                starts: Seq::empty(),
                task_updates: seq![update],
                events: events.deep_view(),
            }),
    {
        let mut task_updates: Vec<TaskUpdate> = Vec::new();
        task_updates.push(update);
        let e = Effects { starts: Vec::new(), task_updates, events };
        assert(e.starts.deep_view() =~= Seq::empty());
        assert(e.task_updates@ =~= seq![update]);
        e
    }

    /// Start orders, and the events that go with them.
    pub fn of_starts(starts: Vec<StartOrder>, events: Vec<SwarmEvent>) -> (e: Effects)
        ensures
            e@ == (EffectsView {
                starts: starts.deep_view(),
                task_updates: Seq::empty(),
                events: events.deep_view(),
            }),
    {
        let e = Effects { starts, task_updates: Vec::new(), events };
        assert(e.task_updates@ =~= Seq::empty());
        e
    }

    /// The effects of `self` followed by those of `next`.
    pub fn followed_by(self, next: Effects) -> (e: Effects)
        ensures
            e@ == self@.followed_by(next@),
    {
        let Effects { starts: mut starts, task_updates: mut task_updates, events: mut events } =
            self;
        let Effects { starts: mut more_starts, task_updates: mut more_updates, events: mut more_events } =
            next;
        let ghost a = starts.deep_view();
        let ghost b = more_starts.deep_view();
        let ghost c = events.deep_view();
        let ghost d = more_events.deep_view();
        starts.append(&mut more_starts);
        task_updates.append(&mut more_updates);
        events.append(&mut more_events);
        let e = Effects { starts, task_updates, events };
        assert(e.starts.deep_view() =~= a + b);
        assert(e.events.deep_view() =~= c + d);
        e
    }
}

/// No event.
pub fn no_events() -> (v: Vec<SwarmEvent>)
    ensures
        v.deep_view() == Seq::<SwarmEventView>::empty(),
{
    let v: Vec<SwarmEvent> = Vec::new();
    assert(v.deep_view() =~= Seq::<SwarmEventView>::empty());
    v
}

/// A single event.
pub fn one_event(a: SwarmEvent) -> (v: Vec<SwarmEvent>)
    ensures
        v.deep_view() == seq![a@],
{
    let mut v: Vec<SwarmEvent> = Vec::new();
    v.push(a);
    assert(v.deep_view() =~= seq![a@]);
    v
}

/// Two events, in order.
pub fn two_events(a: SwarmEvent, b: SwarmEvent) -> (v: Vec<SwarmEvent>)
    ensures
        v.deep_view() == seq![a@, b@],
{
    let mut v: Vec<SwarmEvent> = Vec::new();
    v.push(a);
    v.push(b);
    assert(v.deep_view() =~= seq![a@, b@]);
    v
}

} // verus!
