//! The tasks that run for a chain, and how they are named.

use vstd::prelude::*;

verus! {

/// The event streams that are scraped on every chain.
#[derive(Clone, Copy, Debug, PartialEq, Eq, Structural)]
pub enum EventLabel {
    MessageDispatch,
    MessageDelivery,
    GasPayment,
}

impl EventLabel {
    /// The label as diagnostics show it.
    pub open spec fn name(self) -> Seq<char> {
        match self {
            EventLabel::MessageDispatch => "message_dispatch"@,
            EventLabel::MessageDelivery => "message_delivery"@,
            EventLabel::GasPayment => "gas_payment"@,
        }
    }

    /// Whether the stream follows a sequence number, so that its cursor is
    /// seeded from the newest record. The other streams are rate limited.
    pub open spec fn sequential(self) -> bool {
        self == EventLabel::MessageDispatch
    }

    pub fn as_str(&self) -> (s: &'static str)
        ensures
            s@ == self.name(),
    {
        match self {
            EventLabel::MessageDispatch => "message_dispatch",
            EventLabel::MessageDelivery => "message_delivery",
            EventLabel::GasPayment => "gas_payment",
        }
    }

    pub fn is_sequential(&self) -> (yes: bool)
        ensures
            yes == self.sequential(),
    {
        match self {
            EventLabel::MessageDispatch => true,
            _ => false,
        }
    }
}

/// What a task does: it syncs one event stream, or it reports the chain's
/// metrics.
#[derive(Clone, Copy, Debug, PartialEq, Eq, Structural)]
pub enum TaskKind {
    Sync(EventLabel),
    Metrics,
}

/// The number of tasks that run for each chain.
pub const TASKS_PER_CHAIN: usize = 4;

impl TaskKind {
    /// The kind of the task in place `slot` among the tasks of one chain.
    pub open spec fn at(slot: int) -> TaskKind {
        if slot == 0 {
            TaskKind::Sync(EventLabel::MessageDispatch)
        } else if slot == 1 {
            TaskKind::Sync(EventLabel::MessageDelivery)
        } else if slot == 2 {
            TaskKind::Sync(EventLabel::GasPayment)
        } else {
            TaskKind::Metrics
        }
    }

    /// The place of a kind among the tasks of one chain.
    pub open spec fn slot(self) -> int {
        match self {
            TaskKind::Sync(EventLabel::MessageDispatch) => 0,
            TaskKind::Sync(EventLabel::MessageDelivery) => 1,
            TaskKind::Sync(EventLabel::GasPayment) => 2,
            TaskKind::Metrics => 3,
        }
    }

    /// The label as diagnostics show it.
    pub open spec fn name(self) -> Seq<char> {
        match self {
            TaskKind::Sync(label) => label.name(),
            TaskKind::Metrics => "metrics"@,
        }
    }

    pub fn as_str(&self) -> (s: &'static str)
        ensures
            s@ == self.name(),
    {
        match self {
            TaskKind::Sync(label) => label.as_str(),
            TaskKind::Metrics => "metrics",
        }
    }
}

/// The diagnostic context of a task: the chain it works for and what it does
/// there.
#[derive(Debug, PartialEq, Eq)]
pub struct TaskLabel {
    pub chain: String,
    pub event: TaskKind,
}

impl Clone for TaskLabel {
    fn clone(&self) -> (copy: Self)
        ensures
            copy == *self,
    {
        TaskLabel { chain: self.chain.clone(), event: self.event }
    }
}

/// What was constructed for a task, by the handles under which the caller
/// keeps it.
#[derive(Clone, Copy, Debug, PartialEq, Eq, Structural)]
pub enum TaskBody {
    Sync { label: EventLabel, engine: u64, cursor: u64 },
    Metrics { updater: u64 },
}

/// A task that is constructed in full and not started yet.
#[derive(Clone, Copy, Debug, PartialEq, Eq, Structural)]
pub struct BuiltTask {
    pub domain: u32,
    pub body: TaskBody,
}

impl BuiltTask {
    pub open spec fn kind(self) -> TaskKind {
        match self.body {
            TaskBody::Sync { label, .. } => TaskKind::Sync(label),
            TaskBody::Metrics { .. } => TaskKind::Metrics,
        }
    }

    pub fn task_kind(&self) -> (kind: TaskKind)
        ensures
            kind == self.kind(),
    {
        match self.body {
            TaskBody::Sync { label, .. } => TaskKind::Sync(label),
            TaskBody::Metrics { .. } => TaskKind::Metrics,
        }
    }
}

/// A running task: the handle that the scheduler gave, and where the task
/// comes from.
#[derive(Debug, PartialEq, Eq)]
pub struct SpawnedTask {
    pub handle: u64,
    pub domain: u32,
    pub label: TaskLabel,
}

impl Clone for SpawnedTask {
    fn clone(&self) -> (copy: Self)
        ensures
            copy == *self,
    {
        SpawnedTask { handle: self.handle, domain: self.domain, label: self.label.clone() }
    }
}

/// The kinds of the tasks of one chain are four, each in its own place.
pub proof fn lemma_task_kinds()
    ensures
        forall|kind: TaskKind| 0 <= #[trigger] kind.slot() < TASKS_PER_CHAIN && TaskKind::at(kind.slot()) == kind,
        forall|slot: int| 0 <= slot < TASKS_PER_CHAIN ==> (#[trigger] TaskKind::at(slot)).slot() == slot,
{
}

} // verus!
