//! The group that all tasks of the agent run in.
//!
//! Every member is meant to run for ever, so the first member that stops,
//! for whatever reason, decides the outcome of the whole group. The group
//! does not wait for the others: it names them, and the caller cancels them
//! or leaves them to the end of the process.

use crate::task::SpawnedTask;
use vstd::prelude::*;

verus! {

/// How a task stopped.
#[derive(Clone, Copy, Debug, PartialEq, Eq, Structural)]
pub enum TaskExit {
    /// It returned without an error.
    Finished,
    /// It returned an error.
    Failed,
    /// It panicked or was cancelled.
    Aborted,
}

/// The outcome of a group: which member stopped first, and how.
#[derive(Clone, Copy, Debug, PartialEq, Eq, Structural)]
pub struct GroupOutcome {
    /// The place of the member among the group's tasks.
    pub member: usize,
    pub exit: TaskExit,
}

impl GroupOutcome {
    /// A group succeeds only where its first member to stop returned without
    /// an error.
    pub open spec fn succeeded(self) -> bool {
        self.exit == TaskExit::Finished
    }

    pub fn is_ok(&self) -> (ok: bool)
        ensures
            ok == self.succeeded(),
    {
        match self.exit {
            TaskExit::Finished => true,
            _ => false,
        }
    }
}

/// The model of a group: its members in the order in which they joined, and
/// the outcome once a member has stopped.
pub struct TaskGroupView {
    pub tasks: Seq<SpawnedTask>,
    pub outcome: Option<GroupOutcome>,
}

impl TaskGroupView {
    /// An outcome names a member.
    pub open spec fn wf(self) -> bool {
        self.outcome matches Some(o) ==> o.member < self.tasks.len()
    }

    /// The group after the exit of one task was reported. Only the first exit
    /// of a member counts.
    pub open spec fn exited(self, member: usize, exit: TaskExit) -> TaskGroupView {
        if self.outcome.is_none() && member < self.tasks.len() {
            TaskGroupView { tasks: self.tasks, outcome: Some(GroupOutcome { member, exit }) }
        } else {
            self
        }
    }

    /// The group after a run of exits, reported in this order.
    pub open spec fn after(self, exits: Seq<(usize, TaskExit)>) -> TaskGroupView
        decreases exits.len(),
    {
        if exits.len() == 0 {
            self
        } else {
            self.exited(exits[0].0, exits[0].1).after(exits.skip(1))
        }
    }

    /// The handles of the members that the group no longer waits for: all but
    /// the one that stopped first, in the order in which they joined.
    pub open spec fn remaining(self) -> Seq<u64> {
        match self.outcome {
            Some(o) => Seq::new(
                (self.tasks.len() - 1) as nat,
                |j: int| self.tasks[if j < o.member { j } else { j + 1 }].handle,
            ),
            None => Seq::empty(),
        }
    }
}

/// A group of running tasks.
pub struct TaskGroup {
    tasks: Vec<SpawnedTask>,
    outcome: Option<GroupOutcome>,
}

impl View for TaskGroup {
    type V = TaskGroupView;

    closed spec fn view(&self) -> TaskGroupView {
        TaskGroupView { tasks: self.tasks@, outcome: self.outcome }
    }
}

impl TaskGroup {
    #[verifier::type_invariant]
    spec fn inv(self) -> bool {
        self@.wf()
    }

    /// Gathers running tasks into one group, of which none has stopped.
    pub fn run_all(tasks: Vec<SpawnedTask>) -> (group: TaskGroup)
        ensures
            group@ == (TaskGroupView { tasks: tasks@, outcome: None }),
            group@.wf(),
    {
        TaskGroup { tasks, outcome: None }
    }

    /// Reports that the task in place `member` has stopped. The first such
    /// report for a member decides the group; any other changes nothing.
    pub fn on_exit(&mut self, member: usize, exit: TaskExit)
        ensures
            final(self)@ == old(self)@.exited(member, exit),
            final(self)@.wf(),
    {
        proof {
            use_type_invariant(&*self);
        }
        if self.outcome.is_none() && member < self.tasks.len() {
            self.outcome = Some(GroupOutcome { member, exit });
        }
    }

    /// The outcome, once a member has stopped.
    pub fn outcome(&self) -> (outcome: Option<GroupOutcome>)
        ensures
            outcome == self@.outcome,
            self@.wf(),
    {
        proof {
            use_type_invariant(self);
        }
        self.outcome
    }

    /// The number of members.
    pub fn len(&self) -> (n: usize)
        ensures
            n == self@.tasks.len(),
    {
        self.tasks.len()
    }

    /// The member in place `member`.
    pub fn task(&self, member: usize) -> (task: Option<&SpawnedTask>)
        ensures
            task == if member < self@.tasks.len() {
                Some(&self@.tasks[member as int])
            } else {
                None
            },
    {
        if member < self.tasks.len() {
            Some(&self.tasks[member])
        } else {
            None
        }
    }

    /// The member whose exit decided the group.
    pub fn first_to_exit(&self) -> (task: Option<&SpawnedTask>)
        ensures
            self@.wf(),
            task == match self@.outcome {
                Some(o) => Some(&self@.tasks[o.member as int]),
                None => None,
            },
    {
        proof {
            use_type_invariant(self);
        }
        match self.outcome {
            Some(o) => Some(&self.tasks[o.member]),
            None => None,
        }
    }

    /// The handles of the members that are left to themselves once the group
    /// is decided.
    pub fn remaining(&self) -> (handles: Vec<u64>)
        ensures
            handles@ == self@.remaining(),
    {
        proof {
            use_type_invariant(self);
        }
        let mut handles: Vec<u64> = Vec::new();
        match self.outcome {
            None => {},
            Some(o) => {
                let mut i: usize = 0;
                while i < self.tasks.len()
                    invariant
                        i <= self.tasks.len(),
                        o.member < self.tasks.len(),
                        handles.len() == if i <= o.member {
                            i as int
                        } else {
                            i - 1
                        },
                        forall|j: int|
                            0 <= j < handles.len() ==> handles[j] == self.tasks[if j < o.member {
                                j
                            } else {
                                j + 1
                            }].handle,
                    decreases self.tasks.len() - i,
                {
                    if i != o.member {
                        handles.push(self.tasks[i].handle);
                    }
                    i += 1;
                }
            },
        }
        assert(handles@ =~= self@.remaining());
        handles
    }
}

/// Once a group is decided, no further exit changes it.
pub proof fn lemma_decided_is_final(group: TaskGroupView, exits: Seq<(usize, TaskExit)>)
    requires
        group.outcome.is_some(),
    ensures
        group.after(exits) == group,
    decreases exits.len(),
{
    if exits.len() > 0 {
        lemma_decided_is_final(group, exits.skip(1));
    }
}

/// Fail fast: the first member to stop decides the group, whatever its
/// exit was, and whatever the other members do before or after they are told.
pub proof fn lemma_first_exit_decides(
    group: TaskGroupView,
    member: usize,
    exit: TaskExit,
    later: Seq<(usize, TaskExit)>,
)
    requires
        group.outcome.is_none(),
        member < group.tasks.len(),
    ensures
        group.after(seq![(member, exit)] + later) == (TaskGroupView {
            tasks: group.tasks,
            outcome: Some(GroupOutcome { member, exit }),
        }),
{
    let exits = seq![(member, exit)] + later;
    assert(exits[0] == (member, exit));
    assert(exits.skip(1) =~= later);
    lemma_decided_is_final(group.exited(member, exit), later);
}

/// A group without a member that stops is never decided: exits of tasks that
/// are no members change nothing.
pub proof fn lemma_strangers_change_nothing(group: TaskGroupView, exits: Seq<(usize, TaskExit)>)
    requires
        forall|i: int| 0 <= i < exits.len() ==> (#[trigger] exits[i]).0 >= group.tasks.len(),
    ensures
        group.after(exits) == group,
    decreases exits.len(),
{
    if exits.len() > 0 {
        assert(exits[0].0 >= group.tasks.len());
        assert forall|i: int| 0 <= i < exits.skip(1).len() implies (#[trigger] exits.skip(1)[i]).0
            >= group.tasks.len() by {
            assert(exits.skip(1)[i] == exits[i + 1]);
        }
        lemma_strangers_change_nothing(group, exits.skip(1));
    }
}

} // verus!
