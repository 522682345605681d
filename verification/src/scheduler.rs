//! Tasks and the default scheduler, which keeps its tasks in the order in
//! which they were added.

use crate::platform::PlatformError;
use vstd::prelude::*;

verus! {

/// A periodic task.
#[derive(Debug, Clone, Copy, PartialEq, Eq, Structural)]
pub struct Task {
    pub id: u32,
    pub priority: u8,
    pub period_ms: u32,
}

/// A scheduler that tasks can be added to and removed from.
pub trait Scheduler {
    fn add_task(&mut self, task: Task) -> Result<(), PlatformError>;

    fn remove_task(&mut self, task_id: u32) -> Result<(), PlatformError>;

    fn run(&mut self) -> Result<(), PlatformError>;
}

/// The tasks of `tasks` whose id is not `task_id`, in their order.
pub open spec fn without_task(tasks: Seq<Task>, task_id: u32) -> Seq<Task> {
    tasks.filter(|t: Task| t.id != task_id)
}

/// The default scheduler. Its view is the sequence of its tasks, oldest first.
pub struct DefaultScheduler {
    tasks: Vec<Task>,
}

impl View for DefaultScheduler {
    type V = Seq<Task>;

    closed spec fn view(&self) -> Seq<Task> {
        self.tasks@
    }
}

impl DefaultScheduler {
    /// A scheduler without tasks.
    pub fn new() -> (r: Self)
        ensures
            r@ == Seq::<Task>::empty(),
    {
        DefaultScheduler { tasks: Vec::new() }
    }

    /// The tasks, oldest first.
    pub fn tasks(&self) -> (r: &Vec<Task>)
        ensures
            r@ == self@,
    {
        &self.tasks
    }
}

impl Scheduler for DefaultScheduler {
    /// Adds `task` behind the tasks that are there already. An id may occur
    /// more than once.
    fn add_task(&mut self, task: Task) -> (r: Result<(), PlatformError>)
        ensures
            r is Ok,
            final(self)@ == old(self)@.push(task),
    {
        self.tasks.push(task);
        Ok(())
    }

    /// Removes every task with the id `task_id`; the others keep their order.
    fn remove_task(&mut self, task_id: u32) -> (r: Result<(), PlatformError>)
        ensures
            r is Ok,
            final(self)@ == without_task(old(self)@, task_id),
    {
        let ghost keep = |t: Task| t.id != task_id;
        let mut kept: Vec<Task> = Vec::new();
        let mut i: usize = 0;
        while i < self.tasks.len()
            invariant
                i <= self.tasks.len(),
                self.tasks@ == old(self).tasks@,
                keep == (|t: Task| t.id != task_id),
                kept@ == self.tasks@.take(i as int).filter(keep),
            decreases self.tasks.len() - i,
        {
            let task = self.tasks[i];
            proof {
                let before = self.tasks@.take(i as int);
                let one = seq![task];
                assert(self.tasks@.take(i + 1) =~= before + one);
                Seq::filter_distributes_over_add(before, one, keep);
                reveal_with_fuel(Seq::filter, 2);
                assert(one.drop_last() =~= Seq::<Task>::empty());
                assert(one.filter(keep) =~= if keep(task) { one } else { Seq::<Task>::empty() });
            }
            if task.id != task_id {
                kept.push(task);
            }
            i += 1;
        }
        proof {
            assert(self.tasks@.take(i as int) =~= self.tasks@);
        }
        self.tasks = kept;
        Ok(())
    }

    /// Runs the scheduler. No scheduling policy is defined: the tasks stay as
    /// they are.
    fn run(&mut self) -> (r: Result<(), PlatformError>)
        ensures
            r is Ok,
            final(self)@ == old(self)@,
    {
        Ok(())
    }
}

} // verus!
