//! Task executors: what runs a task, and what every such type does unless
//! it says otherwise.

use vstd::prelude::*;

verus! {

/// What a type does for a simple task unless it says otherwise. A type
/// that says otherwise may fail.
pub trait DefaultVLMTaskExecutor: Send + Sync {
    /// Runs the simple task, which is to do nothing, and succeeds.
    fn execute_simple_task_default(&self) -> (outcome: Result<(), String>)
        default_ensures
            outcome.is_ok(),
    {
        Ok(())
    }
}

/// What a type does for a task that is handed to it unless it says
/// otherwise.
pub trait DefaultVLMGenericTaskExecutor {
    /// Whether this executor runs every task that it is handed. It does
    /// unless its type says otherwise.
    open spec fn runs_every_task(&self) -> bool {
        true
    }

    /// Runs `task` once and hands back what it returned. A type that says
    /// otherwise may fail, but what it hands back is what the task returned,
    /// and it does not fail where it runs every task.
    fn execute_task_default<F, T>(&self, task: F) -> (outcome: Result<T, String>) where
        F: FnOnce() -> T,

        requires
            call_requires(task, ()),
        ensures
            outcome matches Ok(value) ==> call_ensures(task, (), value),
            self.runs_every_task() ==> outcome.is_ok(),
        default_ensures
            outcome.is_ok(),
    {
        Ok(task())
    }
}

/// A type that runs a simple task.
pub trait VLMTaskExecutor: Send + Sync {
    /// Runs the simple task.
    fn execute_simple_task(&self) -> Result<(), String>;
}

impl<T: DefaultVLMTaskExecutor> VLMTaskExecutor for T {
    /// Runs the simple task as `execute_simple_task_default` does.
    fn execute_simple_task(&self) -> (outcome: Result<(), String>)
        ensures
            call_ensures(T::execute_simple_task_default, (self,), outcome),
    {
        self.execute_simple_task_default()
    }
}

/// A type that runs a task that is handed to it.
pub trait VLMGenericTaskExecutor: VLMTaskExecutor {
    /// Runs `task` once and hands back what it returned, or says why it
    /// did not.
    fn execute_task<F, T>(&self, task: F) -> (outcome: Result<T, String>) where F: FnOnce() -> T
        requires
            call_requires(task, ()),
        ensures
            outcome matches Ok(value) ==> call_ensures(task, (), value),
    ;
}

impl<T: DefaultVLMGenericTaskExecutor + VLMTaskExecutor> VLMGenericTaskExecutor for T {
    /// Runs the task as `execute_task_default` does: what comes back is
    /// what the task returned, and it comes back where the executor runs
    /// every task.
    fn execute_task<F, U>(&self, task: F) -> (outcome: Result<U, String>) where F: FnOnce() -> U
        ensures
            self.runs_every_task() ==> outcome.is_ok(),
    {
        self.execute_task_default(task)
    }
}

} // verus!
