//! The ordered sub-task queue driving top-level goal execution: a task list
//! produced by planning, a cursor over it, the results recorded so far (one
//! per processed task, in order), an optional parent task used as a fallback
//! label, and a completion flag.
//!
//! Recording a result is the sole mutator of ledger progress. The cursor only
//! moves forward, and once the completion flag is set it never resets. With a
//! task list of length `N > 0`, the `N`-th recorded result is the one that
//! sets the flag; with an empty task list the first recorded result sets it.

use vstd::prelude::*;

verus! {

/// The mathematical state of a [`TaskLedger`].
pub struct LedgerView {
    pub cursor: int,
    pub tasks: Seq<String>,
    pub results: Seq<String>,
    pub parent: Option<String>,
    pub done: bool,
}

impl LedgerView {
    /// Before completion the cursor counts exactly the recorded results and
    /// stays inside the task list (an empty list pins it at zero). After
    /// completion the cursor sits on the last processed position.
    pub open spec fn wf(self) -> bool {
        if !self.done {
            &&& self.results.len() == self.cursor
            &&& (self.cursor < self.tasks.len() || (self.cursor == 0 && self.tasks.len() == 0))
        } else {
            &&& self.cursor + 1 == self.results.len()
            &&& (if self.tasks.len() > 0 {
                self.cursor + 1 == self.tasks.len()
            } else {
                self.cursor == 0
            })
        }
    }
}

/// The state of a ledger freshly built from a task list.
pub open spec fn new_view(tasks: Seq<String>, parent: Option<String>) -> LedgerView {
    LedgerView { cursor: 0, tasks: tasks, results: Seq::empty(), parent: parent, done: false }
}

/// One result recorded: the result is appended; the cursor advances while
/// tasks remain ahead of it, otherwise the completion flag is set.
pub open spec fn step_view(v: LedgerView, task_result: String) -> LedgerView {
    if v.cursor + 1 < v.tasks.len() {
        LedgerView {
            cursor: v.cursor + 1,
            tasks: v.tasks,
            results: v.results.push(task_result),
            parent: v.parent,
            done: v.done,
        }
    } else {
        LedgerView {
            cursor: v.cursor,
            tasks: v.tasks,
            results: v.results.push(task_result),
            parent: v.parent,
            done: true,
        }
    }
}

/// The task under the cursor, if the cursor has not run past the list.
pub open spec fn current_of(v: LedgerView) -> Option<String> {
    if 0 <= v.cursor < v.tasks.len() {
        Some(v.tasks[v.cursor])
    } else {
        None
    }
}

/// A whole run: every result of `rs` recorded in order, starting from `v`.
pub open spec fn run_view(v: LedgerView, rs: Seq<String>) -> LedgerView
    decreases rs.len(),
{
    if rs.len() == 0 {
        v
    } else {
        step_view(run_view(v, rs.drop_last()), rs.last())
    }
}

/// Holds the ordered sub-task queue produced by planning, tracks the current
/// position, accumulates results, and decides overall completion.
pub struct TaskLedger {
    pub current_task: usize,
    pub task_list: Vec<String>,
    pub result_list: Vec<String>,
    pub parent_task: Option<String>,
    pub task_done: bool,
}

impl View for TaskLedger {
    type V = LedgerView;

    open spec fn view(&self) -> LedgerView {
        LedgerView {
            cursor: self.current_task as int,
            tasks: self.task_list@,
            results: self.result_list@,
            parent: self.parent_task,
            done: self.task_done,
        }
    }
}

impl TaskLedger {
    pub open spec fn wf(self) -> bool {
        self@.wf()
    }

    /// A fresh ledger: cursor at the start, no results, not done. The task
    /// list may be empty; `parent_task` serves callers as a fallback label
    /// once the list is exhausted.
    pub fn new(task_list: Vec<String>, parent_task: Option<String>) -> (r: TaskLedger)
        ensures
            r.wf(),
            r@ == new_view(task_list@, parent_task),
    {
        TaskLedger {
            current_task: 0,
            task_list,
            result_list: Vec::new(),
            parent_task,
            task_done: false,
        }
    }

    /// Appends the result and moves the ledger one step: the cursor advances
    /// while tasks remain ahead of it, otherwise the completion flag is set.
    /// Calling this on a completed ledger is a caller error, ruled out here
    /// rather than left to corrupt the state silently.
    pub fn record_result(&mut self, task_result: String)
        requires
            old(self).wf(),
            !old(self).task_done,
        ensures
            final(self).wf(),
            final(self)@ == step_view(old(self)@, task_result),
    {
        self.result_list.push(task_result);
        let n: usize = self.task_list.len();
        if n > 0 && self.current_task < n - 1 {
            self.current_task = self.current_task + 1;
        } else {
            self.task_done = true;
        }
    }

    /// The task at the cursor, or `None` once the cursor is past the end.
    pub fn current_task(&self) -> (r: Option<String>)
        ensures
            r == current_of(self@),
    {
        if self.current_task < self.task_list.len() {
            Some(self.task_list[self.current_task].clone())
        } else {
            None
        }
    }
}

/// For a non-empty task list of length `N`, recording results one by one
/// walks the cursor through the tasks in their original order with no skips
/// or repeats, keeps every recorded result in recording order, leaves the
/// completion flag clear through the first `N - 1` results, and the `N`-th
/// result is exactly the one that sets it.
pub proof fn lemma_ledger_follows_task_order(
    tasks: Seq<String>,
    parent: Option<String>,
    results: Seq<String>,
    k: int,
)
    requires
        0 < tasks.len(),
        results.len() <= tasks.len(),
        0 <= k <= results.len(),
    ensures
        ({
            let v = run_view(new_view(tasks, parent), results.take(k));
            &&& v.tasks == tasks
            &&& v.results == results.take(k)
            &&& v.parent == parent
            &&& (v.done <==> k == tasks.len())
            &&& (k < tasks.len() ==> v.cursor == k && current_of(v) == Some(tasks[k]))
        }),
    decreases k,
{
    if k == 0 {
        assert(results.take(0).len() == 0);
    } else {
        lemma_ledger_follows_task_order(tasks, parent, results, k - 1);
        let s = results.take(k);
        assert(s.drop_last() =~= results.take(k - 1));
        assert(s.last() == results[k - 1]);
    }
}

} // verus!
