use vstd::prelude::*;

use crate::call_definition::{CallDefinition, call_blocks};
use crate::scope::ScopeTree;
use crate::value::{ArgumentDefinition, same_call};

verus! {

/// One pipeline stage: the call it runs.
#[derive(Debug)]
pub struct Job {
    pub call: CallDefinition,
}

impl Clone for Job {
    fn clone(&self) -> Self {
        self.copy()
    }
}

impl Job {
    /// A deep copy.
    pub fn copy(&self) -> (r: Job)
        ensures
            same_call(self.call, r.call),
        decreases self,
    {
        Job { call: self.call.copy() }
    }

    pub fn new(call: CallDefinition) -> (r: Job)
        ensures
            r.call == call,
    {
        Job { call }
    }

    /// The blocking analysis of the stage's call, looked up from `scope`.
    pub fn can_block(&self, arg: &Vec<ArgumentDefinition>, tree: &ScopeTree, scope: usize) -> (r: bool)
        requires
            tree.wf(),
            scope < tree@.len(),
        ensures
            r == call_blocks(*tree, scope as int, self.call, arg@, crate::call_definition::NESTING_LIMIT as nat),
    {
        self.call.can_block(arg, tree, scope)
    }
}

/// What a launch hands back to be joined: one unit of work that runs on its
/// own thread, or an aggregate of zero or more such handles.
#[derive(Debug)]
pub enum JobJoinHandle<H> {
    Async(H),
    Many(Vec<JobJoinHandle<H>>),
}

impl<H> JobJoinHandle<H> {
    /// The handle of work that already ran to completion on the calling
    /// thread: an aggregate with nothing left to wait for.
    pub fn completed() -> (r: JobJoinHandle<H>)
        ensures
            r is Many,
            r->Many_0@.len() == 0,
    {
        JobJoinHandle::Many(Vec::new())
    }

    /// The handle of one unit of work started on its own thread.
    pub fn spawned(handle: H) -> (r: JobJoinHandle<H>)
        ensures
            r == JobJoinHandle::Async(handle),
    {
        JobJoinHandle::Async(handle)
    }

    /// The handle of a launch: the work ran on the calling thread iff it was
    /// not blocking, and then there is nothing to wait for; otherwise the
    /// handle of the thread it was started on.
    pub fn for_launch(blocking: bool, thread: Option<H>) -> (r: JobJoinHandle<H>)
        requires
            blocking <==> thread is Some,
        ensures
            !blocking ==> r is Many && r->Many_0@.len() == 0,
            blocking ==> r == JobJoinHandle::Async(thread->Some_0),
    {
        match thread {
            Some(h) => JobJoinHandle::Async(h),
            None => JobJoinHandle::Many(Vec::new()),
        }
    }

    /// Whether joining this handle has nothing to wait for.
    pub fn is_done(&self) -> (r: bool)
        ensures
            r == (self is Many && self->Many_0@.len() == 0),
    {
        match self {
            JobJoinHandle::Many(v) => v.len() == 0,
            JobJoinHandle::Async(_) => false,
        }
    }
}

} // verus!
