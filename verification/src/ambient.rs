//! The ambient spawn context: thread-scoped state that lets code without
//! a direct executor handle enqueue new tasks.

use crate::executor::{MiniTokio, Op, Task};
use crate::suspend::Suspendable;
use crate::ExecError;
use vstd::prelude::*;

verus! {

/// The binding one thread holds: either no executor has been entered, or
/// the running executor's enqueue path is bound.
///
/// A real runtime keeps one such binding per OS thread (the classic
/// thread-local "current executor" cell). Here the binding is passed
/// explicitly: its presence is the state, and the queue itself is
/// reached through the executor argument of [`spawn`]. A context made
/// on one thread is never visible on another — each thread starts from
/// [`AmbientContext::new`], so code on a thread that never entered sees
/// no binding.
#[derive(Clone, Copy, PartialEq, Eq, Structural, Debug)]
pub struct AmbientContext {
    /// Whether an executor has been entered on this thread.
    pub entered: bool,
}

impl AmbientContext {
    /// The state of a thread on which no executor was entered.
    pub fn new() -> (c: AmbientContext)
        ensures
            c == (AmbientContext { entered: false }),
    {
        AmbientContext { entered: false }
    }

    /// Binds the ambient context to the running executor.
    pub fn enter(&mut self)
        ensures
            *final(self) == (AmbientContext { entered: true }),
    {
        self.entered = true;
    }
}

/// The ambient `spawn`: enqueues `op` on the executor the current
/// thread's context is bound to, exactly as
/// [`MiniTokio::spawn`] would. With no executor entered
/// this is a configuration error: nothing is spawned and
/// [`ExecError::NoExecutorEntered`] comes back.
pub fn spawn(ctx: &AmbientContext, op: Op, exec: &mut MiniTokio) -> (r: Result<(), ExecError>)
    requires
        old(exec).wf(),
        !op.done(),
    ensures
        final(exec).wf(),
        ctx.entered ==> r == Ok::<(), ExecError>(()) && final(exec).tasks@ == old(
            exec,
        ).tasks@.push(Task { id: old(exec).tasks@.len() as usize, op, completed: false })
            && final(exec).queue@ == old(exec).queue@.push(old(exec).tasks@.len() as usize),
        !ctx.entered ==> r == Err::<(), ExecError>(ExecError::NoExecutorEntered) && *final(exec)
            == *old(exec),
{
    if ctx.entered {
        Task::spawn(op, exec);
        Ok(())
    } else {
        Err(ExecError::NoExecutorEntered)
    }
}

} // verus!
