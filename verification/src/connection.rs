//! One session's connection: the stop flag that it shares with its task, and
//! the handle by which the task can be aborted.

use std::sync::atomic::AtomicBool;
use std::sync::atomic::Ordering;
use std::sync::Arc;
use vstd::prelude::*;

verus! {

/// A handle on a spawned task of the runtime. What it holds is the runtime's
/// business.
#[verifier::external_type_specification]
#[verifier::external_body]
#[verifier::reject_recursive_types(T)]
pub struct ExJoinHandle<T>(tokio::task::JoinHandle<T>);

/// How a task that did not run to its end has ended. Awaiting a handle
/// yields it, so the handle's type cannot be read without it; nothing here
/// reads it.
#[verifier::external_type_specification]
#[verifier::external_body]
pub struct ExJoinError(tokio::task::JoinError);

/// `JoinHandle::abort` asks the runtime to cancel the task. It returns at
/// once and nothing, whether or not the task has already ended, so nothing
/// is claimed of it.
pub assume_specification<T>[ tokio::task::JoinHandle::<T>::abort ](
    handle: &tokio::task::JoinHandle<T>,
);

/// A session's connection: its stop flag and the handle of its task.
///
/// The flag is one allocation with more than one owner. The connection
/// keeps one and hands another to the session's task; either may set or
/// clear it at any time, so what a read of it returns is not known
/// beforehand. `shared_flag` names the flag itself, not what it holds.
///
/// The task looks at the flag before it awaits each chunk; the handle is the
/// fail-safe for a task that never gets to look.
pub struct SseConnection {
    running: Arc<AtomicBool>,
    abort_handle: Option<tokio::task::JoinHandle<()>>,
}

impl SseConnection {
    /// The handle that the connection holds, if it holds one.
    pub closed spec fn task(&self) -> Option<tokio::task::JoinHandle<()>> {
        self.abort_handle
    }

    /// Whether the connection holds the handle of a task.
    pub open spec fn has_task(&self) -> bool {
        self.task() is Some
    }

    /// A connection without a task, whose flag is clear.
    pub fn new() -> (c: SseConnection)
        ensures
            !c.has_task(),
    {
        SseConnection { running: Arc::new(AtomicBool::new(false)), abort_handle: None }
    }

    /// Sets the flag: the session is running.
    pub fn mark_running(&self) {
        self.running.store(true, Ordering::SeqCst);
    }

    /// The flag as it stands now. The task clears it when its stream ends,
    /// so two reads may differ.
    pub fn is_running(&self) -> bool {
        self.running.load(Ordering::SeqCst)
    }

    /// Another owner of the connection's own flag, for the task to share.
    pub fn flag(&self) -> (shared: Arc<AtomicBool>)
        ensures
            shared == self.shared_flag(),
    {
        share(&self.running)
    }

    /// The flag that the connection shares with its task. It is the same
    /// flag for as long as the connection lasts.
    pub closed spec fn shared_flag(&self) -> Arc<AtomicBool> {
        self.running
    }

    /// Takes the handle of the task that was spawned for this connection, in
    /// place of the one that it held if it held one.
    pub fn attach(&mut self, handle: tokio::task::JoinHandle<()>)
        ensures
            final(self).task() == Some(handle),
            final(self).shared_flag() == old(self).shared_flag(),
    {
        self.abort_handle = Some(handle);
    }

    /// Whether the connection holds the handle of a task.
    pub fn is_attached(&self) -> (r: bool)
        ensures
            r == self.has_task(),
    {
        self.abort_handle.is_some()
    }

    /// Stops the connection in two phases: clears the flag, so that the task
    /// ends by itself when it next looks, then aborts the task whatever it
    /// does. The handle is given up.
    pub fn stop(&mut self)
        ensures
            !final(self).has_task(),
            final(self).shared_flag() == old(self).shared_flag(),
    {
        self.running.store(false, Ordering::SeqCst);
        let handle = self.abort_handle.take();
        match handle {
            Some(task) => {
                task.abort();
            },
            None => {},
        }
    }
}

/// Another owner of `flag`, by `Arc::clone`, which makes another pointer to
/// the same allocation: what the result points to is what `flag` points to.
#[verifier::external_body]
fn share(flag: &Arc<AtomicBool>) -> (r: Arc<AtomicBool>)
    ensures
        r == *flag,
{
    Arc::clone(flag)
}

} // verus!
