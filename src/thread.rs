use vstd::prelude::*;

verus! {

/// Relies on rustix::thread::gettid: the kernel id of the calling thread,
/// a `Pid`, which is never zero.
#[verifier::external_body]
fn current_thread_id() -> (r: i32)
    ensures
        r != 0,
{
    rustix::thread::gettid().as_raw_nonzero().get()
}

/// Relies on rustix::process::getpid: the id of the calling process, a
/// `Pid`, which is never zero.
#[verifier::external_body]
fn current_process_id() -> (r: i32)
    ensures
        r != 0,
{
    rustix::process::getpid().as_raw_nonzero().get()
}

/// Whether a thread id names the main thread of the process with id `pid`:
/// on Linux the main thread's id is the process id.
pub fn is_main_thread_id(tid: i32, pid: i32) -> (r: bool)
    ensures
        r == (tid == pid),
{
    tid == pid
}

/// Whether the calling thread is the process's main thread.  Both ids
/// come from the kernel, so only `is_main_thread_id` states the rule.
pub fn is_main_thread() -> bool {
    let tid = current_thread_id();
    let pid = current_process_id();
    is_main_thread_id(tid, pid)
}

} // verus!
