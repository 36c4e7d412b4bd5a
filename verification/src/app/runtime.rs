//! The settings of the asynchronous runtime.

use vstd::prelude::*;
use vstd::string::*;

use crate::text::owned;

verus! {

/// How the runtime is built.
#[derive(Debug)]
pub struct RuntimeConfig {
    /// Worker threads; `None` for one per CPU core.
    pub worker_threads: Option<usize>,
    /// The name of the worker threads.
    pub thread_name: String,
    /// Whether the I/O driver is on.
    pub enable_io: bool,
    /// Whether the time driver is on.
    pub enable_time: bool,
}

impl Default for RuntimeConfig {
    fn default() -> (r: Self)
        ensures
            r.worker_threads is None,
            r.thread_name@ == "zeterm-worker"@,
            r.enable_io,
            r.enable_time,
    {
        RuntimeConfig {
            worker_threads: None,
            thread_name: owned("zeterm-worker"),
            enable_io: true,
            enable_time: true,
        }
    }
}

} // verus!
