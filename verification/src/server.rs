use vstd::prelude::*;

use crate::worker::Application;

verus! {

/// Relies on num_cpus::get: the number of logical CPUs of this machine, at
/// least one.
#[verifier::external_body]
fn cpu_count() -> (r: usize)
    ensures
        1 <= r,
{
    num_cpus::get()
}

/// The server topology as configured before it runs: the shared
/// application instance, how many worker threads share the one
/// work-distribution queue, and how many listener threads run event loops
/// over the shared listening socket. The embedding that binds the socket
/// and spawns the threads takes the pieces out with `into_parts`.
pub struct Server<A> {
    application: A,
    worker_threads: usize,
    listener_threads: usize,
}

impl<A: Application> Server<A> {
    /// The application instance every worker thread will share.
    pub closed spec fn application_model(&self) -> A {
        self.application
    }

    /// How many worker threads the topology runs.
    pub closed spec fn worker_thread_count(&self) -> usize {
        self.worker_threads
    }

    /// How many listener threads the topology runs.
    pub closed spec fn listener_thread_count(&self) -> usize {
        self.listener_threads
    }

    /// A server for `application`: one worker thread and one listener
    /// thread per CPU unless configured otherwise.
    pub fn new(application: A) -> (r: Self)
        ensures
            r.application_model() == application,
            r.worker_thread_count() == r.listener_thread_count(),
            1 <= r.worker_thread_count(),
    {
        let cpus = cpu_count();
        Server { application, worker_threads: cpus, listener_threads: cpus }
    }

    /// Sets how many worker threads share the queue.
    pub fn worker_threads(self, value: usize) -> (r: Self)
        ensures
            r.worker_thread_count() == value,
            r.listener_thread_count() == self.listener_thread_count(),
            r.application_model() == self.application_model(),
    {
        let mut this = self;
        this.worker_threads = value;
        this
    }

    /// Sets how many listener threads run event loops over the shared
    /// socket.
    pub fn listener_threads(self, value: usize) -> (r: Self)
        ensures
            r.listener_thread_count() == value,
            r.worker_thread_count() == self.worker_thread_count(),
            r.application_model() == self.application_model(),
    {
        let mut this = self;
        this.listener_threads = value;
        this
    }

    /// Hands the configuration out, unchanged, to the embedding that binds
    /// the socket and spawns the threads: the application, then the worker
    /// count, then the listener count.
    pub fn into_parts(self) -> (r: (A, usize, usize))
        ensures
            r.0 == self.application_model(),
            r.1 == self.worker_thread_count(),
            r.2 == self.listener_thread_count(),
    {
        let Server { application, worker_threads, listener_threads } = self;
        (application, worker_threads, listener_threads)
    }
}

} // verus!
