//! Resource monitors: the sampling schedule of the CPU counter and the
//! reading of the memory load.
use vstd::prelude::*;

verus! {

/// Least time between two CPU samples, in nanoseconds.
pub const CPU_MIN_INTERVAL_NANOS: u64 = 100_000_000;

/// What a request for the CPU usage does.
#[derive(Debug, Clone, Copy, PartialEq, Eq, Structural)]
pub enum CpuStep {
    /// Too soon after the last sample: report zero.
    Throttled,
    /// The counter is not set up yet: open it, then report zero.
    Initialize,
    /// Collect a sample and read the counter.
    Sample,
}

/// State of the CPU usage counter: its query and counter handles, when it
/// last produced a value, and whether it is set up.
pub struct CpuMonitor {
    query: isize,
    counter: isize,
    last_nanos: u64,
    initialized: bool,
}

impl CpuMonitor {
    pub closed spec fn query_handle(self) -> isize {
        self.query
    }

    pub closed spec fn counter_handle(self) -> isize {
        self.counter
    }

    /// When the counter last produced a value (or was created), in nanoseconds
    /// on the caller's monotonic clock.
    pub closed spec fn last_time(self) -> u64 {
        self.last_nanos
    }

    pub closed spec fn is_initialized(self) -> bool {
        self.initialized
    }

    /// A counter that is not set up yet, created at `now_nanos`.
    pub fn new(now_nanos: u64) -> (m: Self)
        ensures
            m.query_handle() == 0,
            m.counter_handle() == 0,
            m.last_time() == now_nanos,
            !m.is_initialized(),
    {
        CpuMonitor { query: 0, counter: 0, last_nanos: now_nanos, initialized: false }
    }

    /// What a request for the usage at `now_nanos` does: nothing within
    /// `CPU_MIN_INTERVAL_NANOS` of the last value, else set up the counter
    /// where it is not, else take a sample.
    pub fn next_step(&self, now_nanos: u64) -> (step: CpuStep)
        ensures
            step == if now_nanos < self.last_time() + CPU_MIN_INTERVAL_NANOS {
                CpuStep::Throttled
            } else if !self.is_initialized() {
                CpuStep::Initialize
            } else {
                CpuStep::Sample
            },
    {
        if now_nanos < self.last_nanos || now_nanos - self.last_nanos < CPU_MIN_INTERVAL_NANOS {
            CpuStep::Throttled
        } else if !self.initialized {
            CpuStep::Initialize
        } else {
            CpuStep::Sample
        }
    }

    /// Records the outcome of setting up the counter at `now_nanos`: the query
    /// handle where the query opened, and the counter handle where a counter
    /// was added to it. The counter is set up only when both succeeded.
    pub fn finish_init(&mut self, query: Option<isize>, counter: Option<isize>, now_nanos: u64)
        ensures
            final(self).query_handle() == match query {
                Some(q) => q,
                None => old(self).query_handle(),
            },
            final(self).is_initialized() == (old(self).is_initialized() || (query is Some
                && counter is Some)),
            final(self).counter_handle() == if query is Some && counter is Some {
                counter->0
            } else {
                old(self).counter_handle()
            },
            final(self).last_time() == if query is Some && counter is Some {
                now_nanos
            } else {
                old(self).last_time()
            },
    {
        if let Some(q) = query {
            self.query = q;
            if let Some(c) = counter {
                self.counter = c;
                self.initialized = true;
                self.last_nanos = now_nanos;
            }
        }
    }

    /// Records a sample taken at `now_nanos`; only a successful one counts
    /// as the last value.
    pub fn finish_sample(&mut self, ok: bool, now_nanos: u64)
        ensures
            final(self).last_time() == if ok {
                now_nanos
            } else {
                old(self).last_time()
            },
            final(self).is_initialized() == old(self).is_initialized(),
            final(self).query_handle() == old(self).query_handle(),
            final(self).counter_handle() == old(self).counter_handle(),
    {
        if ok {
            self.last_nanos = now_nanos;
        }
    }

    /// The query handle.
    pub fn query(&self) -> (q: isize)
        ensures
            q == self.query_handle(),
    {
        self.query
    }

    /// The counter handle.
    pub fn counter(&self) -> (c: isize)
        ensures
            c == self.counter_handle(),
    {
        self.counter
    }

    /// Whether the query has to be closed when the monitor goes away: it is
    /// set up and its handle is not null.
    pub fn needs_close(&self) -> (b: bool)
        ensures
            b == (self.is_initialized() && self.query_handle() != 0),
    {
        self.initialized && self.query != 0
    }
}

/// Memory usage monitor.
pub struct MemoryMonitor;

impl MemoryMonitor {
    pub fn new() -> (m: Self) {
        MemoryMonitor
    }

    /// The memory load in percent from a call of `GlobalMemoryStatusEx`: the
    /// reported load where the call succeeded (returned non-zero), else zero.
    pub fn load_percent(&self, call_result: i32, memory_load: u32) -> (p: u32)
        ensures
            p == if call_result != 0 {
                memory_load
            } else {
                0
            },
    {
        if call_result != 0 {
            memory_load
        } else {
            0
        }
    }
}

impl Default for MemoryMonitor {
    fn default() -> (m: Self) {
        MemoryMonitor::new()
    }
}

} // verus!
