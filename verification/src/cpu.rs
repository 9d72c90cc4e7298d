//! CPU load from successive readings of the system's cumulative CPU times.
//!
//! Windows reports, overall and per core, how long the CPUs have been idle,
//! in kernel mode (idle time included) and in user mode. Between two
//! readings the load is the share of the elapsed time that was not idle. The
//! counters are subtracted with wrap-around, as the monitor does.
use vstd::prelude::*;

verus! {

/// `2^64`.
pub open spec fn wrap64() -> int {
    0x1_0000_0000_0000_0000
}

/// `a - b` wrapped into `0..2^64`, as `wrapping_sub` (then a cast to `u64`)
/// computes it.
pub open spec fn wrapped_diff(a: int, b: int) -> int {
    (a - b) % wrap64()
}

/// The busy and total time between two readings.
#[derive(Clone, Copy, PartialEq, Eq, Debug, Structural)]
pub struct LoadSample {
    /// Time not spent idle.
    pub active: u64,
    /// Kernel plus user time.
    pub total: u64,
}

/// The load between two readings, from the elapsed idle, kernel and user
/// times: `None` when no time elapsed (the total is zero). The busy time is
/// the total less the idle time, and never below zero.
pub open spec fn load_between(idle: int, kernel: int, user: int) -> Option<LoadSample> {
    let total = (kernel + user) % wrap64();
    if total > 0 {
        Some(LoadSample { active: if total - idle > 0 { (total - idle) as u64 } else { 0 }, total: total as u64 })
    } else {
        None
    }
}

/// The 64-bit value of a `FILETIME` given as its two halves.
pub fn filetime_to_u64(low: u32, high: u32) -> (v: u64)
    ensures
        v as int == high as int * 0x1_0000_0000 + low as int,
{
    let h = high as u64;
    let l = low as u64;
    assert(((h << 32u64) | l) == h * 0x1_0000_0000 + l) by (bit_vector)
        requires
            h < 0x1_0000_0000,
            l < 0x1_0000_0000,
    ;
    (h << 32) | l
}

/// The cumulative times of one core, as the kernel reports them.
#[derive(Clone, Copy, PartialEq, Eq, Debug, Structural)]
pub struct CoreTimes {
    pub idle_time: i64,
    pub kernel_time: i64,
    pub user_time: i64,
}

/// The load of every core between two readings: for each core that both
/// readings cover (and at most `num_cores` of them), `None` when no time
/// elapsed on it.
pub open spec fn core_loads(
    num_cores: nat,
    last: Seq<CoreTimes>,
    current: Seq<CoreTimes>,
) -> Seq<Option<LoadSample>> {
    let n = if num_cores <= last.len() && num_cores <= current.len() {
        num_cores
    } else if last.len() <= current.len() {
        last.len()
    } else {
        current.len()
    };
    Seq::new(
        n,
        |i: int|
            load_between(
                wrapped_diff(current[i].idle_time as int, last[i].idle_time as int),
                wrapped_diff(current[i].kernel_time as int, last[i].kernel_time as int),
                wrapped_diff(current[i].user_time as int, last[i].user_time as int),
            ),
    )
}

/// The loads that one refresh measures.
pub struct CpuLoad {
    /// The load of all CPUs together; `None` leaves the previous value.
    pub overall: Option<LoadSample>,
    /// The load of each core; `None` counts as no load.
    pub cores: Vec<Option<LoadSample>>,
}

/// The previous readings, from which the next refresh measures.
pub struct CpuTracker {
    num_cores: usize,
    last_idle: u64,
    last_kernel: u64,
    last_user: u64,
    last_cores: Vec<CoreTimes>,
}

fn wrapping_diff_i64(a: i64, b: i64) -> (r: u64)
    ensures
        r as int == wrapped_diff(a as int, b as int),
{
    let w = a.wrapping_sub(b);
    assert((w as u64) as int == if w < 0 {
        w + 0x1_0000_0000_0000_0000
    } else {
        w as int
    }) by (bit_vector);
    w as u64
}

fn sample_of(idle: u64, kernel: u64, user: u64) -> (s: Option<LoadSample>)
    ensures
        s == load_between(idle as int, kernel as int, user as int),
{
    let total = kernel.wrapping_add(user);
    if total > 0 {
        let active = total.saturating_sub(idle);
        Some(LoadSample { active, total })
    } else {
        None
    }
}

impl CpuTracker {
    /// The number of cores tracked.
    pub closed spec fn spec_num_cores(&self) -> nat {
        self.num_cores as nat
    }

    /// The previous overall reading (idle, kernel, user).
    pub closed spec fn last_overall(&self) -> (u64, u64, u64) {
        (self.last_idle, self.last_kernel, self.last_user)
    }

    /// The previous per-core reading.
    pub closed spec fn last_cores(&self) -> Seq<CoreTimes> {
        self.last_cores@
    }

    /// A tracker whose first readings are the given ones.
    pub fn new(num_cores: usize, idle: u64, kernel: u64, user: u64, cores: Vec<CoreTimes>) -> (t: Self)
        ensures
            t.spec_num_cores() == num_cores,
            t.last_overall() == (idle, kernel, user),
            t.last_cores() == cores@,
    {
        CpuTracker { num_cores, last_idle: idle, last_kernel: kernel, last_user: user, last_cores: cores }
    }

    /// Measures the load since the previous readings and keeps the new ones.
    pub fn refresh(&mut self, idle: u64, kernel: u64, user: u64, cores: Vec<CoreTimes>) -> (l: CpuLoad)
        ensures
            l.overall == load_between(
                wrapped_diff(idle as int, old(self).last_overall().0 as int),
                wrapped_diff(kernel as int, old(self).last_overall().1 as int),
                wrapped_diff(user as int, old(self).last_overall().2 as int),
            ),
            l.cores@ == core_loads(old(self).spec_num_cores(), old(self).last_cores(), cores@),
            final(self).spec_num_cores() == old(self).spec_num_cores(),
            final(self).last_overall() == (idle, kernel, user),
            final(self).last_cores() == cores@,
    {
        let overall = sample_of(
            idle.wrapping_sub(self.last_idle),
            kernel.wrapping_sub(self.last_kernel),
            user.wrapping_sub(self.last_user),
        );
        let n = if self.num_cores <= self.last_cores.len() && self.num_cores <= cores.len() {
            self.num_cores
        } else if self.last_cores.len() <= cores.len() {
            self.last_cores.len()
        } else {
            cores.len()
        };
        let mut loads: Vec<Option<LoadSample>> = Vec::new();
        let mut i: usize = 0;
        while i < n
            invariant
                i <= n,
                n <= self.last_cores@.len(),
                n <= cores@.len(),
                n == core_loads(self.num_cores as nat, self.last_cores@, cores@).len(),
                loads@ == core_loads(self.num_cores as nat, self.last_cores@, cores@).subrange(0, i as int),
            decreases n - i,
        {
            let last = self.last_cores[i];
            let curr = cores[i];
            let s = sample_of(
                wrapping_diff_i64(curr.idle_time, last.idle_time),
                wrapping_diff_i64(curr.kernel_time, last.kernel_time),
                wrapping_diff_i64(curr.user_time, last.user_time),
            );
            loads.push(s);
            i += 1;
            assert(loads@ =~= core_loads(self.num_cores as nat, self.last_cores@, cores@).subrange(0, i as int));
        }
        assert(loads@ =~= core_loads(self.num_cores as nat, self.last_cores@, cores@));
        self.last_idle = idle;
        self.last_kernel = kernel;
        self.last_user = user;
        self.last_cores = cores;
        CpuLoad { overall, cores: loads }
    }
}

/// Law: a load sample never counts more busy time than elapsed time, so the
/// load it gives lies between 0 and 100 percent, and it has time elapsed.
/// (The idle time is a wrapped difference, never negative.)
pub proof fn law_load_within_total(idle: int, kernel: int, user: int)
    requires
        0 <= idle,
    ensures
        load_between(idle, kernel, user) matches Some(s) ==> s.active <= s.total && s.total > 0,
{
}

/// Law: the total of a load sample is the kernel plus user time elapsed
/// (wrapped into 64 bits); when the idle time elapsed is at most that total,
/// the busy time and the idle time add up to it, and otherwise nothing
/// counts as busy.
pub proof fn law_busy_plus_idle_is_total(idle: int, kernel: int, user: int)
    requires
        0 <= idle,
    ensures
        load_between(idle, kernel, user) matches Some(s) ==> {
            &&& s.total as int == (kernel + user) % 0x1_0000_0000_0000_0000
            &&& idle <= s.total ==> s.active + idle == s.total
            &&& idle > s.total ==> s.active == 0
        },
        (kernel + user) % 0x1_0000_0000_0000_0000 == 0 ==> load_between(idle, kernel, user) is None,
{
}

} // verus!
