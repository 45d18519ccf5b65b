//! The process statistics sampler: aggregates CPU and memory usage over the
//! process tree rooted at a session's child.
//!
//! Percentages are held in hundredths of a percent. The walk is a work list
//! driven from outside: the sampler says which process to list next, the
//! caller runs the operating system's listing commands, parses them with
//! [`crate::statparse`], and feeds the children back. The depth is bounded
//! at [`MAX_LEVEL`] to guard against cycles in pathological process trees;
//! the root itself is excluded from the sums; sums and the count saturate
//! rather than overflow. A process that could not be read contributes zero —
//! partial data beats no data — and a sampler with no root at all finishes
//! with the zero-valued result, never an error.

use vstd::prelude::*;

verus! {

/// How deep below the root the walk descends at most.
pub const MAX_LEVEL: u32 = 10;

/// Addition on the count that stops at the top instead of overflowing.
pub open spec fn spec_sat_add_u32(a: u32, b: u32) -> u32 {
    if a + b > u32::MAX {
        u32::MAX
    } else {
        (a + b) as u32
    }
}

/// Addition on the sums that stops at the top instead of overflowing.
pub open spec fn spec_sat_add_u64(a: u64, b: u64) -> u64 {
    if a + b > u64::MAX {
        u64::MAX
    } else {
        (a + b) as u64
    }
}

fn sat_add_u32(a: u32, b: u32) -> (r: u32)
    ensures
        r == spec_sat_add_u32(a, b),
{
    match a.checked_add(b) {
        Some(x) => x,
        None => u32::MAX,
    }
}

fn sat_add_u64(a: u64, b: u64) -> (r: u64)
    ensures
        r == spec_sat_add_u64(a, b),
{
    match a.checked_add(b) {
        Some(x) => x,
        None => u64::MAX,
    }
}

/// The spec-level value of a [`StatResult`].
pub ghost struct StatResultView {
    pub total_children_count: u32,
    pub first_level_children_names: Seq<Seq<char>>,
    pub cpu_usage_centi: u64,
    pub mem_usage_centi: u64,
}

/// One statistics snapshot: how many processes run below the session's
/// child, the direct children's command names, and the summed CPU and
/// memory percentages of the whole subtree, in hundredths of a percent.
/// Recomputed on every request, never cached.
#[derive(Debug, Clone)]
pub struct StatResult {
    pub total_children_count: u32,
    pub first_level_children_names: Vec<String>,
    pub cpu_usage_centi: u64,
    pub mem_usage_centi: u64,
}

impl View for StatResult {
    type V = StatResultView;

    open spec fn view(&self) -> StatResultView {
        StatResultView {
            total_children_count: self.total_children_count,
            first_level_children_names: self.first_level_children_names@.map_values(
                |s: String| s@,
            ),
            cpu_usage_centi: self.cpu_usage_centi,
            mem_usage_centi: self.mem_usage_centi,
        }
    }
}

/// The zero-valued snapshot.
pub open spec fn spec_zero_stat() -> StatResultView {
    StatResultView {
        total_children_count: 0,
        first_level_children_names: Seq::empty(),
        cpu_usage_centi: 0,
        mem_usage_centi: 0,
    }
}

impl Default for StatResult {
    /// The zero-valued snapshot: no children, no names, no usage.
    fn default() -> (r: Self)
        ensures
            r@ == spec_zero_stat(),
    {
        let r = StatResult {
            total_children_count: 0,
            first_level_children_names: Vec::new(),
            cpu_usage_centi: 0,
            mem_usage_centi: 0,
        };
        assert(r@.first_level_children_names =~= Seq::<Seq<char>>::empty());
        r
    }
}

/// Builds a [`StatResult`] field by field.
pub struct StatResultBuilder {
    pub total_children_count: u32,
    pub first_level_children_names: Vec<String>,
    pub cpu_usage_centi: u64,
    pub mem_usage_centi: u64,
}

impl StatResultBuilder {
    /// A builder holding the zero-valued snapshot.
    pub fn new() -> (r: Self)
        ensures
            r.total_children_count == 0,
            r.first_level_children_names@.len() == 0,
            r.cpu_usage_centi == 0,
            r.mem_usage_centi == 0,
    {
        StatResultBuilder {
            total_children_count: 0,
            first_level_children_names: Vec::new(),
            cpu_usage_centi: 0,
            mem_usage_centi: 0,
        }
    }

    /// Sets the CPU usage, in hundredths of a percent.
    pub fn cpu_usage(self, cpu_usage_centi: u64) -> (r: Self)
        ensures
            r.cpu_usage_centi == cpu_usage_centi,
            r.mem_usage_centi == self.mem_usage_centi,
            r.total_children_count == self.total_children_count,
            r.first_level_children_names == self.first_level_children_names,
    {
        StatResultBuilder { cpu_usage_centi, ..self }
    }

    /// Sets the memory usage, in hundredths of a percent.
    pub fn mem_usage(self, mem_usage_centi: u64) -> (r: Self)
        ensures
            r.mem_usage_centi == mem_usage_centi,
            r.cpu_usage_centi == self.cpu_usage_centi,
            r.total_children_count == self.total_children_count,
            r.first_level_children_names == self.first_level_children_names,
    {
        StatResultBuilder { mem_usage_centi, ..self }
    }

    /// The finished snapshot, field for field.
    pub fn build(self) -> (r: StatResult)
        ensures
            r.total_children_count == self.total_children_count,
            r.first_level_children_names == self.first_level_children_names,
            r.cpu_usage_centi == self.cpu_usage_centi,
            r.mem_usage_centi == self.mem_usage_centi,
    {
        StatResult {
            total_children_count: self.total_children_count,
            first_level_children_names: self.first_level_children_names,
            cpu_usage_centi: self.cpu_usage_centi,
            mem_usage_centi: self.mem_usage_centi,
        }
    }
}

/// The spec-level value of a [`ChildProcessStat`].
pub ghost struct ChildStatView {
    pub pid: u32,
    pub name: Seq<char>,
    pub cpu_centi: u64,
    pub mem_centi: u64,
}

/// One child process as the caller read it from the operating system: its
/// process id, command name, and instantaneous CPU and memory percentages
/// in hundredths.
#[derive(Debug, Clone)]
pub struct ChildProcessStat {
    pub pid: u32,
    pub name: String,
    pub cpu_centi: u64,
    pub mem_centi: u64,
}

impl View for ChildProcessStat {
    type V = ChildStatView;

    open spec fn view(&self) -> ChildStatView {
        ChildStatView {
            pid: self.pid,
            name: self.name@,
            cpu_centi: self.cpu_centi,
            mem_centi: self.mem_centi,
        }
    }
}

/// The spec-level state of a [`StatSampler`]: the work list of (process id,
/// level) pairs still to expand, and the accumulators.
pub ghost struct SamplerView {
    pub queue: Seq<(u32, u32)>,
    pub total_children_count: u32,
    pub first_level_children_names: Seq<Seq<char>>,
    pub cpu_usage_centi: u64,
    pub mem_usage_centi: u64,
}

/// A fresh sampler: the root, if known, queued at level 1; all accumulators
/// zero.
pub open spec fn spec_sampler_init(root: Option<u32>) -> SamplerView {
    SamplerView {
        queue: match root {
            Some(p) => seq![(p, 1u32)],
            None => Seq::empty(),
        },
        total_children_count: 0,
        first_level_children_names: Seq::empty(),
        cpu_usage_centi: 0,
        mem_usage_centi: 0,
    }
}

/// Absorbing one listed child at the given level: it is counted, its usage
/// is added saturating, its name is recorded when it is a direct child of
/// the root, and it is queued for expansion when the next level is still
/// within [`MAX_LEVEL`].
pub open spec fn spec_absorb_one(m: SamplerView, level: u32, c: ChildStatView) -> SamplerView {
    SamplerView {
        queue: if level < MAX_LEVEL {
            m.queue.push((c.pid, (level + 1) as u32))
        } else {
            m.queue
        },
        total_children_count: spec_sat_add_u32(m.total_children_count, 1),
        first_level_children_names: if level == 1 {
            m.first_level_children_names.push(c.name)
        } else {
            m.first_level_children_names
        },
        cpu_usage_centi: spec_sat_add_u64(m.cpu_usage_centi, c.cpu_centi),
        mem_usage_centi: spec_sat_add_u64(m.mem_usage_centi, c.mem_centi),
    }
}

/// Absorbing a whole child list, in order.
pub open spec fn spec_absorb(m: SamplerView, level: u32, children: Seq<ChildStatView>) -> SamplerView
    decreases children.len(),
{
    if children.len() == 0 {
        m
    } else {
        spec_absorb(spec_absorb_one(m, level, children.first()), level, children.drop_first())
    }
}

/// The spec-level children of a child list.
pub open spec fn spec_children_views(s: Seq<ChildProcessStat>) -> Seq<ChildStatView> {
    s.map_values(|c: ChildProcessStat| c@)
}

/// The work-list walker behind `fetch_statistics`: the caller repeatedly
/// takes [`StatSampler::next_pid`], lists that process's children, and
/// feeds them back, until no work is left.
pub struct StatSampler {
    queue: Vec<(u32, u32)>,
    total_children_count: u32,
    first_level_children_names: Vec<String>,
    cpu_usage_centi: u64,
    mem_usage_centi: u64,
}

impl View for StatSampler {
    type V = SamplerView;

    closed spec fn view(&self) -> SamplerView {
        SamplerView {
            queue: self.queue@,
            total_children_count: self.total_children_count,
            first_level_children_names: self.first_level_children_names@.map_values(
                |s: String| s@,
            ),
            cpu_usage_centi: self.cpu_usage_centi,
            mem_usage_centi: self.mem_usage_centi,
        }
    }
}

impl StatSampler {
    /// A fresh sampler for the given root: with no known root process there
    /// is nothing to walk, and the sampler is born finished with zeros.
    pub fn new(root: Option<u32>) -> (r: StatSampler)
        ensures
            r@ == spec_sampler_init(root),
    {
        let mut queue: Vec<(u32, u32)> = Vec::new();
        match root {
            Some(p) => {
                queue.push((p, 1));
            },
            None => {},
        }
        let r = StatSampler {
            queue,
            total_children_count: 0,
            first_level_children_names: Vec::new(),
            cpu_usage_centi: 0,
            mem_usage_centi: 0,
        };
        proof {
            assert(r@.queue =~= spec_sampler_init(root).queue);
            assert(r@.first_level_children_names =~= Seq::<Seq<char>>::empty());
        }
        r
    }

    /// The process whose children are to be listed next, while work is
    /// left.
    pub fn next_pid(&self) -> (r: Option<u32>)
        ensures
            self@.queue.len() > 0 ==> r == Some(self@.queue.last().0),
            self@.queue.len() == 0 ==> r is None,
    {
        if self.queue.len() == 0 {
            None
        } else {
            let entry = self.queue[self.queue.len() - 1];
            Some(entry.0)
        }
    }

    /// Absorbs the listed children of the process last handed out: that
    /// work item is taken off the list and every child is counted, summed,
    /// recorded by name at the first level, and queued for expansion within
    /// the depth bound.
    pub fn feed_children(&mut self, children: &Vec<ChildProcessStat>)
        requires
            old(self)@.queue.len() > 0,
        ensures
            final(self)@ == spec_absorb(
                SamplerView { queue: old(self)@.queue.drop_last(), ..old(self)@ },
                old(self)@.queue.last().1,
                spec_children_views(children@),
            ),
    {
        let entry = match self.queue.pop() {
            Some(e) => e,
            None => {
                proof {
                    assert(false);
                }
                (0, 0)
            },
        };
        let level = entry.1;
        let ghost start = self@;
        let ghost all = spec_children_views(children@);
        let n: usize = children.len();
        let mut i: usize = 0;
        assert(all.skip(0) =~= all);
        while i < n
            invariant
                n == children@.len(),
                n == all.len(),
                all == spec_children_views(children@),
                i <= n,
                spec_absorb(start, level, all) == spec_absorb(self@, level, all.skip(i as int)),
            decreases n - i,
        {
            proof {
                let rest = all.skip(i as int);
                assert(rest.first() == all[i as int]);
                assert(rest.drop_first() =~= all.skip(i + 1 as int));
                assert(all[i as int] == children@[i as int]@);
            }
            let c = &children[i];
            let ghost before = self@;
            if level < MAX_LEVEL {
                self.queue.push((c.pid, level + 1));
            }
            self.total_children_count = sat_add_u32(self.total_children_count, 1);
            if level == 1 {
                self.first_level_children_names.push(c.name.clone());
                proof {
                    assert(self@.first_level_children_names
                        =~= before.first_level_children_names.push(c.name@));
                }
            }
            self.cpu_usage_centi = sat_add_u64(self.cpu_usage_centi, c.cpu_centi);
            self.mem_usage_centi = sat_add_u64(self.mem_usage_centi, c.mem_centi);
            proof {
                assert(self@ == spec_absorb_one(before, level, all[i as int]));
            }
            i = i + 1;
        }
        assert(all.skip(n as int) =~= Seq::<ChildStatView>::empty());
    }

    /// Whether the walk is complete.
    pub fn is_done(&self) -> (r: bool)
        ensures
            r == (self@.queue.len() == 0),
    {
        self.queue.len() == 0
    }

    /// The finished snapshot: the accumulators, as they stand, as a
    /// [`StatResult`]. Never an error; a sampler that absorbed nothing
    /// yields the zero-valued snapshot.
    pub fn into_result(self) -> (r: StatResult)
        ensures
            r@.total_children_count == self@.total_children_count,
            r@.first_level_children_names == self@.first_level_children_names,
            r@.cpu_usage_centi == self@.cpu_usage_centi,
            r@.mem_usage_centi == self@.mem_usage_centi,
    {
        StatResult {
            total_children_count: self.total_children_count,
            first_level_children_names: self.first_level_children_names,
            cpu_usage_centi: self.cpu_usage_centi,
            mem_usage_centi: self.mem_usage_centi,
        }
    }
}

/// Law: statistics on a session with no known child process are the
/// zero-valued snapshot: the fresh sampler has nothing to walk, so its
/// accumulators stand at zero and its result is zero-valued, never an
/// error.
pub proof fn lemma_stats_no_pid_zero()
    ensures
        spec_sampler_init(None).queue.len() == 0,
        spec_sampler_init(None).total_children_count == spec_zero_stat().total_children_count,
        spec_sampler_init(None).first_level_children_names
            == spec_zero_stat().first_level_children_names,
        spec_sampler_init(None).cpu_usage_centi == spec_zero_stat().cpu_usage_centi,
        spec_sampler_init(None).mem_usage_centi == spec_zero_stat().mem_usage_centi,
{
}

} // verus!
