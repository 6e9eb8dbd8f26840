//! Counters of model generations, cache hits and generated tool calls.

use vstd::prelude::*;

verus! {

/// Totals over all generations of a session.
#[derive(Debug, Clone)]
pub struct SdkMetrics {
    pub total_generations: u64,
    pub total_generation_time_ms: u64,
    pub cache_hits: u64,
    pub tools_total_generated: u64,
    pub max_tools_per_generation: u64,
}

impl SdkMetrics {
    /// The totals after one more generation of the given duration and tool
    /// count.
    pub open spec fn with_generation(self, generation_time_ms: u64, tools_count: u64) -> SdkMetrics {
        SdkMetrics {
            total_generations: (self.total_generations + 1) as u64,
            total_generation_time_ms: (self.total_generation_time_ms + generation_time_ms) as u64,
            cache_hits: self.cache_hits,
            tools_total_generated: (self.tools_total_generated + tools_count) as u64,
            max_tools_per_generation: if tools_count > self.max_tools_per_generation {
                tools_count
            } else {
                self.max_tools_per_generation
            },
        }
    }

    /// The counters have room for one more generation of the given
    /// duration and tool count.
    pub open spec fn has_room_for(self, generation_time_ms: u64, tools_count: u64) -> bool {
        &&& self.total_generations < u64::MAX
        &&& self.total_generation_time_ms + generation_time_ms <= u64::MAX
        &&& self.tools_total_generated + tools_count <= u64::MAX
    }

    /// The mean generation time, rounded down; zero before the first
    /// generation.
    pub open spec fn spec_avg_generation_time_ms(self) -> u64 {
        if self.total_generations > 0 {
            self.total_generation_time_ms / self.total_generations
        } else {
            0
        }
    }

    /// The mean number of tools per generation, rounded down; zero before
    /// the first generation.
    pub open spec fn spec_avg_tools_per_generation(self) -> u64 {
        if self.total_generations > 0 {
            self.tools_total_generated / self.total_generations
        } else {
            0
        }
    }

    pub fn new() -> (r: Self)
        ensures
            r.total_generations == 0,
            r.total_generation_time_ms == 0,
            r.cache_hits == 0,
            r.tools_total_generated == 0,
            r.max_tools_per_generation == 0,
    {
        SdkMetrics {
            total_generations: 0,
            total_generation_time_ms: 0,
            cache_hits: 0,
            tools_total_generated: 0,
            max_tools_per_generation: 0,
        }
    }

    /// Whether the counters have room for one more generation of the given
    /// duration and tool count.
    pub fn can_record(&self, generation_time_ms: u64, tools_count: u64) -> (r: bool)
        ensures
            r == self.has_room_for(generation_time_ms, tools_count),
    {
        self.total_generations < u64::MAX && generation_time_ms <= u64::MAX
            - self.total_generation_time_ms && tools_count <= u64::MAX - self.tools_total_generated
    }

    /// Counts one generation.
    pub fn record_generation(&mut self, generation_time_ms: u64, tools_count: u64)
        requires
            old(self).has_room_for(generation_time_ms, tools_count),
        ensures
            *final(self) == old(self).with_generation(generation_time_ms, tools_count),
    {
        self.total_generations += 1;
        self.total_generation_time_ms += generation_time_ms;
        self.tools_total_generated += tools_count;
        if tools_count > self.max_tools_per_generation {
            self.max_tools_per_generation = tools_count;
        }
    }

    /// Counts one cache hit.
    pub fn record_cache_hit(&mut self)
        requires
            old(self).cache_hits < u64::MAX,
        ensures
            *final(self) == (SdkMetrics { cache_hits: (old(self).cache_hits + 1) as u64, ..*old(self) }),
    {
        self.cache_hits += 1;
    }

    pub fn avg_generation_time_ms(&self) -> (r: u64)
        ensures
            r == self.spec_avg_generation_time_ms(),
    {
        if self.total_generations > 0 {
            self.total_generation_time_ms / self.total_generations
        } else {
            0
        }
    }

    pub fn avg_tools_per_generation(&self) -> (r: u64)
        ensures
            r == self.spec_avg_tools_per_generation(),
    {
        if self.total_generations > 0 {
            self.tools_total_generated / self.total_generations
        } else {
            0
        }
    }
}

impl Default for SdkMetrics {
    fn default() -> (r: Self)
        ensures
            r.total_generations == 0,
            r.total_generation_time_ms == 0,
            r.cache_hits == 0,
            r.tools_total_generated == 0,
            r.max_tools_per_generation == 0,
    {
        SdkMetrics::new()
    }
}

/// The largest tool count of any generation is never below the count of
/// the generation just recorded, and never falls.
pub proof fn law_max_tools_is_monotone(metrics: SdkMetrics, generation_time_ms: u64, tools_count: u64)
    ensures
        metrics.with_generation(generation_time_ms, tools_count).max_tools_per_generation
            >= tools_count,
        metrics.with_generation(generation_time_ms, tools_count).max_tools_per_generation
            >= metrics.max_tools_per_generation,
{
}

} // verus!
