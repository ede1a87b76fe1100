//! The dashboard's state: the RAM and CPU histories and the refresh loop.

use crate::chart::{project, project_spec, chart_view, ChartSpec, DISPLAY_SPAN};
use crate::run_loop::{next_phase, action_of, Action, Phase, RunLoop};
use crate::sampler::{
    cpu_percent, cpu_percent_spec, disk_usage, ram_percent, ram_percent_spec, DiskSpace, DiskUsage,
    cap_u64, sum_available, sum_total, sum_used,
};
use crate::window::{push_model, SlidingWindow, DEFAULT_CAPACITY};
use vstd::prelude::*;

verus! {

/// One round of raw readings from the metrics source. Memory is in bytes;
/// CPU utilisation is in basis points.
#[derive(Debug, PartialEq, Eq)]
pub struct Readings {
    pub total_memory: u64,
    pub used_memory: u64,
    pub cpu_usage: u64,
    pub disks: Vec<DiskSpace>,
}

/// What one tick derived from its readings; not kept past the tick.
#[derive(Clone, Copy, Debug, PartialEq, Eq)]
pub struct MetricSnapshot {
    pub total_memory: u64,
    pub used_memory: u64,
    pub ram_percent: u64,
    pub cpu_percent: u64,
    pub disk: DiskUsage,
}

/// The dashboard's long-lived state.
pub struct App {
    ram_history: SlidingWindow<u64>,
    cpu_history: SlidingWindow<u64>,
    run: RunLoop,
}

impl App {
    pub closed spec fn ram_view(&self) -> Seq<u64> {
        self.ram_history@
    }

    pub closed spec fn cpu_view(&self) -> Seq<u64> {
        self.cpu_history@
    }

    pub closed spec fn phase_view(&self) -> Phase {
        self.run@
    }

    pub closed spec fn wf(&self) -> bool {
        &&& self.ram_history.wf()
        &&& self.cpu_history.wf()
        &&& self.ram_history.spec_capacity() == DEFAULT_CAPACITY
        &&& self.cpu_history.spec_capacity() == DEFAULT_CAPACITY
    }

    /// Empty histories of the default capacity, about to take the first sample.
    pub fn new() -> (r: Self)
        ensures
            r.wf(),
            r.ram_view() == Seq::<u64>::empty(),
            r.cpu_view() == Seq::<u64>::empty(),
            r.phase_view() == Phase::Sampling,
    {
        App {
            ram_history: SlidingWindow::with_default_capacity(),
            cpu_history: SlidingWindow::with_default_capacity(),
            run: RunLoop::new(),
        }
    }

    /// Records the RAM percentage of a memory reading.
    pub fn push_ram_value(&mut self, used: u64, total: u64)
        requires
            old(self).wf(),
        ensures
            final(self).wf(),
            final(self).ram_view() == push_model(
                old(self).ram_view(),
                DEFAULT_CAPACITY as nat,
                ram_percent_spec(used as nat, total as nat) as u64,
            ),
            final(self).cpu_view() == old(self).cpu_view(),
            final(self).phase_view() == old(self).phase_view(),
    {
        let p = ram_percent(used, total);
        self.ram_history.push(p);
    }

    /// Records a CPU utilisation reading, in basis points.
    pub fn push_cpu_value(&mut self, reading: u64)
        requires
            old(self).wf(),
        ensures
            final(self).wf(),
            final(self).cpu_view() == push_model(
                old(self).cpu_view(),
                DEFAULT_CAPACITY as nat,
                cpu_percent_spec(reading as nat) as u64,
            ),
            final(self).ram_view() == old(self).ram_view(),
            final(self).phase_view() == old(self).phase_view(),
    {
        let p = cpu_percent(reading);
        self.cpu_history.push(p);
    }

    /// One sampling step: derives the percentages and disk totals from the
    /// readings and appends the two percentages to their histories.
    pub fn tick(&mut self, readings: &Readings) -> (r: MetricSnapshot)
        requires
            old(self).wf(),
        ensures
            final(self).wf(),
            r.total_memory == readings.total_memory,
            r.used_memory == readings.used_memory,
            r.ram_percent == ram_percent_spec(
                readings.used_memory as nat,
                readings.total_memory as nat,
            ),
            r.cpu_percent == cpu_percent_spec(readings.cpu_usage as nat),
            r.disk.total == cap_u64(sum_total(readings.disks@)),
            r.disk.used == cap_u64(sum_used(readings.disks@)),
            r.disk.available == cap_u64(sum_available(readings.disks@)),
            final(self).ram_view() == push_model(
                old(self).ram_view(),
                DEFAULT_CAPACITY as nat,
                r.ram_percent,
            ),
            final(self).cpu_view() == push_model(
                old(self).cpu_view(),
                DEFAULT_CAPACITY as nat,
                r.cpu_percent,
            ),
            final(self).phase_view() == old(self).phase_view(),
    {
        let ram = ram_percent(readings.used_memory, readings.total_memory);
        let cpu = cpu_percent(readings.cpu_usage);
        let disk = disk_usage(&readings.disks);
        self.ram_history.push(ram);
        self.cpu_history.push(cpu);
        MetricSnapshot {
            total_memory: readings.total_memory,
            used_memory: readings.used_memory,
            ram_percent: ram,
            cpu_percent: cpu,
            disk,
        }
    }

    /// The RAM history as a chart.
    pub fn ram_chart(&self) -> (r: ChartSpec)
        ensures
            chart_view(&r) == project_spec(self.ram_view(), DISPLAY_SPAN as nat),
    {
        project(&self.ram_history, DISPLAY_SPAN)
    }

    /// The CPU history as a chart.
    pub fn cpu_chart(&self) -> (r: ChartSpec)
        ensures
            chart_view(&r) == project_spec(self.cpu_view(), DISPLAY_SPAN as nat),
    {
        project(&self.cpu_history, DISPLAY_SPAN)
    }

    pub fn ram_history(&self) -> (r: &SlidingWindow<u64>)
        ensures
            r@ == self.ram_view(),
    {
        &self.ram_history
    }

    pub fn cpu_history(&self) -> (r: &SlidingWindow<u64>)
        ensures
            r@ == self.cpu_view(),
    {
        &self.cpu_history
    }

    /// The step the refresh loop is to perform now.
    pub fn action(&self) -> (r: Action)
        ensures
            r == action_of(self.phase_view()),
    {
        self.run.action()
    }

    /// Records that the current step was performed; after a poll, `key` is
    /// the key read, if one was.
    pub fn complete(&mut self, key: Option<char>)
        requires
            old(self).wf(),
        ensures
            final(self).wf(),
            final(self).phase_view() == next_phase(old(self).phase_view(), key),
            final(self).ram_view() == old(self).ram_view(),
            final(self).cpu_view() == old(self).cpu_view(),
    {
        self.run.complete(key);
    }

    /// Whether the quit key has ended the loop.
    pub fn exit(&self) -> (r: bool)
        ensures
            r == (self.phase_view() == Phase::Exiting),
    {
        !self.run.is_running()
    }
}

} // verus!
