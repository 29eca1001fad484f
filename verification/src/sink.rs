//! The injected collaborators of the simulation driver.
//!
//! Persistence and progress reporting are outside the numeric core: the
//! driver only decides *when* they are invoked and with *which* rows and
//! offsets. Both are therefore traits that the embedding program
//! implements; nothing is assumed about what an implementation does, so
//! everything proved of the driver holds for every implementation.

use vstd::prelude::*;
use crate::simulation::SaveType;

verus! {

/// Receives the rows that a run wants persisted.
///
/// Writes are keyed by a base row offset (returned by [`Self::begin_run`],
/// so an implementation can append to an existing store) plus the index of
/// the first row of the batch within this run.
pub trait PersistenceSink<T> {
    /// Called once per run, before any batch, when saving is requested.
    ///
    /// `nsteps` rows will follow in total, each `total_points + 1` voltages
    /// and `total_points` currents wide. Returns the base offsets at which
    /// this run's boundary series and full trajectories begin, or a message
    /// describing the failure.
    fn begin_run(
        &mut self,
        save_type: SaveType,
        overwrite: bool,
        nsteps: usize,
        total_points: usize,
        delta_z: T,
        delta_t: T,
    ) -> Result<(usize, usize), String>;

    /// Called once per batch with the new rows (the batch's input row is
    /// not repeated). `rows[k]` holds `(voltages, currents)` after step
    /// `start_index + k + 1` of the run; the boundary series of row `k`
    /// belongs at position `end_offset + start_index + k`, and the full
    /// trajectory, when requested, at `full_offset + start_index + k`.
    fn write_batch(
        &mut self,
        save_type: SaveType,
        voltages: &Vec<Vec<T>>,
        currents: &Vec<Vec<T>>,
        start_index: usize,
        end_offset: usize,
        full_offset: usize,
    ) -> Result<(), String>;
}

/// Receives a coarse notion of progress, for user feedback only.
pub trait ProgressSink {
    /// Called when a run of `total` steps begins.
    fn begin(&mut self, total: usize);

    /// Called after every completed step.
    fn advance(&mut self);

    /// Called when the run completes.
    fn finish(&mut self);
}

/// A progress sink that ignores everything.
pub struct NoProgress;

impl ProgressSink for NoProgress {
    fn begin(&mut self, total: usize) {
    }

    fn advance(&mut self) {
    }

    fn finish(&mut self) {
    }
}

/// A persistence sink that keeps every row it is handed, in memory.
///
/// It serves embeddings that want the trajectory itself, and tests that
/// observe how the driver batches its writes.
pub struct RecordingSink<T> {
    /// One entry per batch: the voltage rows the driver handed over.
    pub voltage_batches: Vec<Vec<Vec<T>>>,
    /// One entry per batch: the current rows the driver handed over.
    pub current_batches: Vec<Vec<Vec<T>>>,
    /// The `start_index` of each write, in order.
    pub starts: Vec<usize>,
    /// How many times `begin_run` was called.
    pub runs: usize,
}

impl<T: Copy> RecordingSink<T> {
    /// An empty recorder.
    pub fn new() -> (r: RecordingSink<T>)
        ensures
            r.voltage_batches@.len() == 0,
            r.current_batches@.len() == 0,
            r.starts@.len() == 0,
            r.runs == 0,
    {
        RecordingSink {
            voltage_batches: Vec::new(),
            current_batches: Vec::new(),
            starts: Vec::new(),
            runs: 0,
        }
    }
}

impl<T: Copy> PersistenceSink<T> for RecordingSink<T> {
    fn begin_run(
        &mut self,
        save_type: SaveType,
        overwrite: bool,
        nsteps: usize,
        total_points: usize,
        delta_z: T,
        delta_t: T,
    ) -> Result<(usize, usize), String> {
        self.runs = self.runs.wrapping_add(1);
        Ok((0, 0))
    }

    fn write_batch(
        &mut self,
        save_type: SaveType,
        voltages: &Vec<Vec<T>>,
        currents: &Vec<Vec<T>>,
        start_index: usize,
        end_offset: usize,
        full_offset: usize,
    ) -> Result<(), String> {
        let mut vrows: Vec<Vec<T>> = Vec::new();
        let mut crows: Vec<Vec<T>> = Vec::new();
        let mut k: usize = 0;
        while k < voltages.len()
            decreases voltages.len() - k,
        {
            vrows.push(clone_row(&voltages[k]));
            k = k + 1;
        }
        let mut j: usize = 0;
        while j < currents.len()
            decreases currents.len() - j,
        {
            crows.push(clone_row(&currents[j]));
            j = j + 1;
        }
        self.voltage_batches.push(vrows);
        self.current_batches.push(crows);
        self.starts.push(start_index);
        Ok(())
    }
}

/// Copies a row of scalars.
pub fn clone_row<T: Copy>(row: &Vec<T>) -> (r: Vec<T>)
    ensures
        r@ == row@,
{
    let mut out: Vec<T> = Vec::new();
    let mut k: usize = 0;
    while k < row.len()
        invariant
            k <= row.len(),
            out@ == row@.subrange(0, k as int),
        decreases row.len() - k,
    {
        out.push(row[k]);
        proof {
            assert(out@ == row@.subrange(0, k as int + 1));
        }
        k = k + 1;
    }
    proof {
        assert(row@.subrange(0, row@.len() as int) == row@);
    }
    out
}

} // verus!
