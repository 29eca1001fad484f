//! A framework for simulating 1-dimensional linear and nonlinear transmission
//! lines with an explicit finite-difference time-domain (FDTD) scheme.
//!
//! The numeric kernels are generic over a [`Scalar`] arithmetic, so the
//! update equations are stated and proved once for every arithmetic that
//! honours the trait's laws; a binary chooses the concrete number type.

use vstd::prelude::*;

mod scalar;
mod simulation;
mod sink;

pub mod fdtd;
pub mod prelude;

pub use scalar::Scalar;
pub use sink::{NoProgress, PersistenceSink, ProgressSink, RecordingSink};
pub use simulation::{
    chunk_s, lemma_batching_reaches_trajectory, lemma_batching_transparent, run_fold_s,
    time_affine_ok, RunDescriptor, SaveSettings, SaveType, Simulation, SimulationDescriptor,
    SimulationParameters, SimulationState, STORE_BUDGET,
};

verus! {

/// Describes one batch a solver should compute.
pub struct ComputeDescriptor<'a, T> {
    /// The state the batch starts from; it becomes row 0.
    pub state: &'a SimulationState<T>,
    /// The parameters for the simulation.
    pub sim_params: SimulationParameters<T>,
    /// How many steps to advance.
    pub nsteps: usize,
}

/// Represents an error in the simulation.
#[derive(Debug)]
pub enum Error {
    /// A supplied state array does not have the length that the line's
    /// geometry demands.
    BadInit { array_name: String, input_length: usize, expected_length: usize },
    /// A solver failed while producing data.
    ComputationError(i32),
    /// The persistence collaborator failed; the run aborts before the
    /// in-memory state of the failing batch is committed.
    SinkFailure(String),
}

} // verus!
