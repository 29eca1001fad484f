//! The FDTD kernels: line models, boundary models and the stepping solver.

pub mod components;

mod fdtd_solver;

pub use fdtd_solver::{time_at_s, FdtdSolver, FdtdSolverDescriptor};

use vstd::prelude::*;
use crate::scalar::Scalar;
use crate::simulation::SimulationParameters;
use components::{KiLine, LinearLine};

verus! {

/// The ratio of the spatial step to the temporal step.
pub open spec fn d_ratio_s<T: Scalar>(p: SimulationParameters<T>) -> T {
    p.delta_z.div_s(p.delta_t)
}

/// The midpoint position of cell `n` on a line of `npoints` cells:
/// `(n + 1/2)` spatial steps from the start.
pub open spec fn mid_s<T: Scalar>(n: int, length: T, npoints: usize) -> T {
    T::of_usize_s(n as usize).plus_s(T::half_s()).times_s(
        length.div_s(T::of_usize_s(npoints)),
    )
}

/// Whether `f` accepts every argument.
pub open spec fn total_fn<T, F: Fn(T) -> T>(f: F) -> bool {
    forall|t: T| call_requires(f, (t,))
}

/// Whether `f` relates each argument to at most one result: a pure
/// function of its input.
pub open spec fn deterministic<T, F: Fn(T) -> T>(f: F) -> bool {
    forall|t: T, r1: T, r2: T|
        call_ensures(f, (t,), r1) && call_ensures(f, (t,), r2) ==> r1 == r2
}

/// The value a deterministic `f` returns for `t`.
pub open spec fn gen_s<T, F: Fn(T) -> T>(f: F, t: T) -> T {
    choose|r: T| call_ensures(f, (t,), r)
}

/// The closed set of line models the solver advances.
pub enum TransmissionLine<T> {
    /// A linear RLGC line.
    Linear(LinearLine<T>),
    /// A nonlinear kinetic-inductance line.
    Kinetic(KiLine<T>),
}

impl<T: Scalar> TransmissionLine<T> {
    /// The model's coefficient arrays match its cell count.
    pub open spec fn wf(&self) -> bool {
        match self {
            TransmissionLine::Linear(line) => line.wf(),
            TransmissionLine::Kinetic(line) => line.wf(),
        }
    }

    /// The number of cells.
    pub open spec fn npoints_s(&self) -> usize {
        match self {
            TransmissionLine::Linear(line) => line.npoints,
            TransmissionLine::Kinetic(line) => line.npoints,
        }
    }

    /// The physical length of the line.
    pub open spec fn length_s(&self) -> T {
        match self {
            TransmissionLine::Linear(line) => line.length,
            TransmissionLine::Kinetic(line) => line.length,
        }
    }

    /// The voltage update of the chosen model at cell `index`.
    pub open spec fn next_voltage_s(
        &self,
        last_volt: T,
        curr_left: T,
        curr_right: T,
        index: int,
        p: SimulationParameters<T>,
    ) -> T {
        match self {
            TransmissionLine::Linear(line) => line.next_voltage_s(
                last_volt,
                curr_left,
                curr_right,
                index,
                p,
            ),
            TransmissionLine::Kinetic(line) => line.next_voltage_s(
                last_volt,
                curr_left,
                curr_right,
                index,
                p,
            ),
        }
    }

    /// The current update of the chosen model at cell `index`.
    pub open spec fn next_current_s(
        &self,
        volt_left: T,
        volt_right: T,
        last_curr: T,
        index: int,
        p: SimulationParameters<T>,
    ) -> T {
        match self {
            TransmissionLine::Linear(line) => line.next_current_s(
                volt_left,
                volt_right,
                last_curr,
                index,
                p,
            ),
            TransmissionLine::Kinetic(line) => line.next_current_s(
                volt_left,
                volt_right,
                last_curr,
                index,
                p,
            ),
        }
    }

    /// The largest per-cell phase velocity.
    pub open spec fn max_phase_velocity_s(&self) -> T {
        match self {
            TransmissionLine::Linear(line) => line.velocity_max_s(line.npoints as int),
            TransmissionLine::Kinetic(line) => line.velocity_max_s(line.npoints as int),
        }
    }

    pub fn npoints(&self) -> (n: usize)
        ensures
            n == self.npoints_s(),
    {
        match self {
            TransmissionLine::Linear(line) => line.npoints,
            TransmissionLine::Kinetic(line) => line.npoints,
        }
    }

    pub fn length(&self) -> (r: T)
        ensures
            r == self.length_s(),
    {
        match self {
            TransmissionLine::Linear(line) => line.length,
            TransmissionLine::Kinetic(line) => line.length,
        }
    }

    pub fn next_voltage(
        &self,
        last_volt: T,
        curr_left: T,
        curr_right: T,
        index: usize,
        p: &SimulationParameters<T>,
    ) -> (r: T)
        requires
            self.wf(),
            index < self.npoints_s(),
        ensures
            r == self.next_voltage_s(last_volt, curr_left, curr_right, index as int, *p),
    {
        match self {
            TransmissionLine::Linear(line) => line.next_voltage(
                last_volt,
                curr_left,
                curr_right,
                index,
                p,
            ),
            TransmissionLine::Kinetic(line) => line.next_voltage(
                last_volt,
                curr_left,
                curr_right,
                index,
                p,
            ),
        }
    }

    pub fn next_current(
        &self,
        volt_left: T,
        volt_right: T,
        last_curr: T,
        index: usize,
        p: &SimulationParameters<T>,
    ) -> (r: T)
        requires
            self.wf(),
            index < self.npoints_s(),
        ensures
            r == self.next_current_s(volt_left, volt_right, last_curr, index as int, *p),
    {
        match self {
            TransmissionLine::Linear(line) => line.next_current(
                volt_left,
                volt_right,
                last_curr,
                index,
                p,
            ),
            TransmissionLine::Kinetic(line) => line.next_current(
                volt_left,
                volt_right,
                last_curr,
                index,
                p,
            ),
        }
    }

    pub fn max_phase_velocity(&self) -> (r: T)
        requires
            self.wf(),
            self.npoints_s() >= 1,
        ensures
            r == self.max_phase_velocity_s(),
    {
        match self {
            TransmissionLine::Linear(line) => line.max_phase_velocity(),
            TransmissionLine::Kinetic(line) => line.max_phase_velocity(),
        }
    }

    /// Whether every cell shares the inductance `l0` and capacitance `c0`.
    pub open spec fn uniform_s(&self, l0: T, c0: T) -> bool {
        match self {
            TransmissionLine::Linear(line) => (forall|k: int|
                0 <= k < line.npoints ==> line.ind@[k] == l0) && (forall|k: int|
                0 <= k < line.npoints ==> line.cap@[k] == c0),
            TransmissionLine::Kinetic(line) => (forall|k: int|
                0 <= k < line.npoints ==> line.ind0@[k] == l0) && (forall|k: int|
                0 <= k < line.npoints ==> line.cap@[k] == c0),
        }
    }

    /// On a uniform line the largest phase velocity is the common cell's
    /// `1 / sqrt(l0 * c0)`, exactly and for every cell count.
    pub proof fn lemma_uniform_max_phase_velocity(&self, l0: T, c0: T)
        requires
            self.wf(),
            self.npoints_s() >= 1,
            self.uniform_s(l0, c0),
        ensures
            self.max_phase_velocity_s() == l0.times_s(c0).sqrt_s().recip_s(),
    {
        match self {
            TransmissionLine::Linear(line) => line.lemma_uniform_max_phase_velocity(l0, c0),
            TransmissionLine::Kinetic(line) => line.lemma_uniform_max_phase_velocity(l0, c0),
        }
    }

    /// Derives the simulation steps from the geometry: the spatial step is
    /// the cell length, and the temporal step divides it by the largest
    /// phase velocity scaled by the Courant factor.
    pub fn calculate_simulation_parameters(&self, courant: T) -> (p: SimulationParameters<T>)
        requires
            self.wf(),
            self.npoints_s() >= 1,
        ensures
            p.delta_z == self.length_s().div_s(T::of_usize_s(self.npoints_s())),
            p.delta_t == p.delta_z.div_s(courant.times_s(self.max_phase_velocity_s())),
    {
        let delta_z = self.length().div(T::of_usize(self.npoints()));
        let delta_t = delta_z.div(courant.times(self.max_phase_velocity()));
        SimulationParameters { delta_z, delta_t }
    }
}

} // verus!
