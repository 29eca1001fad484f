//! The stepping solver: advances a state row by row for one batch.

use vstd::prelude::*;
use crate::fdtd::TransmissionLine;
use crate::fdtd::components::{MatchedTerminator, MatchedVSource};
use crate::scalar::Scalar;
use crate::simulation::SimulationParameters;
use crate::sink::{clone_row, ProgressSink};
use crate::{ComputeDescriptor, Error};

verus! {

/// Describes the composition of an `FdtdSolver`.
#[verifier::reject_recursive_types(T)]
pub struct FdtdSolverDescriptor<T, Fs> where Fs: Fn(T) -> T {
    pub tline: TransmissionLine<T>,
    pub source: MatchedVSource<T, Fs>,
    pub terminator: MatchedTerminator<T>,
}

/// Does single threaded computations on the CPU.
#[verifier::reject_recursive_types(T)]
pub struct FdtdSolver<T, Fs> where Fs: Fn(T) -> T {
    pub tline: TransmissionLine<T>,
    pub source: MatchedVSource<T, Fs>,
    pub terminator: MatchedTerminator<T>,
}

/// The time of step `k` of a batch that starts at `t0`.
pub open spec fn time_at_s<T: Scalar>(t0: T, dt: T, k: int) -> T {
    T::of_usize_s(k as usize).times_s(dt).plus_s(t0)
}

impl<T: Scalar, Fs: Fn(T) -> T> FdtdSolver<T, Fs> {
    /// The line's arrays are consistent and the waveform is a pure
    /// function of time.
    pub open spec fn wf(&self) -> bool {
        &&& self.tline.wf()
        &&& self.source.wf()
    }

    /// The number of cells of the composed line.
    pub open spec fn npoints_s(&self) -> usize {
        self.tline.npoints_s()
    }

    /// One whole voltage pass at time `t`: the source advances node 0,
    /// the line model every interior node, the terminator the last node,
    /// all from the previous step's rows.
    pub open spec fn step_v_s(&self, p: SimulationParameters<T>, vs: Seq<T>, is_: Seq<T>, t: T) -> Seq<T>
        recommends
            vs.len() == self.npoints_s() + 2,
            is_.len() == self.npoints_s() + 1,
    {
        Seq::new(
            vs.len(),
            |n: int|
                if n == 0 {
                    self.source.next_voltage_s(t, vs[0], is_[0], p)
                } else if n < vs.len() - 1 {
                    self.tline.next_voltage_s(vs[n], is_[n - 1], is_[n], n - 1, p)
                } else {
                    self.terminator.next_voltage_s(vs[n], is_[n - 1], p)
                },
        )
    }

    /// One whole current pass: the line model advances every interior
    /// node and the terminator the last one, each consuming the voltages
    /// freshly advanced by the same step's voltage pass.
    pub open spec fn step_i_s(&self, p: SimulationParameters<T>, new_vs: Seq<T>, is_: Seq<T>) -> Seq<T>
        recommends
            new_vs.len() == self.npoints_s() + 2,
            is_.len() == self.npoints_s() + 1,
    {
        Seq::new(
            is_.len(),
            |n: int|
                if n < is_.len() - 1 {
                    self.tline.next_current_s(new_vs[n], new_vs[n + 1], is_[n], n, p)
                } else {
                    self.terminator.next_current_s(new_vs[n], new_vs[n + 1], is_[n], p)
                },
        )
    }

    /// One full step at time `t`: voltages first, then currents against
    /// the new voltage row. This ordering is the leapfrog coupling.
    pub open spec fn advance_s(
        &self,
        p: SimulationParameters<T>,
        vs: Seq<T>,
        is_: Seq<T>,
        t: T,
    ) -> (Seq<T>, Seq<T>) {
        let nv = self.step_v_s(p, vs, is_, t);
        (nv, self.step_i_s(p, nv, is_))
    }

    /// The rows after `j` steps from `(v0, i0)` at batch start time `t0`:
    /// row 0 is the input, row `j` follows by one step at time
    /// `t0 + (j-1) * delta_t` from row `j - 1`.
    pub open spec fn traj_s(
        &self,
        p: SimulationParameters<T>,
        v0: Seq<T>,
        i0: Seq<T>,
        t0: T,
        j: nat,
    ) -> (Seq<T>, Seq<T>)
        decreases j,
    {
        if j == 0 {
            (v0, i0)
        } else {
            let prev = self.traj_s(p, v0, i0, t0, (j - 1) as nat);
            self.advance_s(p, prev.0, prev.1, time_at_s(t0, p.delta_t, j - 1))
        }
    }

    /// The voltage row after `j` steps.
    pub open spec fn traj_v_s(
        &self,
        p: SimulationParameters<T>,
        v0: Seq<T>,
        i0: Seq<T>,
        t0: T,
        j: nat,
    ) -> Seq<T> {
        self.traj_s(p, v0, i0, t0, j).0
    }

    /// The current row after `j` steps.
    pub open spec fn traj_i_s(
        &self,
        p: SimulationParameters<T>,
        v0: Seq<T>,
        i0: Seq<T>,
        t0: T,
        j: nat,
    ) -> Seq<T> {
        self.traj_s(p, v0, i0, t0, j).1
    }

    /// Every row of a trajectory keeps the widths of its input rows.
    pub proof fn lemma_traj_len(
        &self,
        p: SimulationParameters<T>,
        v0: Seq<T>,
        i0: Seq<T>,
        t0: T,
        j: nat,
    )
        ensures
            self.traj_v_s(p, v0, i0, t0, j).len() == v0.len(),
            self.traj_i_s(p, v0, i0, t0, j).len() == i0.len(),
        decreases j,
    {
        if j > 0 {
            self.lemma_traj_len(p, v0, i0, t0, (j - 1) as nat);
        }
    }

    pub fn new(desc: FdtdSolverDescriptor<T, Fs>) -> (solver: FdtdSolver<T, Fs>)
        ensures
            solver.tline == desc.tline,
            solver.source == desc.source,
            solver.terminator == desc.terminator,
    {
        FdtdSolver { tline: desc.tline, source: desc.source, terminator: desc.terminator }
    }

    pub fn npoints(&self) -> (n: usize)
        ensures
            n == self.npoints_s(),
    {
        self.tline.npoints()
    }

    /// Generates voltage and current data for a batch of `desc.nsteps`
    /// steps: row 0 is the input state, row `k` the state after `k`
    /// steps, each step advancing all voltages before any current.
    pub fn compute<B: ProgressSink>(&self, desc: ComputeDescriptor<'_, T>, progress: &mut B) -> (r:
        Result<(Vec<Vec<T>>, Vec<Vec<T>>), Error>)
        requires
            self.wf(),
            desc.state.voltages@.len() == self.npoints_s() + 2,
            desc.state.currents@.len() == self.npoints_s() + 1,
            desc.nsteps < usize::MAX,
        ensures
            r is Ok,
            (r matches Ok(rows) ==> {
                &&& rows.0@.len() == desc.nsteps + 1
                &&& rows.1@.len() == desc.nsteps + 1
                &&& (forall|j: int|
                    0 <= j <= desc.nsteps ==> (#[trigger] rows.0@[j])@ == self.traj_v_s(
                        desc.sim_params,
                        desc.state.voltages@,
                        desc.state.currents@,
                        desc.state.time,
                        j as nat,
                    ))
                &&& (forall|j: int|
                    0 <= j <= desc.nsteps ==> (#[trigger] rows.1@[j])@ == self.traj_i_s(
                        desc.sim_params,
                        desc.state.voltages@,
                        desc.state.currents@,
                        desc.state.time,
                        j as nat,
                    ))
            }),
    {
        let ghost v0 = desc.state.voltages@;
        let ghost i0 = desc.state.currents@;
        let ghost t0 = desc.state.time;
        let ghost p = desc.sim_params;
        let npoints = self.tline.npoints();
        let nnodes = desc.state.voltages.len();

        let mut volts: Vec<Vec<T>> = Vec::new();
        let mut currs: Vec<Vec<T>> = Vec::new();
        volts.push(clone_row(&desc.state.voltages));
        currs.push(clone_row(&desc.state.currents));

        let mut t_index: usize = 0;
        while t_index < desc.nsteps
            invariant
                self.wf(),
                npoints == self.npoints_s(),
                v0 == desc.state.voltages@,
                i0 == desc.state.currents@,
                t0 == desc.state.time,
                p == desc.sim_params,
                v0.len() == npoints + 2,
                i0.len() == npoints + 1,
                nnodes == npoints + 2,
                desc.nsteps < usize::MAX,
                t_index <= desc.nsteps,
                volts@.len() == t_index + 1,
                currs@.len() == t_index + 1,
                (forall|j: int|
                    0 <= j <= t_index ==> (#[trigger] volts@[j])@ == self.traj_v_s(
                        p,
                        v0,
                        i0,
                        t0,
                        j as nat,
                    )),
                (forall|j: int|
                    0 <= j <= t_index ==> (#[trigger] currs@[j])@ == self.traj_i_s(
                        p,
                        v0,
                        i0,
                        t0,
                        j as nat,
                    )),
            decreases desc.nsteps - t_index,
        {
            proof {
                self.lemma_traj_len(p, v0, i0, t0, t_index as nat);
            }
            let t = T::of_usize(t_index).times(desc.sim_params.delta_t).plus(desc.state.time);
            let ghost last_vs = volts@[t_index as int]@;
            let ghost last_is = currs@[t_index as int]@;

            // The voltage pass: source, interior cells, terminator.
            let mut nv: Vec<T> = Vec::new();
            {
                let last_v_row = &volts[t_index];
                let last_i_row = &currs[t_index];
                nv.push(
                    self.source.next_voltage(t, last_v_row[0], last_i_row[0], &desc.sim_params),
                );
                let mut z: usize = 0;
                while z < npoints
                    invariant
                        self.wf(),
                        npoints == self.npoints_s(),
                        z <= npoints,
                        last_v_row@ == last_vs,
                        last_i_row@ == last_is,
                        last_vs.len() == npoints + 2,
                        last_is.len() == npoints + 1,
                        nv@.len() == z + 1,
                        nv@[0] == self.source.next_voltage_s(t, last_vs[0], last_is[0], p),
                        p == desc.sim_params,
                        (forall|m: int|
                            1 <= m <= z ==> #[trigger] nv@[m] == self.tline.next_voltage_s(
                                last_vs[m],
                                last_is[m - 1],
                                last_is[m],
                                m - 1,
                                p,
                            )),
                    decreases npoints - z,
                {
                    nv.push(
                        self.tline.next_voltage(
                            last_v_row[z + 1],
                            last_i_row[z],
                            last_i_row[z + 1],
                            z,
                            &desc.sim_params,
                        ),
                    );
                    z = z + 1;
                }
                nv.push(
                    self.terminator.next_voltage(
                        last_v_row[npoints + 1],
                        last_i_row[npoints],
                        &desc.sim_params,
                    ),
                );
            }
            proof {
                assert(nv@ =~= self.step_v_s(p, last_vs, last_is, t));
            }

            // The current pass, against the freshly advanced voltages.
            let mut ni: Vec<T> = Vec::new();
            {
                let last_i_row = &currs[t_index];
                let mut z: usize = 0;
                while z < npoints
                    invariant
                        self.wf(),
                        npoints == self.npoints_s(),
                        z <= npoints,
                        last_i_row@ == last_is,
                        last_is.len() == npoints + 1,
                        nv@.len() == npoints + 2,
                        ni@.len() == z,
                        p == desc.sim_params,
                        (forall|m: int|
                            0 <= m < z ==> #[trigger] ni@[m] == self.tline.next_current_s(
                                nv@[m],
                                nv@[m + 1],
                                last_is[m],
                                m,
                                p,
                            )),
                    decreases npoints - z,
                {
                    ni.push(
                        self.tline.next_current(nv[z], nv[z + 1], last_i_row[z], z, &desc.sim_params),
                    );
                    z = z + 1;
                }
                ni.push(
                    self.terminator.next_current(
                        nv[npoints],
                        nv[npoints + 1],
                        last_i_row[npoints],
                        &desc.sim_params,
                    ),
                );
            }
            proof {
                assert(ni@ =~= self.step_i_s(p, nv@, last_is));
                assert(t == time_at_s(t0, p.delta_t, t_index as int));
                assert(self.traj_s(p, v0, i0, t0, (t_index + 1) as nat) == self.advance_s(
                    p,
                    last_vs,
                    last_is,
                    time_at_s(t0, p.delta_t, t_index as int),
                ));
            }
            volts.push(nv);
            currs.push(ni);
            progress.advance();
            t_index = t_index + 1;
        }
        Ok((volts, currs))
    }
}

} // verus!
