//! The simulation driver: state, run partitioning and batching.

use vstd::prelude::*;
use crate::fdtd::{time_at_s, FdtdSolver};
use crate::scalar::Scalar;
use crate::sink::{clone_row, PersistenceSink, ProgressSink};
use crate::{ComputeDescriptor, Error};

verus! {

/// The cap on how many stored elements one batch trajectory may take;
/// it bounds working memory however long the run is.
pub const STORE_BUDGET: usize = 100_000_000;

/// Simulation specific parameters.
#[derive(Clone, Copy)]
pub struct SimulationParameters<T> {
    /// The physical size of each spacial step along the transmission line.
    pub delta_z: T,
    /// The length of each temperal step in the simulation.
    pub delta_t: T,
}

/// Describes the transmission line state at the current time step.
pub struct SimulationState<T> {
    /// The time of the last time step of the simulation.
    pub time: T,
    /// The voltages of each point along the transmission line at `time`.
    pub voltages: Vec<T>,
    /// The currents of each point along the transmission line at `time`.
    pub currents: Vec<T>,
}

/// How data should be saved.
#[derive(Debug)]
pub struct SaveSettings<P> {
    /// The destination of the saved data, in whatever form the persistence
    /// sink understands.
    pub filename: P,
    /// What information to save.
    pub save_type: SaveType,
    /// Whether or not to overwrite any possible saved data.
    pub overwrite: bool,
}

/// Represents what data to save.
#[derive(PartialEq, Eq, Structural, Clone, Copy, Debug)]
pub enum SaveType {
    /// Save voltage and current data for every point on the line.
    Full,
    /// Save voltage and current data for only the end points.
    End,
}

/// Describes a simulation run.
pub struct RunDescriptor<T, P> {
    /// How long, in temperal units, the simulation should run.
    pub time_duration: T,
    /// Whether or not to report progress.
    pub verbose: bool,
    /// What, if any, information to save.
    pub save_settings: Option<SaveSettings<P>>,
}

/// Describes a simulation.
#[verifier::reject_recursive_types(T)]
pub struct SimulationDescriptor<T, Fs> where Fs: Fn(T) -> T {
    /// The solver for the simulation.
    pub solver: FdtdSolver<T, Fs>,
    /// The parameters for the simulation.
    pub sim_params: SimulationParameters<T>,
    /// The state that the simulation starts in, or none for a zero-filled
    /// start at time zero.
    pub init_state: Option<SimulationState<T>>,
}

/// The largest number of steps one batch may hold for a line whose rows
/// are `total_points` wide: one less than the bounded trajectory height.
pub open spec fn chunk_s(nsteps: usize, total_points: usize) -> nat
    recommends
        1 <= total_points <= STORE_BUDGET,
        nsteps >= 1,
{
    let limit = (STORE_BUDGET as nat) / (total_points as nat) + 1;
    let store = if nsteps + 1 <= limit {
        (nsteps + 1) as nat
    } else {
        limit
    };
    (store - 1) as nat
}

/// The state a run reaches by folding whole batches of at most `chunk`
/// steps: each batch advances the rows by one solver trajectory and the
/// clock by its step count, and its last row seeds the next batch.
pub open spec fn run_fold_s<T: Scalar, Fs: Fn(T) -> T>(
    solver: FdtdSolver<T, Fs>,
    p: SimulationParameters<T>,
    vs: Seq<T>,
    is_: Seq<T>,
    time: T,
    n: nat,
    chunk: nat,
) -> (Seq<T>, Seq<T>, T)
    decreases n,
    when chunk >= 1
{
    if n == 0 {
        (vs, is_, time)
    } else {
        let k = if chunk <= n {
            chunk
        } else {
            n
        };
        let tr = solver.traj_s(p, vs, is_, time, k);
        run_fold_s(
            solver,
            p,
            tr.0,
            tr.1,
            time.plus_s(T::of_usize_s(k as usize).times_s(p.delta_t)),
            (n - k) as nat,
            chunk,
        )
    }
}

/// The main `struct` of the framework.
#[verifier::reject_recursive_types(T)]
pub struct Simulation<T, Fs> where Fs: Fn(T) -> T {
    /// The solver that advances the state.
    pub solver: FdtdSolver<T, Fs>,
    /// The shared step sizes.
    pub sim_params: SimulationParameters<T>,
    /// The current state, replaced wholesale after each batch.
    pub state: SimulationState<T>,
}

impl<T: Scalar, Fs: Fn(T) -> T> Simulation<T, Fs> {
    /// The solver is consistent and the state arrays match its geometry:
    /// one voltage per node plus both boundaries and a convention slot,
    /// one current per node plus the boundary.
    pub open spec fn wf(&self) -> bool {
        &&& self.solver.wf()
        &&& self.state.voltages@.len() == self.solver.npoints_s() + 2
        &&& self.state.currents@.len() == self.solver.npoints_s() + 1
    }

    /// Creates a new `Simulation` instance.
    ///
    /// A supplied initial state is validated against the line's geometry;
    /// a missing one is zero-filled at time zero.
    pub fn new(desc: SimulationDescriptor<T, Fs>) -> (r: Result<Simulation<T, Fs>, Error>)
        requires
            desc.solver.wf(),
            desc.solver.npoints_s() + 2 <= usize::MAX,
        ensures
            (r matches Ok(sim) ==> {
                &&& sim.wf()
                &&& sim.solver == desc.solver
                &&& sim.sim_params == desc.sim_params
            }),
            (match desc.init_state {
                Option::None => {
                    &&& r is Ok
                    &&& (r matches Ok(sim) ==> {
                        &&& sim.state.time == T::zero_s()
                        &&& (forall|i: int|
                            0 <= i < sim.state.voltages@.len() ==> sim.state.voltages@[i]
                                == T::zero_s())
                        &&& (forall|i: int|
                            0 <= i < sim.state.currents@.len() ==> sim.state.currents@[i]
                                == T::zero_s())
                    })
                },
                Option::Some(st) => {
                    if st.voltages@.len() != desc.solver.npoints_s() + 2 {
                        r matches Err(e) && e matches Error::BadInit {
                            array_name,
                            input_length,
                            expected_length,
                        } && array_name@ == "Voltage"@ && input_length == st.voltages@.len()
                            && expected_length == desc.solver.npoints_s() + 2
                    } else if st.currents@.len() != desc.solver.npoints_s() + 1 {
                        r matches Err(e) && e matches Error::BadInit {
                            array_name,
                            input_length,
                            expected_length,
                        } && array_name@ == "Current"@ && input_length == st.currents@.len()
                            && expected_length == desc.solver.npoints_s() + 1
                    } else {
                        r matches Ok(sim) && sim.state == st
                    }
                },
            }),
    {
        broadcast use vstd::string::to_string_from_display_ensures_for_str;

        let total_points = 1 + desc.solver.npoints();

        let state = match desc.init_state {
            Option::Some(st) => st,
            Option::None => SimulationState {
                time: T::zero(),
                voltages: zero_row(total_points + 1),
                currents: zero_row(total_points),
            },
        };
        if state.voltages.len() != total_points + 1 {
            return Err(
                Error::BadInit {
                    array_name: "Voltage".to_string(),
                    input_length: state.voltages.len(),
                    expected_length: total_points + 1,
                },
            );
        }
        if state.currents.len() != total_points {
            return Err(
                Error::BadInit {
                    array_name: "Current".to_string(),
                    input_length: state.currents.len(),
                    expected_length: total_points,
                },
            );
        }

        Ok(Simulation { state, solver: desc.solver, sim_params: desc.sim_params })
    }

    /// Does a computational run.
    ///
    /// The run covers the ceiling of `time_duration / delta_t` steps,
    /// partitioned into memory-bounded batches; each batch's rows are
    /// offered to the persistence sink before the batch's last row
    /// becomes the new state, so a sink failure aborts the run with the
    /// state still on a batch boundary.
    #[verifier::loop_isolation(false)]
    pub fn run<P, K: PersistenceSink<T>, B: ProgressSink>(
        &mut self,
        desc: RunDescriptor<T, P>,
        sink: &mut K,
        progress: &mut B,
    ) -> (r: Result<(), Error>)
        requires
            old(self).wf(),
            old(self).solver.npoints_s() + 1 <= STORE_BUDGET,
        ensures
            final(self).wf(),
            final(self).solver == old(self).solver,
            final(self).sim_params == old(self).sim_params,
            ({
                let n = T::steps_s(desc.time_duration, old(self).sim_params.delta_t);
                let chunk = chunk_s(n, (old(self).solver.npoints_s() + 1) as usize);
                let folded = run_fold_s(
                    old(self).solver,
                    old(self).sim_params,
                    old(self).state.voltages@,
                    old(self).state.currents@,
                    old(self).state.time,
                    n as nat,
                    chunk,
                );
                &&& (n == 0 ==> r is Ok && final(self).state == old(self).state && *final(sink)
                    == *old(sink))
                &&& (desc.save_settings is None ==> r is Ok)
                &&& (r is Ok && n != 0 ==> final(self).state.voltages@ == folded.0
                    && final(self).state.currents@ == folded.1 && final(self).state.time
                    == folded.2)
                &&& (r is Err ==> (r matches Err(e) && e is SinkFailure) && n != 0 && exists|
                    m: nat,
                |
                    m <= n && folded == #[trigger] run_fold_s(
                        old(self).solver,
                        old(self).sim_params,
                        final(self).state.voltages@,
                        final(self).state.currents@,
                        final(self).state.time,
                        m,
                        chunk,
                    ))
            }),
    {
        let ghost solver0 = self.solver;
        let ghost p0 = self.sim_params;
        let ghost v0 = self.state.voltages@;
        let ghost i0 = self.state.currents@;
        let ghost t0 = self.state.time;

        let nsteps = T::steps_for(desc.time_duration, self.sim_params.delta_t);
        if nsteps == 0 {
            return Ok(());
        }
        let npoints = self.solver.npoints();
        let nnodes = self.state.voltages.len();
        let total_points = 1 + npoints;
        let limit = STORE_BUDGET / total_points + 1;
        let store_size = if nsteps < limit {
            nsteps + 1
        } else {
            limit
        };
        let chunk = store_size - 1;
        proof {
            vstd::arithmetic::div_mod::lemma_div_non_zero(STORE_BUDGET as int, total_points as int);
            assert(chunk >= 1);
            assert(chunk == chunk_s(nsteps, total_points));
        }

        let mut end_offset: usize = 0;
        let mut full_offset: usize = 0;
        match &desc.save_settings {
            Option::Some(settings) => {
                match sink.begin_run(
                    settings.save_type,
                    settings.overwrite,
                    nsteps,
                    total_points,
                    self.sim_params.delta_z,
                    self.sim_params.delta_t,
                ) {
                    Ok(offsets) => {
                        end_offset = offsets.0;
                        full_offset = offsets.1;
                    },
                    Err(msg) => {
                        proof {
                            assert(run_fold_s(solver0, p0, v0, i0, t0, nsteps as nat, chunk as nat)
                                == run_fold_s(
                                solver0,
                                p0,
                                self.state.voltages@,
                                self.state.currents@,
                                self.state.time,
                                nsteps as nat,
                                chunk as nat,
                            ));
                        }
                        return Err(Error::SinkFailure(msg));
                    },
                }
            },
            Option::None => {},
        }

        if desc.verbose {
            progress.begin(nsteps);
        }

        let ghost target = run_fold_s(solver0, p0, v0, i0, t0, nsteps as nat, chunk as nat);
        let mut done: usize = 0;
        while done < nsteps
            invariant
                self.wf(),
                self.solver == solver0,
                self.sim_params == p0,
                solver0.npoints_s() == npoints,
                nnodes == npoints + 2,
                total_points == npoints + 1,
                1 <= chunk,
                done <= nsteps,
                target == run_fold_s(
                    solver0,
                    p0,
                    self.state.voltages@,
                    self.state.currents@,
                    self.state.time,
                    (nsteps - done) as nat,
                    chunk as nat,
                ),
            decreases nsteps - done,
        {
            let remaining = nsteps - done;
            let niters = if chunk < remaining {
                chunk
            } else {
                remaining
            };
            let ghost vs_cur = self.state.voltages@;
            let ghost is_cur = self.state.currents@;
            let ghost time_cur = self.state.time;

            let rows = match self.solver.compute(
                ComputeDescriptor {
                    state: &self.state,
                    sim_params: self.sim_params,
                    nsteps: niters,
                },
                progress,
            ) {
                Ok(rows) => rows,
                Err(e) => {
                    // the solver's contract promises success; this arm
                    // satisfies the type, not a reachable path
                    proof {
                        assert(false);
                    }
                    return Err(e);
                },
            };

            match &desc.save_settings {
                Option::Some(settings) => {
                    // The batch's input row is the previous batch's last
                    // row; only the new rows 1..=niters are handed over.
                    let vout = batch_tail(&rows.0, niters);
                    let cout = batch_tail(&rows.1, niters);
                    match sink.write_batch(
                        settings.save_type,
                        &vout,
                        &cout,
                        done,
                        end_offset,
                        full_offset,
                    ) {
                        Ok(_) => {},
                        Err(msg) => {
                            proof {
                                assert(run_fold_s(
                                    solver0,
                                    p0,
                                    v0,
                                    i0,
                                    t0,
                                    nsteps as nat,
                                    chunk as nat,
                                ) == run_fold_s(
                                    solver0,
                                    p0,
                                    self.state.voltages@,
                                    self.state.currents@,
                                    self.state.time,
                                    (nsteps - done) as nat,
                                    chunk as nat,
                                ));
                            }
                            return Err(Error::SinkFailure(msg));
                        },
                    }
                },
                Option::None => {},
            }

            let new_time = self.state.time.plus(T::of_usize(niters).times(self.sim_params.delta_t));
            let last_v = clone_row(&rows.0[niters]);
            let last_i = clone_row(&rows.1[niters]);
            proof {
                self.solver.lemma_traj_len(p0, vs_cur, is_cur, time_cur, niters as nat);
            }
            self.state.voltages = last_v;
            self.state.currents = last_i;
            self.state.time = new_time;
            done = done + niters;
        }

        if desc.verbose {
            progress.finish();
        }
        Ok(())
    }
}

/// Whether the scalar's clock arithmetic is exact over the first `n`
/// steps from `t0`: a batch end may be collapsed into the base time, and
/// a step time may be rebased onto an earlier base, without changing the
/// value. Exact arithmetics satisfy this for any `n`; rounding ones need
/// the involved times to be representable.
pub open spec fn time_affine_ok<T: Scalar>(dt: T, t0: T, n: nat) -> bool {
    &&& (forall|a: usize, b: usize|
        a + b <= n ==> #[trigger] t0.plus_s(T::of_usize_s(a).times_s(dt)).plus_s(
            T::of_usize_s(b).times_s(dt),
        ) == t0.plus_s(T::of_usize_s((a + b) as usize).times_s(dt)))
    &&& (forall|a: usize, j: usize|
        a + j < n ==> #[trigger] time_at_s(t0.plus_s(T::of_usize_s(a).times_s(dt)), dt, j as int)
            == time_at_s(t0, dt, a + j))
}

/// A trajectory started from row `a` of another trajectory, with every
/// step time matching, continues it: its row `j` is the outer row `a + j`.
proof fn lemma_traj_compose<T: Scalar, Fs: Fn(T) -> T>(
    solver: FdtdSolver<T, Fs>,
    p: SimulationParameters<T>,
    v0: Seq<T>,
    i0: Seq<T>,
    t0: T,
    a: nat,
    tb: T,
    j: nat,
)
    requires
        forall|j2: usize|
            j2 < j ==> #[trigger] time_at_s(tb, p.delta_t, j2 as int) == time_at_s(
                t0,
                p.delta_t,
                a + j2,
            ),
        a + j <= usize::MAX,
    ensures
        solver.traj_s(
            p,
            solver.traj_v_s(p, v0, i0, t0, a),
            solver.traj_i_s(p, v0, i0, t0, a),
            tb,
            j,
        ) == solver.traj_s(p, v0, i0, t0, a + j),
    decreases j,
{
    let inner_v = solver.traj_v_s(p, v0, i0, t0, a);
    let inner_i = solver.traj_i_s(p, v0, i0, t0, a);
    if j == 0 {
        assert(solver.traj_s(p, inner_v, inner_i, tb, 0) == (inner_v, inner_i));
        assert(solver.traj_s(p, v0, i0, t0, a) == (
            solver.traj_s(p, v0, i0, t0, a).0,
            solver.traj_s(p, v0, i0, t0, a).1,
        ));
    } else {
        lemma_traj_compose(solver, p, v0, i0, t0, a, tb, (j - 1) as nat);
        assert(time_at_s(tb, p.delta_t, (j - 1) as usize as int) == time_at_s(
            t0,
            p.delta_t,
            a + ((j - 1) as usize),
        ));
    }
}

/// Exact clock arithmetic survives moving the base time to a batch end.
proof fn lemma_time_affine_shift<T: Scalar>(dt: T, t0: T, n: nat, k: usize)
    requires
        k <= n,
        n <= usize::MAX,
        time_affine_ok(dt, t0, n),
    ensures
        time_affine_ok(dt, t0.plus_s(T::of_usize_s(k).times_s(dt)), (n - k) as nat),
{
    let t1 = t0.plus_s(T::of_usize_s(k).times_s(dt));
    assert forall|a: usize, b: usize| a + b <= n - k implies #[trigger] t1.plus_s(
        T::of_usize_s(a).times_s(dt),
    ).plus_s(T::of_usize_s(b).times_s(dt)) == t1.plus_s(
        T::of_usize_s((a + b) as usize).times_s(dt),
    ) by {
        assert(t0.plus_s(T::of_usize_s(k).times_s(dt)).plus_s(T::of_usize_s(a).times_s(dt))
            == t0.plus_s(T::of_usize_s((k + a) as usize).times_s(dt)));
        assert(t0.plus_s(T::of_usize_s((k + a) as usize).times_s(dt)).plus_s(
            T::of_usize_s(b).times_s(dt),
        ) == t0.plus_s(T::of_usize_s(((k + a) as usize + b) as usize).times_s(dt)));
        assert(t0.plus_s(T::of_usize_s(k).times_s(dt)).plus_s(
            T::of_usize_s((a + b) as usize).times_s(dt),
        ) == t0.plus_s(T::of_usize_s((k + (a + b) as usize) as usize).times_s(dt)));
    }
    assert forall|a: usize, j: usize| a + j < n - k implies #[trigger] time_at_s(
        t1.plus_s(T::of_usize_s(a).times_s(dt)),
        dt,
        j as int,
    ) == time_at_s(t1, dt, a + j) by {
        assert(t0.plus_s(T::of_usize_s(k).times_s(dt)).plus_s(T::of_usize_s(a).times_s(dt))
            == t0.plus_s(T::of_usize_s((k + a) as usize).times_s(dt)));
        assert(time_at_s(t0.plus_s(T::of_usize_s((k + a) as usize).times_s(dt)), dt, j as int)
            == time_at_s(t0, dt, (k + a) as usize + j));
        assert(time_at_s(t0.plus_s(T::of_usize_s(k).times_s(dt)), dt, ((a + j) as usize) as int)
            == time_at_s(t0, dt, k + (a + j) as usize));
    }
}

/// Folding `n` steps in batches of at most `chunk` reaches exactly the
/// state and clock of the single `n`-step trajectory, provided the
/// scalar's clock arithmetic is exact over the run.
pub proof fn lemma_batching_reaches_trajectory<T: Scalar, Fs: Fn(T) -> T>(
    solver: FdtdSolver<T, Fs>,
    p: SimulationParameters<T>,
    vs: Seq<T>,
    is_: Seq<T>,
    t0: T,
    n: nat,
    chunk: nat,
)
    requires
        1 <= chunk,
        1 <= n <= usize::MAX,
        time_affine_ok(p.delta_t, t0, n),
    ensures
        run_fold_s(solver, p, vs, is_, t0, n, chunk) == (
            solver.traj_v_s(p, vs, is_, t0, n),
            solver.traj_i_s(p, vs, is_, t0, n),
            t0.plus_s(T::of_usize_s(n as usize).times_s(p.delta_t)),
        ),
    decreases n,
{
    let k: nat = if chunk <= n {
        chunk
    } else {
        n
    };
    let tr = solver.traj_s(p, vs, is_, t0, k);
    let t1 = t0.plus_s(T::of_usize_s(k as usize).times_s(p.delta_t));
    assert(tr == (solver.traj_v_s(p, vs, is_, t0, k), solver.traj_i_s(p, vs, is_, t0, k)));
    if k == n {
        assert(run_fold_s(solver, p, vs, is_, t0, n, chunk) == run_fold_s(
            solver,
            p,
            tr.0,
            tr.1,
            t1,
            0,
            chunk,
        ));
    } else {
        lemma_time_affine_shift(p.delta_t, t0, n, k as usize);
        lemma_batching_reaches_trajectory(solver, p, tr.0, tr.1, t1, (n - k) as nat, chunk);
        assert forall|j2: usize| j2 < (n - k) as nat implies #[trigger] time_at_s(
            t1,
            p.delta_t,
            j2 as int,
        ) == time_at_s(t0, p.delta_t, k + j2) by {
            assert(time_at_s(t0.plus_s(T::of_usize_s(k as usize).times_s(p.delta_t)), p.delta_t, j2 as int)
                == time_at_s(t0, p.delta_t, k as usize + j2));
        }
        lemma_traj_compose(solver, p, vs, is_, t0, k, t1, (n - k) as nat);
        assert(t0.plus_s(T::of_usize_s(k as usize).times_s(p.delta_t)).plus_s(
            T::of_usize_s((n - k) as usize).times_s(p.delta_t),
        ) == t0.plus_s(T::of_usize_s((k as usize + (n - k) as usize) as usize).times_s(p.delta_t)));
    }
}

/// Batching is transparent: running `n` steps in batches of `chunk1`
/// or of `chunk2` steps reaches bit-for-bit the same final state and
/// clock, since each batch's input is exactly the prior batch's last
/// row, provided the scalar's clock arithmetic is exact over the run.
pub proof fn lemma_batching_transparent<T: Scalar, Fs: Fn(T) -> T>(
    solver: FdtdSolver<T, Fs>,
    p: SimulationParameters<T>,
    vs: Seq<T>,
    is_: Seq<T>,
    t0: T,
    n: nat,
    chunk1: nat,
    chunk2: nat,
)
    requires
        1 <= chunk1,
        1 <= chunk2,
        1 <= n <= usize::MAX,
        time_affine_ok(p.delta_t, t0, n),
    ensures
        run_fold_s(solver, p, vs, is_, t0, n, chunk1) == run_fold_s(
            solver,
            p,
            vs,
            is_,
            t0,
            n,
            chunk2,
        ),
{
    lemma_batching_reaches_trajectory(solver, p, vs, is_, t0, n, chunk1);
    lemma_batching_reaches_trajectory(solver, p, vs, is_, t0, n, chunk2);
}

/// The rows a batch offers to the persistence sink: the `niters` rows
/// after the input row, in step order, each copied exactly. Row `k` of
/// the result is row `k + 1` of the trajectory, so the batch's input row
/// is never handed over.
fn batch_tail<T: Copy>(rows: &Vec<Vec<T>>, niters: usize) -> (out: Vec<Vec<T>>)
    requires
        niters < rows@.len(),
    ensures
        out@.len() == niters,
        (forall|k: int| 0 <= k < niters ==> (#[trigger] out@[k])@ == rows@[k + 1]@),
{
    let n_rows = rows.len();
    let mut out: Vec<Vec<T>> = Vec::new();
    let mut k: usize = 1;
    while k <= niters
        invariant
            1 <= k <= niters + 1,
            niters < n_rows == rows@.len(),
            out@.len() == k - 1,
            (forall|j: int| 0 <= j < k - 1 ==> (#[trigger] out@[j])@ == rows@[j + 1]@),
        decreases niters + 1 - k,
    {
        out.push(clone_row(&rows[k]));
        k = k + 1;
    }
    out
}

/// A row of `len` zeros.
fn zero_row<T: Scalar>(len: usize) -> (r: Vec<T>)
    ensures
        r@.len() == len,
        (forall|i: int| 0 <= i < len ==> r@[i] == T::zero_s()),
{
    let mut out: Vec<T> = Vec::new();
    let mut k: usize = 0;
    while k < len
        invariant
            k <= len,
            out@.len() == k,
            (forall|i: int| 0 <= i < k ==> out@[i] == T::zero_s()),
        decreases len - k,
    {
        out.push(T::zero());
        k = k + 1;
    }
    out
}

} // verus!
