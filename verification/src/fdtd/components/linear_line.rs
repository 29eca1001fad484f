//! The linear RLGC transmission line model.

use vstd::prelude::*;
use crate::fdtd::{d_ratio_s, mid_s, total_fn};
use crate::scalar::Scalar;
use crate::simulation::SimulationParameters;

verus! {

/// Describes a `LinearLine`.
#[verifier::reject_recursive_types(T)]
pub struct LinearLineDescriptor<T, Fc, Fl, Fr, Fg> where
    Fc: Fn(T) -> T,
    Fl: Fn(T) -> T,
    Fr: Fn(T) -> T,
    Fg: Fn(T) -> T,
 {
    pub length: T,
    pub npoints: usize,
    pub capacitance_fn: Fc,
    pub inductance_fn: Fl,
    pub resistance_fn: Fr,
    pub conductance_fn: Fg,
}

/// A linear line: per-cell capacitance, inductance, resistance and
/// conductance, sampled once at construction at the cell midpoints.
pub struct LinearLine<T> {
    pub cap: Vec<T>,
    pub ind: Vec<T>,
    pub res: Vec<T>,
    pub cond: Vec<T>,
    pub npoints: usize,
    pub length: T,
}

impl<T: Scalar> LinearLine<T> {
    /// Each coefficient array holds one value per cell.
    pub open spec fn wf(&self) -> bool {
        &&& self.cap@.len() == self.npoints
        &&& self.ind@.len() == self.npoints
        &&& self.res@.len() == self.npoints
        &&& self.cond@.len() == self.npoints
    }

    /// The semi-implicit leapfrog voltage update at cell `index`:
    /// a closed-form linear combination of the previous voltage and the
    /// difference of the flanking currents, weighted by the cell's
    /// capacitance against its conductance.
    pub open spec fn next_voltage_s(
        &self,
        last_volt: T,
        curr_left: T,
        curr_right: T,
        index: int,
        p: SimulationParameters<T>,
    ) -> T {
        let cterm = d_ratio_s(p).times_s(self.cap@[index]);
        let gterm = p.delta_z.times_s(self.cond@[index]).div_s(T::of_usize_s(2));
        cterm.plus_s(gterm).recip_s().times_s(
            cterm.minus_s(gterm).times_s(last_volt).plus_s(curr_left.minus_s(curr_right)),
        )
    }

    /// The mirror update for the current at cell `index`, weighted by the
    /// cell's inductance against its resistance.
    pub open spec fn next_current_s(
        &self,
        volt_left: T,
        volt_right: T,
        last_curr: T,
        index: int,
        p: SimulationParameters<T>,
    ) -> T {
        let lterm = d_ratio_s(p).times_s(self.ind@[index]);
        let rterm = p.delta_z.times_s(self.res@[index]).div_s(T::of_usize_s(2));
        lterm.plus_s(rterm).recip_s().times_s(
            lterm.minus_s(rterm).times_s(last_curr).plus_s(volt_left.minus_s(volt_right)),
        )
    }

    /// The phase velocity candidate of cell `k`.
    pub open spec fn velocity_s(&self, k: int) -> T {
        self.ind@[k].times_s(self.cap@[k]).sqrt_s().recip_s()
    }

    /// The running maximum of the first `k` velocity candidates, keeping
    /// the earlier value on ties.
    pub open spec fn velocity_max_s(&self, k: int) -> T
        decreases k,
    {
        if k <= 1 {
            self.velocity_s(0)
        } else {
            let prev = self.velocity_max_s(k - 1);
            let item = self.velocity_s(k - 1);
            if prev.ge_s(item) {
                prev
            } else {
                item
            }
        }
    }

    pub fn new<Fc, Fl, Fr, Fg>(desc: LinearLineDescriptor<T, Fc, Fl, Fr, Fg>) -> (line:
        LinearLine<T>) where
        Fc: Fn(T) -> T,
        Fl: Fn(T) -> T,
        Fr: Fn(T) -> T,
        Fg: Fn(T) -> T,

        requires
            total_fn(desc.capacitance_fn),
            total_fn(desc.inductance_fn),
            total_fn(desc.resistance_fn),
            total_fn(desc.conductance_fn),
        ensures
            line.wf(),
            line.npoints == desc.npoints,
            line.length == desc.length,
            (forall|n: int|
                0 <= n < desc.npoints ==> call_ensures(
                    desc.capacitance_fn,
                    (mid_s(n, desc.length, desc.npoints),),
                    line.cap@[n],
                )),
            (forall|n: int|
                0 <= n < desc.npoints ==> call_ensures(
                    desc.inductance_fn,
                    (mid_s(n, desc.length, desc.npoints),),
                    line.ind@[n],
                )),
            (forall|n: int|
                0 <= n < desc.npoints ==> call_ensures(
                    desc.resistance_fn,
                    (mid_s(n, desc.length, desc.npoints),),
                    line.res@[n],
                )),
            (forall|n: int|
                0 <= n < desc.npoints ==> call_ensures(
                    desc.conductance_fn,
                    (mid_s(n, desc.length, desc.npoints),),
                    line.cond@[n],
                )),
    {
        let delta_z = desc.length.div(T::of_usize(desc.npoints));
        let mut cap: Vec<T> = Vec::new();
        let mut ind: Vec<T> = Vec::new();
        let mut res: Vec<T> = Vec::new();
        let mut cond: Vec<T> = Vec::new();
        let mut n: usize = 0;
        while n < desc.npoints
            invariant
                n <= desc.npoints,
                total_fn(desc.capacitance_fn),
                total_fn(desc.inductance_fn),
                total_fn(desc.resistance_fn),
                total_fn(desc.conductance_fn),
                delta_z == desc.length.div_s(T::of_usize_s(desc.npoints)),
                cap@.len() == n,
                ind@.len() == n,
                res@.len() == n,
                cond@.len() == n,
                (forall|j: int|
                    0 <= j < n ==> call_ensures(
                        desc.capacitance_fn,
                        (mid_s(j, desc.length, desc.npoints),),
                        cap@[j],
                    )),
                (forall|j: int|
                    0 <= j < n ==> call_ensures(
                        desc.inductance_fn,
                        (mid_s(j, desc.length, desc.npoints),),
                        ind@[j],
                    )),
                (forall|j: int|
                    0 <= j < n ==> call_ensures(
                        desc.resistance_fn,
                        (mid_s(j, desc.length, desc.npoints),),
                        res@[j],
                    )),
                (forall|j: int|
                    0 <= j < n ==> call_ensures(
                        desc.conductance_fn,
                        (mid_s(j, desc.length, desc.npoints),),
                        cond@[j],
                    )),
            decreases desc.npoints - n,
        {
            let x = T::of_usize(n).plus(T::half()).times(delta_z);
            cap.push((desc.capacitance_fn)(x));
            ind.push((desc.inductance_fn)(x));
            res.push((desc.resistance_fn)(x));
            cond.push((desc.conductance_fn)(x));
            n = n + 1;
        }
        LinearLine { cap, ind, res, cond, npoints: desc.npoints, length: desc.length }
    }

    pub fn next_voltage(
        &self,
        last_volt: T,
        curr_left: T,
        curr_right: T,
        index: usize,
        p: &SimulationParameters<T>,
    ) -> (r: T)
        requires
            self.wf(),
            index < self.npoints,
        ensures
            r == self.next_voltage_s(last_volt, curr_left, curr_right, index as int, *p),
    {
        let cterm = p.delta_z.div(p.delta_t).times(self.cap[index]);
        let gterm = p.delta_z.times(self.cond[index]).div(T::of_usize(2));
        cterm.plus(gterm).recip().times(
            cterm.minus(gterm).times(last_volt).plus(curr_left.minus(curr_right)),
        )
    }

    pub fn next_current(
        &self,
        volt_left: T,
        volt_right: T,
        last_curr: T,
        index: usize,
        p: &SimulationParameters<T>,
    ) -> (r: T)
        requires
            self.wf(),
            index < self.npoints,
        ensures
            r == self.next_current_s(volt_left, volt_right, last_curr, index as int, *p),
    {
        let lterm = p.delta_z.div(p.delta_t).times(self.ind[index]);
        let rterm = p.delta_z.times(self.res[index]).div(T::of_usize(2));
        lterm.plus(rterm).recip().times(
            lterm.minus(rterm).times(last_curr).plus(volt_left.minus(volt_right)),
        )
    }

    /// The largest phase velocity of any cell, ties keeping the first.
    pub fn max_phase_velocity(&self) -> (r: T)
        requires
            self.wf(),
            self.npoints >= 1,
        ensures
            r == self.velocity_max_s(self.npoints as int),
    {
        let mut best = self.ind[0].times(self.cap[0]).sqrt().recip();
        let mut k: usize = 1;
        while k < self.npoints
            invariant
                self.wf(),
                1 <= k <= self.npoints,
                best == self.velocity_max_s(k as int),
            decreases self.npoints - k,
        {
            let item = self.ind[k].times(self.cap[k]).sqrt().recip();
            if !best.ge(item) {
                best = item;
            }
            k = k + 1;
        }
        best
    }

    /// On a uniform line, with the same inductance `l0` and capacitance
    /// `c0` in every cell, the largest phase velocity is the common
    /// cell's `1 / sqrt(l0 * c0)`, exactly and for every cell count.
    pub proof fn lemma_uniform_max_phase_velocity(&self, l0: T, c0: T)
        requires
            self.wf(),
            self.npoints >= 1,
            forall|k: int| 0 <= k < self.npoints ==> self.ind@[k] == l0,
            forall|k: int| 0 <= k < self.npoints ==> self.cap@[k] == c0,
        ensures
            self.velocity_max_s(self.npoints as int) == l0.times_s(c0).sqrt_s().recip_s(),
    {
        self.lemma_uniform_fold(l0, c0, self.npoints as int);
    }

    /// A running maximum over equal candidates is that candidate.
    proof fn lemma_uniform_fold(&self, l0: T, c0: T, k: int)
        requires
            self.wf(),
            self.npoints >= 1,
            1 <= k <= self.npoints,
            forall|j: int| 0 <= j < self.npoints ==> self.ind@[j] == l0,
            forall|j: int| 0 <= j < self.npoints ==> self.cap@[j] == c0,
        ensures
            self.velocity_max_s(k) == l0.times_s(c0).sqrt_s().recip_s(),
        decreases k,
    {
        if k > 1 {
            self.lemma_uniform_fold(l0, c0, k - 1);
        }
    }
}

} // verus!
