//! The nonlinear superconducting kinetic-inductance line model.

use vstd::prelude::*;
use crate::fdtd::{d_ratio_s, mid_s, total_fn};
use crate::scalar::Scalar;
use crate::simulation::SimulationParameters;

verus! {

/// Describes a `KiLine`.
#[verifier::reject_recursive_types(T)]
pub struct KiLineDescriptor<T, Fc, Fl, Fk, Fi> where
    Fc: Fn(T) -> T,
    Fl: Fn(T) -> T,
    Fk: Fn(T) -> T,
    Fi: Fn(T) -> T,
 {
    pub length: T,
    pub npoints: usize,
    pub capacitance_fn: Fc,
    pub inductance_fn: Fl,
    pub kinetic_inductance_fn: Fk,
    pub critical_current_fn: Fi,
}

/// A kinetic-inductance line: per-cell capacitance, total inductance
/// (geometric plus kinetic) and an effective critical current rescaled by
/// the square root of their ratio, sampled once at construction.
pub struct KiLine<T> {
    pub cap: Vec<T>,
    pub ind0: Vec<T>,
    pub crit_cur: Vec<T>,
    pub npoints: usize,
    pub length: T,
}

/// One Newton step on the cubic `g^3 + b*g^2 + c*g + d`, moving `g` by the
/// quotient of the cubic's value and its derivative `3*g^2 + 2*b*g + c`.
pub open spec fn newton_step_s<T: Scalar>(b: T, c: T, d: T, g: T) -> T {
    let val = g.times_s(g).times_s(g).plus_s(b.times_s(g.times_s(g))).plus_s(c.times_s(g)).plus_s(
        d,
    );
    let slope = T::of_usize_s(3).times_s(g.times_s(g)).plus_s(
        T::of_usize_s(2).times_s(b).times_s(g),
    ).plus_s(c);
    g.minus_s(val.div_s(slope))
}

/// `k` Newton steps from the seed `g`.
pub open spec fn newton_iter_s<T: Scalar>(b: T, c: T, d: T, g: T, k: nat) -> T
    decreases k,
{
    if k == 0 {
        g
    } else {
        newton_step_s(b, c, d, newton_iter_s(b, c, d, g, (k - 1) as nat))
    }
}

/// Whether `total` is a sum of one sample of each inductance function
/// at `x`, as the construction loop computes it.
pub open spec fn summed_inductance_sample<T: Scalar, Fl: Fn(T) -> T, Fk: Fn(T) -> T>(
    ind_fn: Fl,
    ki_fn: Fk,
    x: T,
    total: T,
) -> bool {
    exists|iv: T, kv: T|
        {
            &&& #[trigger] call_ensures(ind_fn, (x,), iv)
            &&& #[trigger] call_ensures(ki_fn, (x,), kv)
            &&& total == iv.plus_s(kv)
        }
}

/// Whether `v` is a critical-current sample at `x`, rescaled by the root
/// of the ratio of total to kinetic inductance, as the construction loop
/// computes it.
pub open spec fn scaled_critical_sample<T: Scalar, Fl: Fn(T) -> T, Fk: Fn(T) -> T, Fi: Fn(T) -> T>(
    ind_fn: Fl,
    ki_fn: Fk,
    crit_fn: Fi,
    x: T,
    v: T,
) -> bool {
    exists|iv: T, kv: T, cv: T|
        {
            &&& #[trigger] call_ensures(ind_fn, (x,), iv)
            &&& #[trigger] call_ensures(ki_fn, (x,), kv)
            &&& #[trigger] call_ensures(crit_fn, (x,), cv)
            &&& v == cv.times_s(iv.plus_s(kv).div_s(kv).sqrt_s())
        }
}

impl<T: Scalar> KiLine<T> {
    /// Each coefficient array holds one value per cell.
    pub open spec fn wf(&self) -> bool {
        &&& self.cap@.len() == self.npoints
        &&& self.ind0@.len() == self.npoints
        &&& self.crit_cur@.len() == self.npoints
    }

    /// The voltage update: the lossless special case of the linear form.
    pub open spec fn next_voltage_s(
        &self,
        last_volt: T,
        curr_left: T,
        curr_right: T,
        index: int,
        p: SimulationParameters<T>,
    ) -> T {
        let cterm = d_ratio_s(p).times_s(self.cap@[index]);
        cterm.recip_s().times_s(
            cterm.times_s(last_volt).plus_s(curr_left.minus_s(curr_right)),
        )
    }

    /// The coefficient on the quadratic term of the per-step cubic: the
    /// negated previous current.
    pub open spec fn cubic_b_s(&self, last_curr: T) -> T {
        T::zero_s().minus_s(last_curr)
    }

    /// The coefficient on the linear term: the squared effective critical
    /// current less the squared previous current.
    pub open spec fn cubic_c_s(&self, last_curr: T, index: int) -> T {
        let icrit = self.crit_cur@[index];
        icrit.times_s(icrit).minus_s(last_curr.times_s(last_curr))
    }

    /// The constant term, folding in the voltage difference across the
    /// cell scaled against its total inductance.
    pub open spec fn cubic_d_s(
        &self,
        volt_left: T,
        volt_right: T,
        last_curr: T,
        index: int,
        p: SimulationParameters<T>,
    ) -> T {
        let icrit = self.crit_cur@[index];
        let icrit2 = icrit.times_s(icrit);
        let dv = volt_right.minus_s(volt_left);
        let scale = p.delta_t.div_s(p.delta_z.times_s(self.ind0@[index]));
        icrit2.times_s(scale).times_s(dv).minus_s(icrit2.times_s(last_curr)).minus_s(
            last_curr.times_s(last_curr).times_s(last_curr),
        )
    }

    /// The current update: exactly three Newton steps on the cubic, seeded
    /// at the previous current. The iteration budget is fixed; nothing
    /// checks convergence.
    pub open spec fn next_current_s(
        &self,
        volt_left: T,
        volt_right: T,
        last_curr: T,
        index: int,
        p: SimulationParameters<T>,
    ) -> T {
        newton_iter_s(
            self.cubic_b_s(last_curr),
            self.cubic_c_s(last_curr, index),
            self.cubic_d_s(volt_left, volt_right, last_curr, index, p),
            last_curr,
            3,
        )
    }

    /// The phase velocity candidate of cell `k`.
    pub open spec fn velocity_s(&self, k: int) -> T {
        self.ind0@[k].times_s(self.cap@[k]).sqrt_s().recip_s()
    }

    /// The running maximum of the first `k` velocity candidates, keeping
    /// the earlier value on ties.
    pub open spec fn velocity_max_s(&self, k: int) -> T
        decreases k,
    {
        if k <= 1 {
            self.velocity_s(0)
        } else {
            let prev = self.velocity_max_s(k - 1);
            let item = self.velocity_s(k - 1);
            if prev.ge_s(item) {
                prev
            } else {
                item
            }
        }
    }

    pub fn new<Fc, Fl, Fk, Fi>(desc: KiLineDescriptor<T, Fc, Fl, Fk, Fi>) -> (line: KiLine<
        T,
    >) where
        Fc: Fn(T) -> T,
        Fl: Fn(T) -> T,
        Fk: Fn(T) -> T,
        Fi: Fn(T) -> T,

        requires
            total_fn(desc.capacitance_fn),
            total_fn(desc.inductance_fn),
            total_fn(desc.kinetic_inductance_fn),
            total_fn(desc.critical_current_fn),
        ensures
            line.wf(),
            line.npoints == desc.npoints,
            line.length == desc.length,
            (forall|n: int|
                0 <= n < desc.npoints ==> call_ensures(
                    desc.capacitance_fn,
                    (mid_s(n, desc.length, desc.npoints),),
                    line.cap@[n],
                )),
            (forall|n: int|
                0 <= n < desc.npoints ==> #[trigger] summed_inductance_sample(
                    desc.inductance_fn,
                    desc.kinetic_inductance_fn,
                    mid_s(n, desc.length, desc.npoints),
                    line.ind0@[n],
                )),
            (forall|n: int|
                0 <= n < desc.npoints ==> #[trigger] scaled_critical_sample(
                    desc.inductance_fn,
                    desc.kinetic_inductance_fn,
                    desc.critical_current_fn,
                    mid_s(n, desc.length, desc.npoints),
                    line.crit_cur@[n],
                )),
    {
        let delta_z = desc.length.div(T::of_usize(desc.npoints));
        let mut cap: Vec<T> = Vec::new();
        let mut ind0: Vec<T> = Vec::new();
        let mut crit_cur: Vec<T> = Vec::new();
        let mut n: usize = 0;
        while n < desc.npoints
            invariant
                n <= desc.npoints,
                total_fn(desc.capacitance_fn),
                total_fn(desc.inductance_fn),
                total_fn(desc.kinetic_inductance_fn),
                total_fn(desc.critical_current_fn),
                delta_z == desc.length.div_s(T::of_usize_s(desc.npoints)),
                cap@.len() == n,
                ind0@.len() == n,
                crit_cur@.len() == n,
                (forall|j: int|
                    0 <= j < n ==> call_ensures(
                        desc.capacitance_fn,
                        (mid_s(j, desc.length, desc.npoints),),
                        cap@[j],
                    )),
                (forall|j: int|
                    0 <= j < n ==> #[trigger] summed_inductance_sample(
                        desc.inductance_fn,
                        desc.kinetic_inductance_fn,
                        mid_s(j, desc.length, desc.npoints),
                        ind0@[j],
                    )),
                (forall|j: int|
                    0 <= j < n ==> #[trigger] scaled_critical_sample(
                        desc.inductance_fn,
                        desc.kinetic_inductance_fn,
                        desc.critical_current_fn,
                        mid_s(j, desc.length, desc.npoints),
                        crit_cur@[j],
                    )),
            decreases desc.npoints - n,
        {
            let x = T::of_usize(n).plus(T::half()).times(delta_z);
            cap.push((desc.capacitance_fn)(x));
            let iv = (desc.inductance_fn)(x);
            let kv = (desc.kinetic_inductance_fn)(x);
            ind0.push(iv.plus(kv));
            let iv2 = (desc.inductance_fn)(x);
            let kv2 = (desc.kinetic_inductance_fn)(x);
            let cv = (desc.critical_current_fn)(x);
            crit_cur.push(cv.times(iv2.plus(kv2).div(kv2).sqrt()));
            proof {
                assert(x == mid_s(n as int, desc.length, desc.npoints));
                assert(summed_inductance_sample(
                    desc.inductance_fn,
                    desc.kinetic_inductance_fn,
                    x,
                    iv.plus_s(kv),
                ));
                assert(scaled_critical_sample(
                    desc.inductance_fn,
                    desc.kinetic_inductance_fn,
                    desc.critical_current_fn,
                    x,
                    cv.times_s(iv2.plus_s(kv2).div_s(kv2).sqrt_s()),
                ));
            }
            n = n + 1;
        }
        KiLine { cap, ind0, crit_cur, npoints: desc.npoints, length: desc.length }
    }

    pub fn next_voltage(
        &self,
        last_volt: T,
        curr_left: T,
        curr_right: T,
        index: usize,
        p: &SimulationParameters<T>,
    ) -> (r: T)
        requires
            self.wf(),
            index < self.npoints,
        ensures
            r == self.next_voltage_s(last_volt, curr_left, curr_right, index as int, *p),
    {
        let cterm = p.delta_z.div(p.delta_t).times(self.cap[index]);
        cterm.recip().times(cterm.times(last_volt).plus(curr_left.minus(curr_right)))
    }

    pub fn next_current(
        &self,
        volt_left: T,
        volt_right: T,
        last_curr: T,
        index: usize,
        p: &SimulationParameters<T>,
    ) -> (r: T)
        requires
            self.wf(),
            index < self.npoints,
        ensures
            r == self.next_current_s(volt_left, volt_right, last_curr, index as int, *p),
    {
        let icrit = self.crit_cur[index];
        let icrit2 = icrit.times(icrit);
        let b = T::zero().minus(last_curr);
        let c = icrit2.minus(last_curr.times(last_curr));
        let dv = volt_right.minus(volt_left);
        let scale = p.delta_t.div(p.delta_z.times(self.ind0[index]));
        let d = icrit2.times(scale).times(dv).minus(icrit2.times(last_curr)).minus(
            last_curr.times(last_curr).times(last_curr),
        );

        let mut guess = last_curr;
        let mut k: usize = 0;
        while k < 3
            invariant
                k <= 3,
                b == self.cubic_b_s(last_curr),
                c == self.cubic_c_s(last_curr, index as int),
                d == self.cubic_d_s(volt_left, volt_right, last_curr, index as int, *p),
                guess == newton_iter_s(b, c, d, last_curr, k as nat),
            decreases 3 - k,
        {
            let val = guess.times(guess).times(guess).plus(b.times(guess.times(guess))).plus(
                c.times(guess),
            ).plus(d);
            let slope = T::of_usize(3).times(guess.times(guess)).plus(
                T::of_usize(2).times(b).times(guess),
            ).plus(c);
            guess = guess.minus(val.div(slope));
            k = k + 1;
        }
        guess
    }

    /// The largest phase velocity of any cell, ties keeping the first.
    pub fn max_phase_velocity(&self) -> (r: T)
        requires
            self.wf(),
            self.npoints >= 1,
        ensures
            r == self.velocity_max_s(self.npoints as int),
    {
        let mut best = self.ind0[0].times(self.cap[0]).sqrt().recip();
        let mut k: usize = 1;
        while k < self.npoints
            invariant
                self.wf(),
                1 <= k <= self.npoints,
                best == self.velocity_max_s(k as int),
            decreases self.npoints - k,
        {
            let item = self.ind0[k].times(self.cap[k]).sqrt().recip();
            if !best.ge(item) {
                best = item;
            }
            k = k + 1;
        }
        best
    }

    /// On a uniform line, with the same total inductance `l0` and
    /// capacitance `c0` in every cell, the largest phase velocity is the
    /// common cell's `1 / sqrt(l0 * c0)`, exactly and for every cell
    /// count.
    pub proof fn lemma_uniform_max_phase_velocity(&self, l0: T, c0: T)
        requires
            self.wf(),
            self.npoints >= 1,
            forall|k: int| 0 <= k < self.npoints ==> self.ind0@[k] == l0,
            forall|k: int| 0 <= k < self.npoints ==> self.cap@[k] == c0,
        ensures
            self.velocity_max_s(self.npoints as int) == l0.times_s(c0).sqrt_s().recip_s(),
    {
        self.lemma_uniform_fold(l0, c0, self.npoints as int);
    }

    /// A running maximum over equal candidates is that candidate.
    proof fn lemma_uniform_fold(&self, l0: T, c0: T, k: int)
        requires
            self.wf(),
            self.npoints >= 1,
            1 <= k <= self.npoints,
            forall|j: int| 0 <= j < self.npoints ==> self.ind0@[j] == l0,
            forall|j: int| 0 <= j < self.npoints ==> self.cap@[j] == c0,
        ensures
            self.velocity_max_s(k) == l0.times_s(c0).sqrt_s().recip_s(),
        decreases k,
    {
        if k > 1 {
            self.lemma_uniform_fold(l0, c0, k - 1);
        }
    }
}

/// One Newton step on the trivial cubic `g^3 + g` (unit critical current,
/// zero previous current, zero drive) maps the zero seed to zero exactly.
proof fn lemma_newton_step_stays_zero<T: Scalar>()
    ensures
        newton_step_s(T::zero_s(), T::one_s(), T::zero_s(), T::zero_s()) == T::zero_s(),
{
    let zero = T::zero_s();
    let one = T::one_s();
    T::law_times_zero(zero);
    T::law_times_zero(one);
    T::law_times_zero(T::of_usize_s(3));
    T::law_times_zero(T::of_usize_s(2));
    T::law_plus_zero(zero);
    T::law_plus_zero(one);
    T::law_zero_ne_one();
    T::law_zero_div(one);
    assert(zero.times_s(zero) == zero);
    assert(zero.times_s(zero).times_s(zero) == zero);
    assert(zero.plus_s(zero) == zero);
    assert(one.times_s(zero) == zero);
    assert(zero.plus_s(one) == one);
    assert(zero.div_s(one) == zero);
    assert(zero.minus_s(zero) == zero);
}

/// Iterating a step that fixes zero keeps zero, for any iteration budget.
proof fn lemma_newton_iter_stays_zero<T: Scalar>(k: nat)
    ensures
        newton_iter_s(T::zero_s(), T::one_s(), T::zero_s(), T::zero_s(), k) == T::zero_s(),
    decreases k,
{
    if k > 0 {
        lemma_newton_iter_stays_zero::<T>((k - 1) as nat);
        lemma_newton_step_stays_zero::<T>();
    }
}

impl<T: Scalar> KiLine<T> {
    /// Seeding the per-cell cubic with a zero previous current, a unit
    /// effective critical current and no voltage difference across the
    /// cell, the fixed three-step Newton solve returns the trivial root
    /// zero exactly, whatever the cell's inductance.
    pub proof fn lemma_newton_trivial_root(
        &self,
        volt_left: T,
        volt_right: T,
        index: int,
        p: SimulationParameters<T>,
    )
        requires
            0 <= index < self.crit_cur@.len(),
            self.crit_cur@[index] == T::one_s(),
            volt_right.minus_s(volt_left) == T::zero_s(),
        ensures
            self.next_current_s(volt_left, volt_right, T::zero_s(), index, p) == T::zero_s(),
    {
        let zero = T::zero_s();
        let one = T::one_s();
        let scale = p.delta_t.div_s(p.delta_z.times_s(self.ind0@[index]));
        T::law_times_one(one);
        T::law_times_one(scale);
        T::law_times_zero(zero);
        T::law_times_zero(one);
        T::law_times_zero(one.times_s(one).times_s(scale));
        T::law_plus_zero(zero);
        T::law_plus_zero(one);
        assert(self.cubic_b_s(zero) == zero);
        assert(self.cubic_c_s(zero, index) == one);
        assert(self.cubic_d_s(volt_left, volt_right, zero, index, p) == zero);
        lemma_newton_iter_stays_zero::<T>(3);
    }
}

} // verus!
