//! The Thevenin-equivalent terminator at the end of the line.

use vstd::prelude::*;
use crate::fdtd::d_ratio_s;
use crate::scalar::Scalar;
use crate::simulation::SimulationParameters;

verus! {

/// A matched load: the load's characteristic admittance is folded into
/// its conductance term, so a wave arriving at the end of a matched line
/// is absorbed instead of reflected.
pub struct MatchedTerminator<T> {
    pub inductance: T,
    pub capacitance: T,
    pub resistance: T,
    pub conductance: T,
}

impl<T: Scalar> MatchedTerminator<T> {
    /// The next voltage at the last node, against the load's capacitance
    /// and total conductance (its own plus the characteristic admittance).
    pub open spec fn next_voltage_s(&self, last_volt: T, last_curr: T, p: SimulationParameters<T>) -> T {
        let load_conductance = self.capacitance.div_s(self.inductance).sqrt_s();
        let total_conductance = p.delta_z.times_s(self.conductance).plus_s(load_conductance);
        let cterm = d_ratio_s(p).times_s(self.capacitance);
        let half_cond = total_conductance.div_s(T::of_usize_s(2));
        cterm.plus_s(half_cond).recip_s().times_s(
            cterm.minus_s(half_cond).times_s(last_volt).plus_s(last_curr),
        )
    }

    /// The next current at the last node, from the two innermost voltages
    /// of the freshly advanced row.
    pub open spec fn next_current_s(&self, volt_left: T, volt_right: T, last_curr: T, p: SimulationParameters<T>) -> T {
        let lterm = d_ratio_s(p).times_s(self.inductance);
        let rterm = p.delta_z.times_s(self.resistance).div_s(T::of_usize_s(2));
        lterm.plus_s(rterm).recip_s().times_s(
            lterm.minus_s(rterm).times_s(last_curr).plus_s(volt_left.minus_s(volt_right)),
        )
    }

    pub fn next_voltage(&self, last_volt: T, last_curr: T, p: &SimulationParameters<T>) -> (r: T)
        ensures
            r == self.next_voltage_s(last_volt, last_curr, *p),
    {
        let load_conductance = self.capacitance.div(self.inductance).sqrt();
        let total_conductance = p.delta_z.times(self.conductance).plus(load_conductance);
        let cterm = p.delta_z.div(p.delta_t).times(self.capacitance);
        let half_cond = total_conductance.div(T::of_usize(2));
        cterm.plus(half_cond).recip().times(
            cterm.minus(half_cond).times(last_volt).plus(last_curr),
        )
    }

    pub fn next_current(&self, volt_left: T, volt_right: T, last_curr: T, p: &SimulationParameters<T>) -> (r: T)
        ensures
            r == self.next_current_s(volt_left, volt_right, last_curr, *p),
    {
        let lterm = p.delta_z.div(p.delta_t).times(self.inductance);
        let rterm = p.delta_z.times(self.resistance).div(T::of_usize(2));
        lterm.plus(rterm).recip().times(
            lterm.minus(rterm).times(last_curr).plus(volt_left.minus(volt_right)),
        )
    }
}

} // verus!
