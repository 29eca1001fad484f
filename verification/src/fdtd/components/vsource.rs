//! The Thevenin-equivalent source at the start of the line.

use vstd::prelude::*;
use crate::fdtd::{d_ratio_s, deterministic, gen_s, total_fn};
use crate::scalar::Scalar;
use crate::simulation::SimulationParameters;

verus! {

/// A matched voltage source: a waveform generator behind the source's own
/// characteristic impedance, driving the first node of the line.
#[verifier::reject_recursive_types(T)]
pub struct MatchedVSource<T, Fs> where Fs: Fn(T) -> T {
    pub source_fn: Fs,
    pub capacitance: T,
    pub inductance: T,
    pub resistance: T,
    pub conductance: T,
}

impl<T: Scalar, Fs: Fn(T) -> T> MatchedVSource<T, Fs> {
    /// The waveform generator is total and a pure function of time.
    pub open spec fn wf(&self) -> bool {
        &&& total_fn(self.source_fn)
        &&& deterministic(self.source_fn)
    }

    /// The waveform's value at `time`.
    pub open spec fn generate_s(&self, time: T) -> T {
        gen_s(self.source_fn, time)
    }

    /// The fictitious source current implied by the waveform at `t`
    /// driving the boundary through the source's lossy-line equation.
    pub open spec fn source_current_s(
        &self,
        t: T,
        last_volt: T,
        last_curr: T,
        p: SimulationParameters<T>,
    ) -> T {
        let impedance = self.inductance.div_s(self.capacitance).sqrt_s();
        let total_resistance = p.delta_z.times_s(self.resistance).plus_s(impedance);
        let lterm = d_ratio_s(p).times_s(self.inductance);
        let half_res = total_resistance.div_s(T::of_usize_s(2));
        lterm.plus_s(half_res).recip_s().times_s(
            lterm.minus_s(half_res).times_s(last_curr).plus_s(
                self.generate_s(t).minus_s(last_volt),
            ),
        )
    }

    /// The next voltage at node 0: the standard voltage update fed by the
    /// fictitious source current.
    pub open spec fn next_voltage_s(
        &self,
        t: T,
        last_volt: T,
        last_curr: T,
        p: SimulationParameters<T>,
    ) -> T {
        let cterm = d_ratio_s(p).times_s(self.capacitance);
        let gterm = p.delta_z.times_s(self.conductance).div_s(T::of_usize_s(2));
        let src = self.source_current_s(t, last_volt, last_curr, p);
        cterm.plus_s(gterm).recip_s().times_s(
            cterm.minus_s(gterm).times_s(last_volt).plus_s(src.minus_s(last_curr)),
        )
    }

    /// Queries the waveform generator once.
    pub fn generate(&self, time: T) -> (r: T)
        requires
            self.wf(),
        ensures
            r == self.generate_s(time),
    {
        let r = (self.source_fn)(time);
        proof {
            assert(call_ensures(self.source_fn, (time,), r));
            assert(call_ensures(self.source_fn, (time,), gen_s(self.source_fn, time)));
        }
        r
    }

    pub fn next_voltage(
        &self,
        t: T,
        last_volt: T,
        last_curr: T,
        p: &SimulationParameters<T>,
    ) -> (r: T)
        requires
            self.wf(),
        ensures
            r == self.next_voltage_s(t, last_volt, last_curr, *p),
    {
        let impedance = self.inductance.div(self.capacitance).sqrt();
        let total_resistance = p.delta_z.times(self.resistance).plus(impedance);
        let d_ratio = p.delta_z.div(p.delta_t);
        let lterm = d_ratio.times(self.inductance);
        let half_res = total_resistance.div(T::of_usize(2));

        let last_source_curr = lterm.plus(half_res).recip().times(
            lterm.minus(half_res).times(last_curr).plus(self.generate(t).minus(last_volt)),
        );

        let cterm = d_ratio.times(self.capacitance);
        let gterm = p.delta_z.times(self.conductance).div(T::of_usize(2));
        cterm.plus(gterm).recip().times(
            cterm.minus(gterm).times(last_volt).plus(last_source_curr.minus(last_curr)),
        )
    }
}

} // verus!
