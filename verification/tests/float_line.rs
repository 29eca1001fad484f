//! The library driven by an IEEE single-precision scalar: update formulas,
//! the nonlinear solve, phase velocities, wave propagation and energy.

use tline::fdtd::components::{
    KiLine, KiLineDescriptor, LinearLine, LinearLineDescriptor, MatchedTerminator, MatchedVSource,
};
use tline::fdtd::{FdtdSolver, FdtdSolverDescriptor, TransmissionLine};
use tline::{
    ComputeDescriptor, NoProgress, RecordingSink, RunDescriptor, SaveSettings, Scalar, Simulation,
    SimulationDescriptor, SimulationParameters, SimulationState,
};

/// An IEEE single-precision scalar, as a simulation binary would use.
#[derive(Clone, Copy, Debug, PartialEq)]
pub struct Fp(pub f32);

impl Scalar for Fp {
    // The `*_s` and `law_*` items are the trait's specification members.
    // Verification never runs them, and compiled code never calls them, so
    // an implementation outside the verified world gives them inert bodies.
    fn plus_s(self, _: Fp) -> Fp {
        self
    }

    fn minus_s(self, _: Fp) -> Fp {
        self
    }

    fn times_s(self, _: Fp) -> Fp {
        self
    }

    fn div_s(self, _: Fp) -> Fp {
        self
    }

    fn recip_s(self) -> Fp {
        self
    }

    fn sqrt_s(self) -> Fp {
        self
    }

    fn ge_s(self, _: Fp) -> bool {
        true
    }

    fn zero_s() -> Fp {
        Fp(0.0)
    }

    fn one_s() -> Fp {
        Fp(1.0)
    }

    fn half_s() -> Fp {
        Fp(0.5)
    }

    fn of_usize_s(_: usize) -> Fp {
        Fp(0.0)
    }

    fn steps_s(_: Fp, _: Fp) -> usize {
        0
    }

    fn law_plus_zero(_: Fp) {
    }

    fn law_times_zero(_: Fp) {
    }

    fn law_times_one(_: Fp) {
    }

    fn law_zero_div(_: Fp) {
    }

    fn law_zero_ne_one() {
    }

    fn plus(self, o: Fp) -> Fp {
        Fp(self.0 + o.0)
    }

    fn minus(self, o: Fp) -> Fp {
        Fp(self.0 - o.0)
    }

    fn times(self, o: Fp) -> Fp {
        Fp(self.0 * o.0)
    }

    fn div(self, o: Fp) -> Fp {
        Fp(self.0 / o.0)
    }

    fn recip(self) -> Fp {
        Fp(self.0.recip())
    }

    fn sqrt(self) -> Fp {
        Fp(self.0.sqrt())
    }

    fn ge(self, o: Fp) -> bool {
        self.0 >= o.0
    }

    fn zero() -> Fp {
        Fp(0.0)
    }

    fn one() -> Fp {
        Fp(1.0)
    }

    fn half() -> Fp {
        Fp(0.5)
    }

    fn of_usize(n: usize) -> Fp {
        Fp(n as f32)
    }

    fn steps_for(duration: Fp, dt: Fp) -> usize {
        (duration.0 / dt.0).ceil() as usize
    }
}

fn matched_solver(npoints: usize, source: fn(Fp) -> Fp) -> FdtdSolver<Fp, fn(Fp) -> Fp> {
    let capacitance = 400e-12; // [F / m]
    let inductance = 1e-6; // [H / m]
    let tline = TransmissionLine::Linear(LinearLine::new(LinearLineDescriptor {
        length: Fp(2.0), // [m]
        npoints,
        capacitance_fn: |_: Fp| Fp(capacitance),
        inductance_fn: |_: Fp| Fp(inductance),
        resistance_fn: |_: Fp| Fp(0.0),
        conductance_fn: |_: Fp| Fp(0.0),
    }));
    FdtdSolver::new(FdtdSolverDescriptor {
        tline,
        source: MatchedVSource {
            source_fn: source,
            capacitance: Fp(capacitance),
            inductance: Fp(inductance),
            resistance: Fp(0.0),
            conductance: Fp(0.0),
        },
        terminator: MatchedTerminator {
            inductance: Fp(inductance),
            capacitance: Fp(capacitance),
            resistance: Fp(0.0),
            conductance: Fp(0.0),
        },
    })
}

#[test]
fn linear_voltage_update_matches_the_closed_form() {
    let line = LinearLine::<Fp>::new(LinearLineDescriptor {
        length: Fp(2.0),
        npoints: 1,
        capacitance_fn: |_: Fp| Fp(1.0),
        inductance_fn: |_: Fp| Fp(1.0),
        resistance_fn: |_: Fp| Fp(0.0),
        conductance_fn: |_: Fp| Fp(0.0),
    });
    let p = SimulationParameters { delta_z: Fp(2.0), delta_t: Fp(1.0) };
    // (2*1).recip() * ((2*1)*3 + (1 - 2)) = 0.5 * 5
    assert_eq!(line.next_voltage(Fp(3.0), Fp(1.0), Fp(2.0), 0, &p), Fp(2.5));
    // same shape against the inductance for the current
    assert_eq!(line.next_current(Fp(1.0), Fp(2.0), Fp(3.0), 0, &p), Fp(2.5));
}

#[test]
fn terminator_update_matches_the_closed_form() {
    let term = MatchedTerminator {
        inductance: Fp(1.0),
        capacitance: Fp(1.0),
        resistance: Fp(0.0),
        conductance: Fp(0.0),
    };
    let p = SimulationParameters { delta_z: Fp(2.0), delta_t: Fp(1.0) };
    // load admittance 1; (2 + 0.5).recip() * ((2 - 0.5)*2 + 1) = 4/2.5
    assert_eq!(term.next_voltage(Fp(2.0), Fp(1.0), &p), Fp(4.0 / 2.5));
    // (2 + 0).recip() * ((2 - 0)*3 + (1 - 2)) = 2.5
    assert_eq!(term.next_current(Fp(1.0), Fp(2.0), Fp(3.0), &p), Fp(2.5));
}

#[test]
fn source_update_folds_in_the_waveform() {
    fn unit_step(_: Fp) -> Fp {
        Fp(1.0)
    }
    let source = MatchedVSource {
        source_fn: unit_step as fn(Fp) -> Fp,
        capacitance: Fp(1.0),
        inductance: Fp(1.0),
        resistance: Fp(0.0),
        conductance: Fp(0.0),
    };
    let p = SimulationParameters { delta_z: Fp(2.0), delta_t: Fp(1.0) };
    assert_eq!(source.generate(Fp(0.25)), Fp(1.0));
    // source current (2 + 0.5).recip() * (1 - 0) = 0.4, then
    // (2).recip() * (0.4 - 0) = 0.2
    let r = source.next_voltage(Fp(0.0), Fp(0.0), Fp(0.0), &p);
    assert!((r.0 - 0.2).abs() < 1e-6);
}

#[test]
fn newton_returns_the_trivial_root_exactly() {
    // one cell with zero geometric inductance: the effective critical
    // current is exactly one
    let line = KiLine::<Fp>::new(KiLineDescriptor {
        length: Fp(2.0),
        npoints: 1,
        capacitance_fn: |_: Fp| Fp(1.0),
        inductance_fn: |_: Fp| Fp(0.0),
        kinetic_inductance_fn: |_: Fp| Fp(0.5),
        critical_current_fn: |_: Fp| Fp(1.0),
    });
    assert_eq!(line.crit_cur, vec![Fp(1.0)]);
    let p = SimulationParameters { delta_z: Fp(2.0), delta_t: Fp(0.25) };
    // zero seed, unit critical current, no voltage difference: three
    // Newton iterations stay at zero, bit for bit
    let r = line.next_current(Fp(3.5), Fp(3.5), Fp(0.0), 0, &p);
    assert_eq!(r.0.to_bits(), 0.0f32.to_bits());
}

#[test]
fn uniform_lines_have_the_common_phase_velocity() {
    for npoints in [1usize, 3, 8, 41] {
        let line = LinearLine::<Fp>::new(LinearLineDescriptor {
            length: Fp(2.0),
            npoints,
            capacitance_fn: |_: Fp| Fp(4.0),
            inductance_fn: |_: Fp| Fp(1.0),
            resistance_fn: |_: Fp| Fp(0.0),
            conductance_fn: |_: Fp| Fp(0.0),
        });
        // 1 / sqrt(1 * 4), exactly, for every cell count
        assert_eq!(line.max_phase_velocity(), Fp(0.5));

        let ki = KiLine::<Fp>::new(KiLineDescriptor {
            length: Fp(2.0),
            npoints,
            capacitance_fn: |_: Fp| Fp(4.0),
            inductance_fn: |_: Fp| Fp(0.5),
            kinetic_inductance_fn: |_: Fp| Fp(0.5),
            critical_current_fn: |_: Fp| Fp(1.0),
        });
        assert_eq!(ki.max_phase_velocity(), Fp(0.5));
    }
}

#[test]
fn simulation_parameters_follow_from_the_geometry() {
    let line = TransmissionLine::Linear(LinearLine::<Fp>::new(LinearLineDescriptor {
        length: Fp(2.0),
        npoints: 4,
        capacitance_fn: |_: Fp| Fp(4.0),
        inductance_fn: |_: Fp| Fp(1.0),
        resistance_fn: |_: Fp| Fp(0.0),
        conductance_fn: |_: Fp| Fp(0.0),
    }));
    let p = line.calculate_simulation_parameters(Fp(2.0));
    assert_eq!(p.delta_z, Fp(0.5));
    assert_eq!(p.delta_t, Fp(0.5));
}

#[test]
fn batch_splitting_is_bitwise_transparent_on_dyadic_times() {
    fn unit_step(_: Fp) -> Fp {
        Fp(1.0)
    }
    let solver = matched_solver(8, unit_step);
    let p = SimulationParameters { delta_z: Fp(2.0), delta_t: Fp(0.25) };
    let state = SimulationState {
        time: Fp(0.0),
        voltages: (0..10).map(|k| Fp((k % 3) as f32 * 0.25)).collect(),
        currents: (0..9).map(|k| Fp((k % 2) as f32 * 0.5)).collect(),
    };

    let (volts, currs) = solver
        .compute(ComputeDescriptor { state: &state, sim_params: p, nsteps: 4 }, &mut NoProgress)
        .unwrap();

    let (v1, c1) = solver
        .compute(ComputeDescriptor { state: &state, sim_params: p, nsteps: 2 }, &mut NoProgress)
        .unwrap();
    let middle = SimulationState {
        time: state.time.plus(Fp::of_usize(2).times(p.delta_t)),
        voltages: v1[2].clone(),
        currents: c1[2].clone(),
    };
    let (v2, c2) = solver
        .compute(ComputeDescriptor { state: &middle, sim_params: p, nsteps: 2 }, &mut NoProgress)
        .unwrap();

    for (a, b) in v2[2].iter().zip(volts[4].iter()) {
        assert_eq!(a.0.to_bits(), b.0.to_bits());
    }
    for (a, b) in c2[2].iter().zip(currs[4].iter()) {
        assert_eq!(a.0.to_bits(), b.0.to_bits());
    }
}

#[test]
fn a_step_on_a_matched_line_settles_at_half_the_amplitude() {
    fn unit_step(_: Fp) -> Fp {
        Fp(1.0)
    }
    let npoints = 50;
    let solver = matched_solver(npoints, unit_step);
    let line_len = match &solver.tline {
        TransmissionLine::Linear(l) => l.npoints,
        TransmissionLine::Kinetic(l) => l.npoints,
    };
    assert_eq!(line_len, npoints);
    // delta_z = 2 m / 50; phase velocity 5e7 m/s; Courant factor 2
    let p = solver.tline.calculate_simulation_parameters(Fp(2.0));

    let mut sim = Simulation::new(SimulationDescriptor {
        solver,
        sim_params: p,
        init_state: None,
    })
    .unwrap();
    // ten round trips: the transit time is 4e-8 s
    sim.run(
        RunDescriptor {
            time_duration: Fp(4e-7),
            verbose: false,
            save_settings: None::<SaveSettings<&str>>,
        },
        &mut RecordingSink::new(),
        &mut NoProgress,
    )
    .unwrap();

    let first = sim.state.voltages[0].0;
    let last = sim.state.voltages[npoints + 1].0;
    assert!((first - 0.5).abs() < 0.02, "boundary voltage {} is not near 0.5", first);
    assert!((last - 0.5).abs() < 0.02, "far-end voltage {} is not near 0.5", last);
}

#[test]
fn a_free_pulse_keeps_its_energy_away_from_the_boundaries() {
    fn silent(_: Fp) -> Fp {
        Fp(0.0)
    }
    let npoints = 100;
    let tline = TransmissionLine::Linear(LinearLine::new(LinearLineDescriptor {
        length: Fp(npoints as f32),
        npoints,
        capacitance_fn: |_: Fp| Fp(1.0),
        inductance_fn: |_: Fp| Fp(1.0),
        resistance_fn: |_: Fp| Fp(0.0),
        conductance_fn: |_: Fp| Fp(0.0),
    }));
    let solver = FdtdSolver::new(FdtdSolverDescriptor {
        tline,
        source: MatchedVSource {
            source_fn: silent as fn(Fp) -> Fp,
            capacitance: Fp(1.0),
            inductance: Fp(1.0),
            resistance: Fp(0.0),
            conductance: Fp(0.0),
        },
        terminator: MatchedTerminator {
            inductance: Fp(1.0),
            capacitance: Fp(1.0),
            resistance: Fp(0.0),
            conductance: Fp(0.0),
        },
    });
    // a triangular voltage pulse in the middle of the line, at rest
    let voltages: Vec<Fp> = (0..npoints + 2)
        .map(|j| {
            let d = (j as f32 - 51.0).abs();
            Fp(if d < 5.0 { (5.0 - d) / 5.0 } else { 0.0 })
        })
        .collect();
    let currents: Vec<Fp> = vec![Fp(0.0); npoints + 1];
    let state = SimulationState { time: Fp(0.0), voltages, currents };
    let p = SimulationParameters { delta_z: Fp(1.0), delta_t: Fp(0.5) };

    let nsteps = 20;
    let (volts, currs) = solver
        .compute(ComputeDescriptor { state: &state, sim_params: p, nsteps }, &mut NoProgress)
        .unwrap();

    let energy = |vs: &Vec<Fp>, is: &Vec<Fp>| -> f32 {
        let mut e = 0.0f32;
        for j in 1..=npoints {
            e += vs[j].0 * vs[j].0;
        }
        for j in 0..npoints {
            e += is[j].0 * is[j].0;
        }
        e
    };
    let e0 = energy(&volts[0], &currs[0]);
    let e1 = energy(&volts[nsteps], &currs[nsteps]);
    assert!(e0 > 0.0);
    let drift = (e1 - e0).abs() / e0;
    assert!(drift < 0.05, "energy drifted by {}", drift);
}
