//! Driver behaviour: construction validation, zero-length runs, batching
//! transparency and sink failure handling, on the exact `i64` scalar.

use tline::fdtd::components::{
    KiLine, KiLineDescriptor, LinearLine, LinearLineDescriptor, MatchedTerminator, MatchedVSource,
};
use tline::fdtd::{FdtdSolver, FdtdSolverDescriptor, TransmissionLine};
use tline::{
    ComputeDescriptor, Error, NoProgress, PersistenceSink, RecordingSink, RunDescriptor,
    SaveSettings, SaveType, Simulation, SimulationDescriptor, SimulationParameters,
    SimulationState,
};

fn int_line(npoints: usize) -> TransmissionLine<i64> {
    TransmissionLine::Linear(LinearLine::new(LinearLineDescriptor {
        length: 2 * npoints as i64,
        npoints,
        capacitance_fn: |_: i64| 3,
        inductance_fn: |_: i64| 2,
        resistance_fn: |_: i64| 0,
        conductance_fn: |_: i64| 0,
    }))
}

fn int_solver(npoints: usize) -> FdtdSolver<i64, fn(i64) -> i64> {
    fn waveform(_t: i64) -> i64 {
        8
    }
    FdtdSolver::new(FdtdSolverDescriptor {
        tline: int_line(npoints),
        source: MatchedVSource {
            source_fn: waveform as fn(i64) -> i64,
            capacitance: 3,
            inductance: 2,
            resistance: 0,
            conductance: 0,
        },
        terminator: MatchedTerminator { inductance: 2, capacitance: 3, resistance: 0, conductance: 0 },
    })
}

fn int_state(npoints: usize) -> SimulationState<i64> {
    SimulationState {
        time: 0,
        voltages: (0..npoints + 2).map(|k| k as i64 % 5).collect(),
        currents: (0..npoints + 1).map(|k| (2 * k) as i64 % 7).collect(),
    }
}

const PARAMS: SimulationParameters<i64> = SimulationParameters { delta_z: 2, delta_t: 1 };

/// A sink whose writes always fail.
struct BrokenSink;

impl PersistenceSink<i64> for BrokenSink {
    fn begin_run(
        &mut self,
        _save_type: SaveType,
        _overwrite: bool,
        _nsteps: usize,
        _total_points: usize,
        _delta_z: i64,
        _delta_t: i64,
    ) -> Result<(usize, usize), String> {
        Ok((0, 0))
    }

    fn write_batch(
        &mut self,
        _save_type: SaveType,
        _voltages: &Vec<Vec<i64>>,
        _currents: &Vec<Vec<i64>>,
        _start_index: usize,
        _end_offset: usize,
        _full_offset: usize,
    ) -> Result<(), String> {
        Err("the store is broken".to_string())
    }
}

#[test]
fn construction_rejects_short_voltage_array() {
    let npoints = 4;
    let mut state = int_state(npoints);
    state.voltages.pop();
    let r = Simulation::new(SimulationDescriptor {
        solver: int_solver(npoints),
        sim_params: PARAMS,
        init_state: Some(state),
    });
    match r {
        Err(Error::BadInit { array_name, input_length, expected_length }) => {
            assert_eq!(array_name, "Voltage");
            assert_eq!(input_length, npoints + 1);
            assert_eq!(expected_length, npoints + 2);
        }
        _ => panic!("a short voltage array must be rejected"),
    }
}

#[test]
fn construction_rejects_short_current_array() {
    let npoints = 4;
    let mut state = int_state(npoints);
    state.currents.pop();
    let r = Simulation::new(SimulationDescriptor {
        solver: int_solver(npoints),
        sim_params: PARAMS,
        init_state: Some(state),
    });
    match r {
        Err(Error::BadInit { array_name, input_length, expected_length }) => {
            assert_eq!(array_name, "Current");
            assert_eq!(input_length, npoints);
            assert_eq!(expected_length, npoints + 1);
        }
        _ => panic!("a short current array must be rejected"),
    }
}

#[test]
fn construction_zero_fills_a_missing_state() {
    let npoints = 4;
    let sim = Simulation::new(SimulationDescriptor {
        solver: int_solver(npoints),
        sim_params: PARAMS,
        init_state: None,
    })
    .unwrap();
    assert_eq!(sim.state.time, 0);
    assert_eq!(sim.state.voltages, vec![0i64; npoints + 2]);
    assert_eq!(sim.state.currents, vec![0i64; npoints + 1]);
}

#[test]
fn zero_length_run_changes_nothing_and_emits_no_batch() {
    let npoints = 4;
    let sim0 = int_state(npoints);
    let mut sim = Simulation::new(SimulationDescriptor {
        solver: int_solver(npoints),
        sim_params: PARAMS,
        init_state: Some(int_state(npoints)),
    })
    .unwrap();
    let mut sink: RecordingSink<i64> = RecordingSink::new();
    let r = sim.run(
        RunDescriptor {
            time_duration: 0,
            verbose: false,
            save_settings: Some(SaveSettings {
                filename: "anywhere",
                save_type: SaveType::Full,
                overwrite: true,
            }),
        },
        &mut sink,
        &mut NoProgress,
    );
    assert!(r.is_ok());
    assert_eq!(sim.state.time, sim0.time);
    assert_eq!(sim.state.voltages, sim0.voltages);
    assert_eq!(sim.state.currents, sim0.currents);
    assert_eq!(sink.runs, 0);
    assert!(sink.voltage_batches.is_empty());
    assert!(sink.starts.is_empty());
}

#[test]
fn one_batch_run_hands_the_sink_each_new_row() {
    let npoints = 4;
    let mut sim = Simulation::new(SimulationDescriptor {
        solver: int_solver(npoints),
        sim_params: PARAMS,
        init_state: Some(int_state(npoints)),
    })
    .unwrap();
    let mut sink: RecordingSink<i64> = RecordingSink::new();
    sim.run(
        RunDescriptor {
            time_duration: 5,
            verbose: false,
            save_settings: Some(SaveSettings {
                filename: "anywhere",
                save_type: SaveType::End,
                overwrite: true,
            }),
        },
        &mut sink,
        &mut NoProgress,
    )
    .unwrap();
    assert_eq!(sink.runs, 1);
    assert_eq!(sink.starts, vec![0]);
    assert_eq!(sink.voltage_batches.len(), 1);
    assert_eq!(sink.voltage_batches[0].len(), 5);
    assert_eq!(sink.current_batches[0].len(), 5);
    // the last row handed over is the new driver state
    assert_eq!(sink.voltage_batches[0][4], sim.state.voltages);
    assert_eq!(sink.current_batches[0][4], sim.state.currents);
    assert_eq!(sim.state.time, 5);
}

#[test]
fn a_sink_failure_aborts_before_the_state_advances() {
    let npoints = 4;
    let sim0 = int_state(npoints);
    let mut sim = Simulation::new(SimulationDescriptor {
        solver: int_solver(npoints),
        sim_params: PARAMS,
        init_state: Some(int_state(npoints)),
    })
    .unwrap();
    let r = sim.run(
        RunDescriptor {
            time_duration: 5,
            verbose: false,
            save_settings: Some(SaveSettings {
                filename: "anywhere",
                save_type: SaveType::End,
                overwrite: false,
            }),
        },
        &mut BrokenSink,
        &mut NoProgress,
    );
    match r {
        Err(Error::SinkFailure(msg)) => assert_eq!(msg, "the store is broken"),
        _ => panic!("a failing sink must abort the run"),
    }
    // the failing batch was never folded into the state
    assert_eq!(sim.state.time, sim0.time);
    assert_eq!(sim.state.voltages, sim0.voltages);
    assert_eq!(sim.state.currents, sim0.currents);
}

#[test]
fn the_driver_reaches_the_solver_trajectory() {
    let npoints = 4;
    let mut sim = Simulation::new(SimulationDescriptor {
        solver: int_solver(npoints),
        sim_params: PARAMS,
        init_state: Some(int_state(npoints)),
    })
    .unwrap();
    sim.run(
        RunDescriptor {
            time_duration: 6,
            verbose: false,
            save_settings: None::<SaveSettings<&str>>,
        },
        &mut RecordingSink::new(),
        &mut NoProgress,
    )
    .unwrap();

    let solver = int_solver(npoints);
    let state = int_state(npoints);
    let (volts, currs) = solver
        .compute(
            ComputeDescriptor { state: &state, sim_params: PARAMS, nsteps: 6 },
            &mut NoProgress,
        )
        .unwrap();
    assert_eq!(sim.state.voltages, volts[6]);
    assert_eq!(sim.state.currents, currs[6]);
    assert_eq!(sim.state.time, 6);
}

#[test]
fn splitting_a_run_into_batches_is_bitwise_transparent() {
    let npoints = 6;
    let solver = int_solver(npoints);
    let state = int_state(npoints);

    let (volts, currs) = solver
        .compute(
            ComputeDescriptor { state: &state, sim_params: PARAMS, nsteps: 5 },
            &mut NoProgress,
        )
        .unwrap();

    let (v1, c1) = solver
        .compute(
            ComputeDescriptor { state: &state, sim_params: PARAMS, nsteps: 2 },
            &mut NoProgress,
        )
        .unwrap();
    let middle = SimulationState {
        time: state.time + 2 * PARAMS.delta_t,
        voltages: v1[2].clone(),
        currents: c1[2].clone(),
    };
    let (v2, c2) = solver
        .compute(
            ComputeDescriptor { state: &middle, sim_params: PARAMS, nsteps: 3 },
            &mut NoProgress,
        )
        .unwrap();

    assert_eq!(v2[3], volts[5]);
    assert_eq!(c2[3], currs[5]);
}

#[test]
fn the_kinetic_line_rescales_its_critical_current() {
    // one cell with zero geometric inductance: the rescaling factor
    // sqrt((ind + ki) / ki) is exactly one
    let line = KiLine::<i64>::new(KiLineDescriptor {
        length: 2,
        npoints: 1,
        capacitance_fn: |_: i64| 1,
        inductance_fn: |_: i64| 0,
        kinetic_inductance_fn: |_: i64| 1,
        critical_current_fn: |_: i64| 1,
    });
    assert_eq!(line.crit_cur, vec![1]);
    assert_eq!(line.ind0, vec![1]);
    // the trivial root of the per-cell cubic, seeded at a zero current
    // with no voltage difference
    let r = line.next_current(7, 7, 0, 0, &PARAMS);
    assert_eq!(r, 0);
}
