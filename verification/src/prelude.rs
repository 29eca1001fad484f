//! Includes commonly used library components.

pub use crate::fdtd::TransmissionLine;
pub use crate::{
    ComputeDescriptor, RunDescriptor, SaveSettings, SaveType, Scalar, Simulation,
    SimulationDescriptor, SimulationParameters, SimulationState,
};
