//! Transfer-matrix simulation of optical multilayer stacks.
//!
//! The library holds the parts of the simulation that are decided on whole
//! numbers: how a stack description is checked before a run, the order in
//! which the interfaces and layers of a stack are composed into its transfer
//! matrix (and which array entries each step reads), and when a run over many
//! wavelengths is spread over worker threads. The complex arithmetic itself
//! runs on floating-point values and lives with the bindings.

pub mod layers;
pub mod polarization;
pub mod schedule;
pub mod stack;

pub use layers::{layer_steps, LayerStep};
pub use polarization::Polarization;
pub use schedule::{uses_parallel, PARALLEL_THRESHOLD};
pub use stack::{validate_stack, InputError, StackShape};
