//! Escrow lifecycle for a delegated, multi-cycle conversion schedule: derived
//! custody authorities, checked fee arithmetic, and the setup and close
//! workflows expressed as verified functions over plain account values.
pub mod error;
pub mod math;
pub mod pda;
pub mod state;
pub mod close;
pub mod setup_dca;
