//! The components that close the loops of a simulation: the state space
//! model of the structure and the adapters of the controllers.

pub mod adapter;
pub mod m1;
pub mod mount;
pub mod rate;
pub mod state_space;
