//! The controllers of the primary mirror.

pub mod cg_controller;
pub mod hp_load_cells;
