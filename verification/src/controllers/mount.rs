//! The controllers of the mount.

pub mod controller;
pub mod drives;
pub mod pdr;
