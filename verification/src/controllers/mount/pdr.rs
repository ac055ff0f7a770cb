//! The controllers of the mount as of the preliminary design review.

pub mod controller;
pub mod drives;
