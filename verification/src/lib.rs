//! The discrete core of a Monte Carlo path tracer for scenes of spheres.
//!
//! The library keeps the scene, decides what a path does next, picks the
//! nearest of the hits it is shown and writes the image as text. Numbers are
//! binary32 scalars in bit form: the library compares and classifies them and
//! leaves their arithmetic to the program around it.

pub mod color;
pub mod integrator;
pub mod object;
pub mod ppm;
pub mod scalar;
pub mod scene;
pub mod trace;
pub mod vector;

pub use crate::scene::{Scene, SceneData};
