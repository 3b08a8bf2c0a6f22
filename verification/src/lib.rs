//! Verified core of a top-down 2D arcade game runtime: entity state
//! machines for pedestrians and vehicles, a fixed-point collision engine
//! with weighted response resolution, arclength-parametrized routes, and
//! tile-topology road navigation gated by traffic lights.
//!
//! All world geometry is carried in fixed-point integers: coordinates,
//! speeds and distances in milli-units (one game unit is 1000), angles in
//! microradians. Rendering, asset parsing and platform input live outside
//! this crate and exchange plain values with it.
#![allow(unused_imports)]

pub mod types;
pub mod util;
pub mod angle;
pub mod route;
pub mod level;
pub mod collision;
pub mod entity;
pub mod person;
pub mod vehicle;
pub mod input;
pub mod controller;
pub mod screen;
pub mod text;
