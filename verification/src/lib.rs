//! Verified core of the Sol Atlas planetary energy-transition globe:
//! data layers and their provenance, the transition timeline, the
//! civilization simulation schedule, confluence binning of real data,
//! mesh topology, and the shader sources.

pub mod aesthetics;
pub mod confluence;
pub mod constants;
pub mod dock;
pub mod economics;
pub mod energy_trading;
pub mod geometry;
pub mod lod;
pub mod planet;
pub mod reactor_twin;
pub mod shaders;
pub mod simulation;
pub mod timeline;
pub mod types;
pub mod vitality;
