//! Render subsystem of a canvas renderer: listener registry, uniform
//! resources, binding sets and the resize/render protocol, all stated over
//! plain values so that their behaviour is proved.

pub mod action;
pub mod bindgroup;
pub mod renderer;
pub mod uniform;
