//! Decision logic and GPU resource descriptions of a falling-block cube simulation
//! that runs as compute passes in a render graph.

pub mod gpu_data;
pub mod input;
pub mod laws;
pub mod pipeline;
pub mod resources;
pub mod sim_node;
