pub mod inputs;
pub mod life;
pub mod m3;
pub mod maths_utils;
pub mod rendering;
pub mod spin;
pub mod steppables;
pub mod transform;
pub mod world_object;
pub mod world_state;
