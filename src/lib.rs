//! Integer and structural core of a procedural planet shader: the selection
//! of geometry remapping and colour program, the lattice hash under the value
//! noise, the rainbow hue table and the batching of vertices into triangles.
pub mod batch;
pub mod mode;
pub mod noise;
pub mod rainbow;

pub use batch::triangles;
pub use mode::{PlanetType, RenderType};
pub use noise::lattice_hash;
pub use rainbow::{hue_for_band, RainbowHue};
