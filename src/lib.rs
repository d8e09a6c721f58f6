//! Frame geometry for a video codec's pixel storage: plane sizes, chroma
//! decimation and padding, and the storage behind each plane.

pub mod math;
pub mod pixel;
pub mod plane;
pub mod frame;
