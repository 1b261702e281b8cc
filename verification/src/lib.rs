//! Decision logic of the Obito engine: surface sizing, frame acquisition
//! outcomes, mesh index data, the draw plan of a frame and the window
//! lifecycle state machine.

pub mod lifecycle;
pub mod mesh;
pub mod surface;
pub mod text;
