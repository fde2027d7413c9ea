//! Decision logic of a GPU ball simulation: the grid in which balls start,
//! the size of the compute dispatch and draw call for a frame, the keyboard
//! controls for the physics parameters, the choice of a surface format and
//! the reaction of the application to window-system events.
pub mod frame;
pub mod grid;
pub mod controls;
pub mod events;
pub mod surface;
