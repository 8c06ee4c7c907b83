//! Hardware render context negotiation and backend lifecycle for a libretro
//! SWF-player core: the decisions of the subsystem, stated and proved with Verus.
//! Host calls, native graphics objects and the player engine stay with the caller.
pub mod context;
pub mod negotiation;
pub mod limits;
pub mod interface;
pub mod target;
pub mod lifecycle;
pub mod config;
pub mod storage;
pub mod input;
pub mod audio;
pub mod backends;
