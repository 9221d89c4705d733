//! Simulation core of a 2D side-scrolling platformer: a player character
//! with idle/walk/jump/attack states and a bow, arrow projectiles that
//! embed where they land, flying enemies with hit and die states, a tile
//! grid with minimum-penetration collision resolution, and a camera that
//! follows the player within the map.
//!
//! All quantities are exact integers: positions and sizes in micro-pixels
//! (one pixel is 1_000_000 micro-pixels), velocities in micro-pixels per
//! millisecond (numerically one thousand times the pixels-per-second
//! figure), accelerations in micro-pixels per millisecond squared
//! (numerically equal to the pixels-per-second-squared figure), and times
//! in milliseconds.  With these units every frame step is a product or a
//! sum with no rounding, so the contracts state the arithmetic exactly.
//! Rendering and input stay outside: drawing entry points return placement
//! data for a renderer to blit.

pub mod animate;
pub mod arrow;
pub mod character;
pub mod collision;
pub mod constants;
pub mod enemy;
pub mod geom;
pub mod map;
pub mod world_camera;
