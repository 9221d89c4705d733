//! Tuning constants of the simulation, in the crate's integer units:
//! micro-pixels for distances, micro-pixels per millisecond for speeds,
//! micro-pixels per millisecond squared for accelerations, and
//! milliseconds for durations.

use vstd::prelude::*;

verus! {

/// Micro-pixels per pixel.
pub const UNIT: i64 = 1_000_000;

/// Width of the viewport, in micro-pixels (800 pixels).
pub const SCREEN_WIDTH: i64 = 800 * 1_000_000;

/// Height of the viewport, in micro-pixels (600 pixels).
pub const SCREEN_HEIGHT: i64 = 600 * 1_000_000;

pub const IDLE_FRAME_COUNT: u8 = 4;

/// 0.2 seconds per idle frame.
pub const IDLE_FRAME_DURATION: i64 = 200;

pub const WALK_FRAME_COUNT: u8 = 6;

/// 0.166 seconds per walk frame.
pub const WALK_FRAME_DURATION: i64 = 166;

pub const JUMP_FRAME_COUNT: u8 = 8;

/// 0.125 seconds per jump frame.
pub const JUMP_FRAME_DURATION: i64 = 125;

pub const BOW_FRAME_COUNT: u8 = 6;

/// 0.166 seconds per bow frame.
pub const BOW_FRAME_DURATION: i64 = 166;

pub const ATTACK_FRAME_COUNT: u8 = 6;

/// 0.166 seconds per attack frame.
pub const ATTACK_FRAME_DURATION: i64 = 166;

/// Horizontal walking speed: 150 pixels per second.
pub const PLAYER_SPEED: i64 = 150 * 1_000;

/// Downward acceleration on the character: 980 pixels per second squared.
pub const GRAVITY: i64 = 980;

/// Upward jump impulse: 500 pixels per second.
pub const JUMP_POWER: i64 = 500 * 1_000;

/// Arrow launch speed: 400 pixels per second.
pub const ARROW_SPEED: i64 = 400 * 1_000;

/// Downward acceleration on an arrow in flight: 200 pixels per second squared.
pub const ARROW_GRAVITY: i64 = 200;

/// A stuck arrow is removed once its stuck timer reaches 3 seconds.
pub const ARROW_STUCK_LIMIT: i64 = 3_000;

/// An arrow stuck in an enemy starts its stuck timer at 2.9 seconds, so it
/// vanishes sooner than one stuck in terrain.
pub const ARROW_ENEMY_STUCK_START: i64 = 2_900;

/// How far an arrow sinks into a tile it hits: 15 pixels.
pub const EMBED_DEPTH: i64 = 15 * 1_000_000;

/// Horizontal flying speed of an enemy: 150 pixels per second.
pub const ENEMY_SPEED: i64 = 150 * 1_000;

/// 0.125 seconds per enemy idle or fly frame.
pub const ENEMY_FLY_FRAME_DURATION: i64 = 125;

/// 0.15 seconds per enemy hit frame.
pub const ENEMY_HIT_FRAME_DURATION: i64 = 150;

/// 0.08 seconds per enemy die frame.
pub const ENEMY_DIE_FRAME_DURATION: i64 = 80;

/// The hit stagger lasts four hit frames.
pub const ENEMY_HIT_DURATION: i64 = 4 * 150;

/// The death animation is gated for sixteen die frames.
pub const ENEMY_DIE_DURATION: i64 = 16 * 80;

/// The bow shows, and re-firing is locked out, for 0.2 seconds per shot.
pub const SHOOT_DURATION: i64 = 200;

/// Camera smoothing rate, per second.
pub const CAMERA_SMOOTHING: i64 = 5;

/// Denominator of the camera's interpolation factor: a factor of
/// `LERP_SCALE` reaches the target in one step.
pub const LERP_SCALE: i64 = 1_000;

/// Bound on positions and sizes the simulation handles, in micro-pixels:
/// a billion pixels, far beyond any map yet small enough that every frame
/// step stays well inside the machine integers.
pub const POS_LIMIT: i64 = 1_000_000_000_000_000;

/// Bound on speeds, in micro-pixels per millisecond: a million pixels per
/// second.
pub const VEL_LIMIT: i64 = 1_000_000_000_000;

/// Bound on a single frame's time step: a thousand seconds.
pub const MAX_DT: i64 = 1_000_000;

/// Bound on accumulated timers, in milliseconds.
pub const TIMER_LIMIT: i64 = 1_000_000_000_000;

} // verus!
