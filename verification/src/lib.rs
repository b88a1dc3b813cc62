//! Core of a small 2D platformer simulation.
//!
//! The world is a dense list of axis-aligned rectangular entities (a player,
//! a recycle bin, and generic "folder" objects). Each tick runs a movement
//! pass (input bias, gravity, horizontal speed clamp, integration, friction,
//! boundary clamp), an all-pairs collision and resolution pass (directional
//! overlap classification, launch impulses, per-pair integration), and a
//! deferred spawn queue drain.
//!
//! All quantities are fixed-point integers: positions in thousandths of a
//! world unit ("milliunits"), velocities in world units per second, elapsed
//! time in milliseconds. Integrating a position is then exact:
//! `units/s * ms = milliunits`.

pub mod collision;
pub mod config;
pub mod entity;
pub mod motion;
pub mod world;
