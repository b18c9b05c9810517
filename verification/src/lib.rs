//! A deterministic, fixed-timestep 2D fighting-game movement simulator.
//!
//! All continuous quantities (stick values, velocities, positions) are
//! fixed-point integers with [`fx::FX_ONE`] units per game unit, so every
//! frame of the simulation is exactly reproducible and every operation is
//! proved free of overflow and panics.


pub mod analog_axis;
pub mod analog_stick;
pub mod button;
pub mod controller_state;
pub mod digital_input;
pub mod ecb;
pub mod fighter;
pub mod fighting_game;
pub mod fighting_stage;
pub mod fixed_timestep;
pub mod fx;
pub mod interpolated_position;
pub mod keyboard;
pub mod line_math;
pub mod point_math;
pub mod vector_math;
