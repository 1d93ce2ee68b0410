//! Input subsystems opened at init time: game controllers and sensors.

pub mod game_controller;
pub mod sensor;
