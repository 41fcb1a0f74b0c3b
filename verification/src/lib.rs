//! A first-person walkthrough of a fixed level: the level's layout, the live
//! tuning of the camera, and the status overlay, over exact decimal quantities.

pub mod camera;
pub mod fixed;
pub mod hud;
pub mod input;
pub mod level;
pub mod scene;
pub mod text;
pub mod tuning;
