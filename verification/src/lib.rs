pub mod canvas;
pub mod common;
pub mod config;
pub mod decimal;
pub mod gui;
pub mod path;
pub mod raytracer;
pub mod scene;
pub mod tiles;
