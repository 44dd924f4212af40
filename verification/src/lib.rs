pub mod cli;
pub mod detectors;
pub mod git;
pub mod paths;
pub mod sweep_core;
pub mod text;
pub mod ui;
