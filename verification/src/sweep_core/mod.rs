pub mod cleaner;
pub mod engine;
pub mod laws;
pub mod size;
pub mod traits;
