pub mod laws;
pub mod panels;
pub mod terminal;
pub mod tui;
