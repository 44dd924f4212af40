pub mod analyzer;
