pub mod modes;
pub mod random;
pub mod run_files;
pub mod text;
pub mod timestamp;
