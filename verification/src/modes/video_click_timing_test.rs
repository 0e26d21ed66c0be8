pub mod extraction;
pub mod preload;
pub mod probe;
pub mod state;
pub mod types;
