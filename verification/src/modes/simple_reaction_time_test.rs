pub mod state;
pub mod storage;
pub mod types;
