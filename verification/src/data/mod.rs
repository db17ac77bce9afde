//! The résumé record and the store that owns it.

pub mod manager;

pub use manager::DataManager;
