pub mod cache;
pub mod chunk;
pub mod container;
pub mod error;
pub mod job;
pub mod output;
pub mod recipe;
