pub mod assemble;
pub mod cache;
pub mod extract;
pub mod laws;
pub mod resolver;
pub mod types;
