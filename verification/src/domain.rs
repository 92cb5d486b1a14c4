pub mod dtos;
pub mod errors;
pub mod types;
