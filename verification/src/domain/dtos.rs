pub mod user_dtos;
