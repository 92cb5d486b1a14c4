pub mod errors;
pub mod jwt_handler;
pub mod password_hasher;
pub mod users;
