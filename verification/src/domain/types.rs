pub mod claim_map;
pub mod jwt_claims;
pub mod password;
pub mod role;
pub mod user_types;
pub mod username;

pub use claim_map::ClaimMap;
pub use jwt_claims::JwtClaims;
pub use password::PasswordHash;
pub use role::Role;
pub use username::Username;
