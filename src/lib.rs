//! Device sessions and credential issuance: devices, refresh tokens,
//! access-token claim sets and two-factor remember tokens.

pub mod claims;
pub mod device;
pub mod secret;
pub mod store;
pub mod time;

pub use claims::{JwtClaims, User, UserOrganization};
pub use device::{Device, DeviceView};
pub use secret::RandomnessFailure;
pub use store::DeviceStore;
pub use time::Timestamp;
