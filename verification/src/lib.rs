//! A client core for a cloud video-device platform: the access-token
//! lifecycle, the authenticated-request envelope rules and per-endpoint
//! parameter builders, and local decryption of the platform's encrypted
//! media files. Network transport and on-disk persistence live with the
//! caller; everything here is pure and carries its contract.

use vstd::prelude::*;

pub mod client;
pub mod dto;
pub mod envelope;
pub mod errors;
pub mod opt;
pub mod settings;
pub mod text;
pub mod util;

pub use dto::Alarm;
pub use dto::AlarmStatus;
pub use dto::CameraInfo;
pub use dto::DeviceInfo;
pub use dto::DeviceStatus;
pub use dto::DeviceStatusInfo;
pub use dto::Permission;
pub use dto::VideoLevel;
pub use envelope::APIResponse;
pub use envelope::Page;
pub use envelope::TokenData;
pub use errors::APIError;
pub use settings::CachedToken;
pub use settings::Settings;
