//! The record shapes the endpoints return, and the small enumerations the
//! platform encodes as integers. The records are inert data filled by the
//! request layer; each enumeration carries the integer the wire format uses
//! as an explicit method, so no caller needs to know the encoding.

use vstd::prelude::*;

verus! {

/// Whether a device or camera is reachable.
#[derive(Debug)]
pub enum DeviceStatus {
    Offline,
    Online,
}

impl DeviceStatus {
    /// The wire integer of this status.
    pub open spec fn spec_code(self) -> int {
        match self {
            DeviceStatus::Offline => 0,
            DeviceStatus::Online => 1,
        }
    }

    /// The wire integer of this status.
    pub fn code(&self) -> (r: u8)
        ensures
            r as int == self.spec_code(),
    {
        match self {
            DeviceStatus::Offline => 0,
            DeviceStatus::Online => 1,
        }
    }
}

/// One device of the account.
#[derive(Debug)]
pub struct DeviceInfo {
    pub device_serial: String,
    pub device_name: String,
    pub device_type: String,
    pub status: DeviceStatus,
    pub defence: u8,
    pub device_version: String,
}

/// Stream quality of a camera.
#[derive(Debug)]
pub enum VideoLevel {
    Smooth,
    Balance,
    HD,
    UltraClear,
}

impl VideoLevel {
    /// The wire integer of this level.
    pub open spec fn spec_code(self) -> int {
        match self {
            VideoLevel::Smooth => 0,
            VideoLevel::Balance => 1,
            VideoLevel::HD => 2,
            VideoLevel::UltraClear => 3,
        }
    }

    /// The wire integer of this level.
    pub fn code(&self) -> (r: u8)
        ensures
            r as int == self.spec_code(),
    {
        match self {
            VideoLevel::Smooth => 0,
            VideoLevel::Balance => 1,
            VideoLevel::HD => 2,
            VideoLevel::UltraClear => 3,
        }
    }
}

/// One capability granted on a camera. The platform encodes these as the
/// bits of a small integer.
#[derive(Debug, Clone, Copy)]
pub enum Permission {
    Preview,
    Replay,
    Alert,
    VoiceTalk,
}

impl Permission {
    /// The bit of this capability in the wire integer.
    pub open spec fn spec_bit(self) -> int {
        match self {
            Permission::Preview => 1,
            Permission::Replay => 2,
            Permission::Alert => 4,
            Permission::VoiceTalk => 8,
        }
    }

    /// The bit of this capability in the wire integer.
    pub fn bit(&self) -> (r: u8)
        ensures
            r as int == self.spec_bit(),
    {
        match self {
            Permission::Preview => 1,
            Permission::Replay => 2,
            Permission::Alert => 4,
            Permission::VoiceTalk => 8,
        }
    }
}

/// One camera of the account.
#[derive(Debug)]
pub struct CameraInfo {
    pub device_serial: String,
    pub channel_no: u8,
    pub channel_name: String,
    pub status: DeviceStatus,
    pub pic_url: String,
    pub is_encrypt: u8,
    pub video_level: VideoLevel,
    pub permission: Permission,
}

/// The status record of one device.
#[derive(Debug)]
pub struct DeviceStatusInfo {
    pub privacy_status: i8,
    pub pir_status: i8,
    pub alarm_sound_mode: i8,
    pub battry_status: i8,
    pub lock_signal: i8,
    pub disk_num: i8,
    pub disk_state: String,
    pub cloud_status: i8,
    pub nvr_disk_num: i8,
    pub nvr_disk_state: String,
}

/// One alarm record of a device.
#[derive(Debug)]
pub struct Alarm {
    pub alarm_id: String,
    pub alarm_name: String,
    pub alarm_type: i32,
    pub alarm_time: u64,
    pub channel_no: u8,
    pub is_encrypt: u8,
    pub is_checked: u8,
    pub rec_state: u8,
    pub pre_time: u32,
    pub delay_time: u32,
    pub device_serial: String,
    pub alarm_pic_url: String,
}

/// The read-state filter of an alarm query.
pub enum AlarmStatus {
    ALL,
    READ,
    UNREAD,
}

impl AlarmStatus {
    /// The small integer the alarm endpoint expects for this filter.
    pub open spec fn spec_code(self) -> int {
        match self {
            AlarmStatus::ALL => 2,
            AlarmStatus::READ => 1,
            AlarmStatus::UNREAD => 0,
        }
    }

    /// The small integer the alarm endpoint expects for this filter.
    pub fn code(&self) -> (r: i64)
        ensures
            r as int == self.spec_code(),
    {
        match self {
            AlarmStatus::ALL => 2,
            AlarmStatus::READ => 1,
            AlarmStatus::UNREAD => 0,
        }
    }
}

} // verus!
