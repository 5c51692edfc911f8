//! Camera, microphone and location privacy.
use vstd::prelude::*;

verus! {

/// Which sensors are to be kept off.
#[derive(Debug, Clone, Copy, PartialEq, Eq)]
pub struct SensorPrivacyConfig {
    pub camera_blocked: bool,
    pub microphone_muted: bool,
    pub location_blocked: bool,
}

impl Default for SensorPrivacyConfig {
    fn default() -> (r: Self)
        ensures
            !r.camera_blocked,
            !r.microphone_muted,
            !r.location_blocked,
    {
        SensorPrivacyConfig { camera_blocked: false, microphone_muted: false, location_blocked: false }
    }
}

/// The observed state of the sensors.
#[derive(Debug, Clone, Copy, PartialEq, Eq)]
pub struct SensorPrivacyReport {
    pub camera_blocked: bool,
    pub microphone_muted: bool,
    pub location_blocked: bool,
    pub active_cameras_count: usize,
    pub active_audio_sources_count: usize,
}

impl Default for SensorPrivacyReport {
    fn default() -> (r: Self)
        ensures
            !r.camera_blocked,
            !r.microphone_muted,
            !r.location_blocked,
            r.active_cameras_count == 0,
            r.active_audio_sources_count == 0,
    {
        SensorPrivacyReport {
            camera_blocked: false,
            microphone_muted: false,
            location_blocked: false,
            active_cameras_count: 0,
            active_audio_sources_count: 0,
        }
    }
}

/// The privacy report for the observed sensor states: a muted microphone
/// counts as no active audio source, an unmuted one as one.
pub fn get_sensor_privacy_report(
    camera_blocked: bool,
    microphone_muted: bool,
    location_blocked: bool,
    active_cameras_count: usize,
) -> (r: SensorPrivacyReport)
    ensures
        r.camera_blocked == camera_blocked,
        r.microphone_muted == microphone_muted,
        r.location_blocked == location_blocked,
        r.active_cameras_count == active_cameras_count,
        r.active_audio_sources_count == if microphone_muted {
            0usize
        } else {
            1usize
        },
{
    let active_audio_sources_count = if microphone_muted {
        0
    } else {
        1
    };
    SensorPrivacyReport {
        camera_blocked,
        microphone_muted,
        location_blocked,
        active_cameras_count,
        active_audio_sources_count,
    }
}

/// The sensor states that the emergency kill switch sets: everything off.
pub fn emergency_kill_all_sensors() -> (r: SensorPrivacyConfig)
    ensures
        r.camera_blocked && r.microphone_muted && r.location_blocked,
{
    SensorPrivacyConfig { camera_blocked: true, microphone_muted: true, location_blocked: true }
}

/// The sensor states that restoring sets: everything back on.
pub fn restore_all_sensors() -> (r: SensorPrivacyConfig)
    ensures
        !r.camera_blocked && !r.microphone_muted && !r.location_blocked,
{
    SensorPrivacyConfig { camera_blocked: false, microphone_muted: false, location_blocked: false }
}

} // verus!
