use cp_probe::affinity::{WDA_EXCLUDEFROMCAPTURE, WDA_MONITOR, WDA_NONE};
use cp_probe::audio::{
    AUDIO_SESSION_STATE_ACTIVE, AUDIO_SESSION_STATE_EXPIRED, AUDIO_SESSION_STATE_INACTIVE,
    RPC_E_CHANGED_MODE,
};
use cp_probe::process::ERROR_ACCESS_DENIED;
use cp_probe::signature::TRUST_E_NOSIGNATURE;
use windows::Win32::Media::Audio;
use windows_sys::Win32::Foundation;
use windows_sys::Win32::UI::WindowsAndMessaging;

#[test]
fn status_codes_are_the_platform_s() {
    assert_eq!(TRUST_E_NOSIGNATURE, Foundation::TRUST_E_NOSIGNATURE);
    assert_eq!(RPC_E_CHANGED_MODE, Foundation::RPC_E_CHANGED_MODE);
    assert_eq!(ERROR_ACCESS_DENIED, Foundation::ERROR_ACCESS_DENIED);
}

#[test]
fn affinities_are_the_platform_s() {
    assert_eq!(WDA_NONE, WindowsAndMessaging::WDA_NONE);
    assert_eq!(WDA_MONITOR, WindowsAndMessaging::WDA_MONITOR);
    assert_eq!(WDA_EXCLUDEFROMCAPTURE, WindowsAndMessaging::WDA_EXCLUDEFROMCAPTURE);
}

#[test]
fn session_states_are_the_platform_s() {
    assert_eq!(AUDIO_SESSION_STATE_INACTIVE, Audio::AudioSessionStateInactive.0);
    assert_eq!(AUDIO_SESSION_STATE_ACTIVE, Audio::AudioSessionStateActive.0);
    assert_eq!(AUDIO_SESSION_STATE_EXPIRED, Audio::AudioSessionStateExpired.0);
}
