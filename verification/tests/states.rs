use colpetto::event::{KeyState, SwitchState};
use colpetto::sys;
use colpetto::{Device, DeviceCapability};

#[test]
fn key_state_from_raw_numbers() {
    assert_eq!(KeyState::from_raw(0), KeyState::Released);
    assert_eq!(KeyState::from_raw(1), KeyState::Pressed);
    assert_eq!(KeyState::from_raw(sys::LIBINPUT_KEY_STATE_RELEASED), KeyState::Released);
    assert_eq!(KeyState::from_raw(sys::LIBINPUT_KEY_STATE_PRESSED), KeyState::Pressed);
}

#[test]
fn key_state_is_shown_in_lower_case() {
    assert_eq!(KeyState::Released.to_string(), "released");
    assert_eq!(KeyState::Pressed.to_string(), "pressed");
}

#[test]
fn switch_state_from_raw_numbers() {
    assert_eq!(SwitchState::from_raw(0), SwitchState::Off);
    assert_eq!(SwitchState::from_raw(1), SwitchState::On);
}

#[test]
fn switch_state_is_shown_in_lower_case() {
    assert_eq!(SwitchState::Off.to_string(), "off");
    assert_eq!(SwitchState::On.to_string(), "on");
}

#[test]
fn capabilities_have_the_native_numbers() {
    assert_eq!(DeviceCapability::Keyboard.as_raw(), 0);
    assert_eq!(DeviceCapability::Pointer.as_raw(), 1);
    assert_eq!(DeviceCapability::Touch.as_raw(), 2);
    assert_eq!(DeviceCapability::TabletTool.as_raw(), 3);
    assert_eq!(DeviceCapability::TabletPad.as_raw(), 4);
    assert_eq!(DeviceCapability::Gesture.as_raw(), 5);
    assert_eq!(DeviceCapability::Switch.as_raw(), 6);
}

#[test]
fn any_answer_but_zero_means_capable() {
    let (device, _call) = Device::from_raw(0x2000);
    assert!(!device.has_capability(0));
    assert!(device.has_capability(1));
    assert!(device.has_capability(-1));
    assert!(device.has_capability(i32::MIN));
}
