use colpetto::event::{
    destroy, AsRawEvent, DeviceEvent, FromRawEvent, GestureEvent, KeyboardEvent,
    KeyboardKeyEvent, PointerEvent, SwitchEvent, TabletPadEvent, TabletToolEvent, TouchEvent,
};
use colpetto::native::NativeCall;
use colpetto::sys::libinput_event_type;
use colpetto::Event;

fn name_of(event_type: u32) -> &'static str {
    Event::from_raw(0x5000, event_type).event_type()
}

#[test]
fn device_discriminants_give_device_events() {
    assert!(matches!(Event::from_raw(0x10, 1), Event::Device(DeviceEvent::Added(_))));
    assert!(matches!(Event::from_raw(0x10, 2), Event::Device(DeviceEvent::Removed(_))));
    assert_eq!(name_of(1), "Device Added");
    assert_eq!(name_of(2), "Device Removed");
}

#[test]
fn keyboard_discriminant_gives_key_event() {
    assert!(matches!(Event::from_raw(0x10, 300), Event::Keyboard(KeyboardEvent::Key(_))));
    assert_eq!(name_of(300), "Keyboard Key");
}

#[test]
fn pointer_discriminants_give_pointer_events() {
    assert!(matches!(Event::from_raw(0x10, 400), Event::Pointer(PointerEvent::Motion(_))));
    assert!(matches!(Event::from_raw(0x10, 401), Event::Pointer(PointerEvent::MotionAbsolute(_))));
    assert!(matches!(Event::from_raw(0x10, 402), Event::Pointer(PointerEvent::Button(_))));
    assert!(matches!(Event::from_raw(0x10, 403), Event::Pointer(PointerEvent::Axis(_))));
    assert!(matches!(Event::from_raw(0x10, 404), Event::Pointer(PointerEvent::ScrollWheel(_))));
    assert!(matches!(Event::from_raw(0x10, 405), Event::Pointer(PointerEvent::ScrollFinger(_))));
    assert!(matches!(
        Event::from_raw(0x10, 406),
        Event::Pointer(PointerEvent::ScrollContinuous(_))
    ));
    assert_eq!(name_of(400), "Pointer Motion");
    assert_eq!(name_of(401), "Pointer MotionAbsolute");
    assert_eq!(name_of(402), "Pointer Button");
    assert_eq!(name_of(403), "Pointer Axis");
    assert_eq!(name_of(404), "Pointer ScrollWheel");
    assert_eq!(name_of(405), "Pointer ScrollFinger");
    assert_eq!(name_of(406), "Pointer ScrollContinuous");
}

#[test]
fn touch_discriminants_give_touch_events() {
    assert!(matches!(Event::from_raw(0x10, 500), Event::Touch(TouchEvent::Down(_))));
    assert!(matches!(Event::from_raw(0x10, 501), Event::Touch(TouchEvent::Up(_))));
    assert!(matches!(Event::from_raw(0x10, 502), Event::Touch(TouchEvent::Motion(_))));
    assert!(matches!(Event::from_raw(0x10, 503), Event::Touch(TouchEvent::Cancel(_))));
    assert!(matches!(Event::from_raw(0x10, 504), Event::Touch(TouchEvent::Frame(_))));
    assert_eq!(name_of(500), "Touch Down");
    assert_eq!(name_of(501), "Touch Up");
    assert_eq!(name_of(502), "Touch Motion");
    assert_eq!(name_of(503), "Touch Cancel");
    assert_eq!(name_of(504), "Touch Frame");
}

#[test]
fn tablet_tool_discriminants_give_tablet_tool_events() {
    assert!(matches!(Event::from_raw(0x10, 600), Event::TabletTool(TabletToolEvent::Axis(_))));
    assert!(matches!(
        Event::from_raw(0x10, 601),
        Event::TabletTool(TabletToolEvent::Proximity(_))
    ));
    assert!(matches!(Event::from_raw(0x10, 602), Event::TabletTool(TabletToolEvent::Tip(_))));
    assert!(matches!(Event::from_raw(0x10, 603), Event::TabletTool(TabletToolEvent::Button(_))));
    assert_eq!(name_of(600), "TabletTool Axis");
    assert_eq!(name_of(601), "TabletTool Proximity");
    assert_eq!(name_of(602), "TabletTool Tip");
    assert_eq!(name_of(603), "TabletTool Button");
}

#[test]
fn tablet_pad_discriminants_give_tablet_pad_events() {
    assert!(matches!(Event::from_raw(0x10, 700), Event::TabletPad(TabletPadEvent::Button(_))));
    assert!(matches!(Event::from_raw(0x10, 701), Event::TabletPad(TabletPadEvent::Ring(_))));
    assert!(matches!(Event::from_raw(0x10, 702), Event::TabletPad(TabletPadEvent::Strip(_))));
    assert!(matches!(Event::from_raw(0x10, 703), Event::TabletPad(TabletPadEvent::Key(_))));
    assert!(matches!(Event::from_raw(0x10, 704), Event::TabletPad(TabletPadEvent::Dial(_))));
    assert_eq!(name_of(700), "TabletPad Button");
    assert_eq!(name_of(701), "TabletPad Ring");
    assert_eq!(name_of(702), "TabletPad Strip");
    assert_eq!(name_of(703), "TabletPad Key");
    assert_eq!(name_of(704), "TabletPad Dial");
}

#[test]
fn gesture_discriminants_give_gesture_events() {
    assert!(matches!(Event::from_raw(0x10, 800), Event::Gesture(GestureEvent::SwipeBegin(_))));
    assert!(matches!(Event::from_raw(0x10, 801), Event::Gesture(GestureEvent::SwipeUpdate(_))));
    assert!(matches!(Event::from_raw(0x10, 802), Event::Gesture(GestureEvent::SwipeEnd(_))));
    assert!(matches!(Event::from_raw(0x10, 803), Event::Gesture(GestureEvent::PinchBegin(_))));
    assert!(matches!(Event::from_raw(0x10, 804), Event::Gesture(GestureEvent::PinchUpdate(_))));
    assert!(matches!(Event::from_raw(0x10, 805), Event::Gesture(GestureEvent::PinchEnd(_))));
    assert!(matches!(Event::from_raw(0x10, 806), Event::Gesture(GestureEvent::HoldBegin(_))));
    assert!(matches!(Event::from_raw(0x10, 807), Event::Gesture(GestureEvent::HoldEnd(_))));
    assert_eq!(name_of(800), "Gesture SwipeBegin");
    assert_eq!(name_of(801), "Gesture SwipeUpdate");
    assert_eq!(name_of(802), "Gesture SwipeEnd");
    assert_eq!(name_of(803), "Gesture PinchBegin");
    assert_eq!(name_of(804), "Gesture PinchUpdate");
    assert_eq!(name_of(805), "Gesture PinchEnd");
    assert_eq!(name_of(806), "Gesture HoldBegin");
    assert_eq!(name_of(807), "Gesture HoldEnd");
}

#[test]
fn switch_discriminant_gives_toggle_event() {
    assert!(matches!(Event::from_raw(0x10, 900), Event::Switch(SwitchEvent::Toggle(_))));
    assert_eq!(name_of(900), "Switch Toggle");
}

#[test]
fn named_constants_are_the_native_numbers() {
    assert_eq!(libinput_event_type::LIBINPUT_EVENT_NONE, 0);
    assert_eq!(libinput_event_type::LIBINPUT_EVENT_DEVICE_ADDED, 1);
    assert_eq!(libinput_event_type::LIBINPUT_EVENT_KEYBOARD_KEY, 300);
    assert_eq!(libinput_event_type::LIBINPUT_EVENT_POINTER_SCROLL_CONTINUOUS, 406);
    assert_eq!(libinput_event_type::LIBINPUT_EVENT_TOUCH_FRAME, 504);
    assert_eq!(libinput_event_type::LIBINPUT_EVENT_TABLET_TOOL_BUTTON, 603);
    assert_eq!(libinput_event_type::LIBINPUT_EVENT_TABLET_PAD_DIAL, 704);
    assert_eq!(libinput_event_type::LIBINPUT_EVENT_GESTURE_HOLD_END, 807);
    assert_eq!(libinput_event_type::LIBINPUT_EVENT_SWITCH_TOGGLE, 900);
}

#[test]
fn unrecognized_discriminant_is_unknown() {
    for event_type in [0u32, 3, 299, 301, 399, 407, 505, 604, 705, 808, 899, 901, 1000, u32::MAX] {
        let event = Event::from_raw(0x7700, event_type);
        assert!(matches!(event, Event::Unknown(_)), "discriminant {event_type}");
        assert_eq!(event.event_type(), "unknown");
        assert_eq!(event.as_raw_event(), 0x7700);
        assert_eq!(destroy(event), NativeCall::DestroyEvent(0x7700));
    }
}

#[test]
fn typed_event_keeps_the_native_address() {
    for event_type in [1u32, 2, 300, 400, 406, 500, 603, 704, 800, 900, 12345] {
        assert_eq!(Event::from_raw(0xABCD, event_type).as_raw_event(), 0xABCD);
    }
    let leaf = KeyboardKeyEvent::from_raw_event(0x42);
    assert_eq!(leaf.as_raw_event(), 0x42);
    assert_eq!(KeyboardEvent::Key(leaf).as_raw_event(), 0x42);
}

#[test]
fn every_typed_event_is_destroyed_by_one_call_on_its_own_address() {
    let mut live: Vec<usize> = Vec::new();
    let mut address = 0x1000usize;
    for event_type in 0u32..1000 {
        let event = Event::from_raw(address, event_type);
        live.push(address);
        let call = destroy(event);
        match call {
            NativeCall::DestroyEvent(raw) => {
                let at = live.iter().position(|held| *held == raw);
                assert_eq!(at, Some(live.len() - 1));
                live.pop();
            }
            other => panic!("unexpected call {other:?}"),
        }
        address += 0x40;
    }
    assert!(live.is_empty());
}

#[test]
fn leaf_and_category_are_destroyed_like_the_event() {
    let leaf = KeyboardKeyEvent::from_raw_event(0x90);
    assert_eq!(destroy(leaf), NativeCall::DestroyEvent(0x90));
    let category = KeyboardEvent::Key(KeyboardKeyEvent::from_raw_event(0x91));
    assert_eq!(category.event_type(), "Keyboard Key");
    assert_eq!(destroy(category), NativeCall::DestroyEvent(0x91));
}
