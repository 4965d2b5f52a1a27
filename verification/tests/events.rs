use winit_core::event::{
    ButtonSource, DeviceId, ElementState, FingerId, Force, Modifiers, MouseButton, PointerKind,
    PointerSource, SurfaceSizeWriter,
};
use winit_core::geometry::{physical_size_u32, FloatBits64};
use winit_core::keyboard::{ModifiersKeyState, ModifiersKeys, ModifiersState};
use winit_core::window::WindowId;

#[test]
fn unknown_buttons_map_conventionally() {
    assert_eq!(ButtonSource::Unknown(0).mouse_button(), MouseButton::Left);
    assert_eq!(ButtonSource::Unknown(1).mouse_button(), MouseButton::Middle);
    assert_eq!(ButtonSource::Unknown(2).mouse_button(), MouseButton::Right);
    assert_eq!(ButtonSource::Unknown(3).mouse_button(), MouseButton::Back);
    assert_eq!(ButtonSource::Unknown(4).mouse_button(), MouseButton::Forward);
    assert_eq!(ButtonSource::Unknown(5).mouse_button(), MouseButton::Other(5));
    assert_eq!(ButtonSource::Unknown(4242).mouse_button(), MouseButton::Other(4242));
}

#[test]
fn mouse_and_touch_button_sources() {
    assert_eq!(ButtonSource::Mouse(MouseButton::Back).mouse_button(), MouseButton::Back);
    let touch = ButtonSource::Touch { finger_id: FingerId::from_raw(3), force: None };
    assert_eq!(touch.mouse_button(), MouseButton::Left);
}

#[test]
fn id_round_trips() {
    let window = WindowId::from_raw(42);
    assert_eq!(WindowId::from_raw(window.into_raw()), window);
    assert_eq!(window.into_raw(), 42);

    let device = DeviceId::from_raw(-7);
    assert_eq!(DeviceId::from_raw(device.into_raw()), device);
    assert_eq!(device.into_raw(), -7);

    let finger = FingerId::from_raw(9);
    assert_eq!(FingerId::from_raw(finger.into_raw()), finger);
    assert_eq!(finger.into_raw(), 9);
}

#[test]
fn element_state_is_pressed() {
    assert!(ElementState::Pressed.is_pressed());
    assert!(!ElementState::Released.is_pressed());
}

#[test]
fn pointer_source_kind_drops_auxiliary_data() {
    assert_eq!(PointerSource::Mouse.kind(), PointerKind::Mouse);
    let finger = FingerId::from_raw(11);
    let force = Force::Normalized(FloatBits64 { bits: (0.5f64).to_bits() });
    let touch = PointerSource::Touch { finger_id: finger, force: Some(force) };
    assert_eq!(touch.kind(), PointerKind::Touch(finger));
    assert_eq!(PointerSource::Unknown.kind(), PointerKind::Unknown);
}

#[test]
fn force_carries_exact_bits() {
    let force = Force::Calibrated {
        force: FloatBits64 { bits: (5.0f64).to_bits() },
        max_possible_force: FloatBits64 { bits: (2.5f64).to_bits() },
    };
    match force {
        Force::Calibrated { force, max_possible_force } => {
            assert_eq!(f64::from_bits(force.bits), 5.0);
            assert_eq!(f64::from_bits(max_possible_force.bits), 2.5);
        },
        Force::Normalized(_) => panic!("calibrated reading expected"),
    }
}

#[test]
fn modifiers_report_pressed_keys() {
    let state = ModifiersState { shift: true, control: false, alt: false, meta: false };
    let pressed = ModifiersKeys {
        lshift: true,
        rshift: false,
        lalt: false,
        ralt: true,
        lcontrol: false,
        rcontrol: false,
        lmeta: false,
        rmeta: false,
    };
    let modifiers = Modifiers::new(state, pressed);
    assert_eq!(modifiers.state(), state);
    assert_eq!(modifiers.lshift_state(), ModifiersKeyState::Pressed);
    assert_eq!(modifiers.rshift_state(), ModifiersKeyState::Unknown);
    assert_eq!(modifiers.lalt_state(), ModifiersKeyState::Unknown);
    assert_eq!(modifiers.ralt_state(), ModifiersKeyState::Pressed);
    assert_eq!(modifiers.lcontrol_state(), ModifiersKeyState::Unknown);
    assert_eq!(modifiers.rcontrol_state(), ModifiersKeyState::Unknown);
    assert_eq!(modifiers.lsuper_state(), ModifiersKeyState::Unknown);
    assert_eq!(modifiers.rsuper_state(), ModifiersKeyState::Unknown);
}

#[test]
fn surface_size_writer_round_trip() {
    let mut writer = SurfaceSizeWriter::new(physical_size_u32(800, 600));
    assert_eq!(writer.surface_size(), Ok(dpi::PhysicalSize::new(800, 600)));
    assert_eq!(writer.request_surface_size(dpi::PhysicalSize::new(1024, 768)), Ok(()));
    assert_eq!(writer.surface_size(), Ok(dpi::PhysicalSize::new(1024, 768)));

    let mut detached = SurfaceSizeWriter { slot: None };
    assert_eq!(
        detached.request_surface_size(dpi::PhysicalSize::new(1, 1)),
        Err(winit_core::error::RequestError::Ignored)
    );
    assert_eq!(detached.surface_size(), Err(winit_core::error::RequestError::Ignored));
}
