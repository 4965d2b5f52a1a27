use std::collections::{BTreeSet, HashSet};

use winit_core::event::{
    ButtonSource, DeviceEvent, ElementState, FingerId, Force, Ime, Modifiers, MouseButton,
    MouseScrollDelta, PointerKind, PointerSource, TouchPhase, WindowEvent,
};
use winit_core::geometry::{FloatBits32, FloatBits64};
use winit_core::window::Theme;

fn zero64() -> FloatBits64 {
    FloatBits64 { bits: (0.0f64).to_bits() }
}

fn zero32() -> FloatBits32 {
    FloatBits32 { bits: (0.0f32).to_bits() }
}

fn zero_position() -> dpi::PhysicalPosition<FloatBits64> {
    dpi::PhysicalPosition::new(zero64(), zero64())
}

fn all_window_events() -> Vec<WindowEvent> {
    let fid = FingerId::from_raw(0);
    vec![
        WindowEvent::CloseRequested,
        WindowEvent::Destroyed,
        WindowEvent::Focused(true),
        WindowEvent::Moved(dpi::PhysicalPosition::new(0, 0)),
        WindowEvent::SurfaceResized(dpi::PhysicalSize::new(0, 0)),
        WindowEvent::DragEntered { paths: vec!["x.txt".into()], position: zero_position() },
        WindowEvent::DragMoved { position: zero_position() },
        WindowEvent::DragDropped { paths: vec!["x.txt".into()], position: zero_position() },
        WindowEvent::DragLeft { position: Some(zero_position()) },
        WindowEvent::Ime(Ime::Enabled),
        WindowEvent::PointerMoved {
            device_id: None,
            primary: true,
            position: zero_position(),
            source: PointerSource::Mouse,
        },
        WindowEvent::ModifiersChanged(Modifiers::default()),
        WindowEvent::PointerEntered {
            device_id: None,
            primary: true,
            position: zero_position(),
            kind: PointerKind::Mouse,
        },
        WindowEvent::PointerLeft {
            primary: true,
            device_id: None,
            position: Some(zero_position()),
            kind: PointerKind::Mouse,
        },
        WindowEvent::MouseWheel {
            device_id: None,
            delta: MouseScrollDelta::LineDelta(zero32(), zero32()),
            phase: TouchPhase::Started,
        },
        WindowEvent::PointerButton {
            device_id: None,
            primary: true,
            state: ElementState::Pressed,
            position: zero_position(),
            button: ButtonSource::Mouse(MouseButton::Other(0)),
        },
        WindowEvent::PointerButton {
            device_id: None,
            primary: true,
            state: ElementState::Released,
            position: zero_position(),
            button: ButtonSource::Touch { finger_id: fid, force: Some(Force::Normalized(zero64())) },
        },
        WindowEvent::PinchGesture { device_id: None, delta: zero64(), phase: TouchPhase::Started },
        WindowEvent::DoubleTapGesture { device_id: None },
        WindowEvent::RotationGesture {
            device_id: None,
            delta: zero32(),
            phase: TouchPhase::Started,
        },
        WindowEvent::PanGesture {
            device_id: None,
            delta: dpi::PhysicalPosition::new(zero32(), zero32()),
            phase: TouchPhase::Started,
        },
        WindowEvent::TouchpadPressure { device_id: None, pressure: zero32(), stage: 0 },
        WindowEvent::ThemeChanged(Theme::Light),
        WindowEvent::Occluded(true),
    ]
}

fn all_device_events() -> Vec<DeviceEvent> {
    vec![
        DeviceEvent::PointerMotion { delta: (zero64(), zero64()) },
        DeviceEvent::MouseWheel { delta: MouseScrollDelta::LineDelta(zero32(), zero32()) },
        DeviceEvent::Button { button: 0, state: ElementState::Pressed },
    ]
}

#[test]
fn test_event_clone() {
    for event in all_window_events() {
        let event2 = event.clone();
        assert_eq!(event, event2);
    }
    for event in all_device_events() {
        let event2 = event.clone();
        assert_eq!(event, event2);
    }
}

#[test]
fn ensure_attrs_do_not_panic() {
    for event in all_window_events() {
        let _ = format!("{event:?}");
    }
    for event in all_device_events() {
        let _ = format!("{event:?}");
    }
    let _ = winit_core::event::StartCause::Init.clone();

    let fid = FingerId::from_raw(0).clone();
    HashSet::new().insert(fid);
    let mut set = [fid, fid, fid];
    set.sort_unstable();
    let mut set2 = BTreeSet::new();
    set2.insert(fid);
    set2.insert(fid);

    HashSet::new().insert(TouchPhase::Started.clone());
    HashSet::new().insert(MouseButton::Left.clone());
    HashSet::new().insert(Ime::Enabled);

    let _ = Force::Calibrated { force: zero64(), max_possible_force: zero64() }.clone();
}
