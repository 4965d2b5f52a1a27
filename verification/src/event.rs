//! The event enums and assorted supporting types.
//!
//! These are pure data: every variant is built infallibly and compared
//! structurally where comparison is meaningful. The event loop routes them;
//! it only ever inspects the identifiers and the variant tags.

use vstd::prelude::*;

use crate::error::RequestError;
use crate::geometry::{FloatBits32, FloatBits64};
use crate::keyboard::{
    Key, KeyLocation, ModifiersKeyState, ModifiersKeys, ModifiersState, PhysicalKey,
};
use crate::time::Instant;
use crate::window::{ActivationToken, Theme, WindowId};

verus! {

/// Describes the reason the event loop is resuming.
#[derive(Debug, Clone, Copy, PartialEq, Eq, Hash, Structural)]
pub enum StartCause {
    /// The deadline of a timed wait was reached. `start` is the moment the
    /// wake actually fired and `requested_resume` the deadline that was
    /// asked for; the actual moment is never before the requested one.
    ResumeTimeReached { start: Instant, requested_resume: Instant },

    /// New events arrived while the loop was waiting. `start` is the moment
    /// the wait began and `requested_resume` its deadline, if one was set.
    WaitCancelled { start: Instant, requested_resume: Option<Instant> },

    /// The loop is polling and the scheduled immediate wake fired.
    Poll,

    /// The very first iteration of the loop; sent exactly once.
    Init,
}

/// Identifier of an input device.
#[derive(Debug, Copy, Clone, PartialEq, Eq, PartialOrd, Ord, Hash, Structural)]
pub struct DeviceId(i64);

impl DeviceId {
    /// The underlying integer.
    pub closed spec fn spec_raw(&self) -> i64 {
        self.0
    }

    /// Convert the `DeviceId` into the underlying integer.
    pub fn into_raw(self) -> (r: i64)
        ensures
            r == self.spec_raw(),
    {
        self.0
    }

    /// Construct a `DeviceId` from an integer returned by
    /// [`DeviceId::into_raw`].
    pub fn from_raw(id: i64) -> (r: Self)
        ensures
            r.spec_raw() == id,
    {
        Self(id)
    }
}

/// Converting a `DeviceId` to its raw integer and back yields the same
/// identifier: the raw integer determines the identifier completely.
pub proof fn lemma_device_id_round_trip(x: DeviceId, y: DeviceId)
    requires
        y.spec_raw() == x.spec_raw(),
    ensures
        y == x,
{
}

/// Identifier of a finger in a touch event, unique per live touch contact.
#[derive(Debug, Copy, Clone, PartialEq, Eq, PartialOrd, Ord, Hash, Structural)]
pub struct FingerId(usize);

impl FingerId {
    /// The underlying integer.
    pub closed spec fn spec_raw(&self) -> usize {
        self.0
    }

    /// Convert the `FingerId` into the underlying integer.
    pub fn into_raw(self) -> (r: usize)
        ensures
            r == self.spec_raw(),
    {
        self.0
    }

    /// Construct a `FingerId` from an integer returned by
    /// [`FingerId::into_raw`].
    pub fn from_raw(id: usize) -> (r: Self)
        ensures
            r.spec_raw() == id,
    {
        Self(id)
    }
}

/// Converting a `FingerId` to its raw integer and back yields the same
/// identifier: the raw integer determines the identifier completely.
pub proof fn lemma_finger_id_round_trip(x: FingerId, y: FingerId)
    requires
        y.spec_raw() == x.spec_raw(),
    ensures
        y == x,
{
}

/// Describes the input state of a key or button.
#[derive(Debug, Hash, PartialEq, Eq, Clone, Copy, Structural)]
pub enum ElementState {
    Pressed,
    Released,
}

impl ElementState {
    /// True if `self == Pressed`.
    pub fn is_pressed(self) -> (r: bool)
        ensures
            r == (self is Pressed),
    {
        matches!(self, ElementState::Pressed)
    }
}

/// Describes a button of a mouse controller.
#[derive(Debug, Hash, PartialEq, Eq, PartialOrd, Ord, Clone, Copy, Structural)]
pub enum MouseButton {
    Left,
    Right,
    Middle,
    Back,
    Forward,
    Other(u16),
}

/// Describes the force of a touch event.
///
/// The readings are floating-point on the wire; the loop keeps their raw bit
/// patterns and leaves arithmetic on them to the application.
#[derive(Debug, Clone, Copy, PartialEq, Eq, Hash, Structural)]
pub enum Force {
    /// A calibrated reading: the same number means roughly the same pressure
    /// on every device. Normalising it means dividing `force` by
    /// `max_possible_force`.
    Calibrated { force: FloatBits64, max_possible_force: FloatBits64 },
    /// A reading already normalised by the platform to the unit range.
    Normalized(FloatBits64),
}

/// Represents the kind of a pointer, without its per-event data.
#[derive(Clone, Copy, Debug, PartialEq, Eq, Hash, Structural)]
pub enum PointerKind {
    Mouse,
    Touch(FingerId),
    Unknown,
}

/// Represents the pointer type and its data for a pointer event.
#[derive(Clone, Copy, Debug, PartialEq, Eq, Structural)]
pub enum PointerSource {
    Mouse,
    /// A touch contact, with the pressure reading when the hardware has one.
    Touch { finger_id: FingerId, force: Option<Force> },
    Unknown,
}

/// The kind of a pointer source: the same identity with the auxiliary data
/// (pressure) dropped.
pub open spec fn kind_of_source(source: PointerSource) -> PointerKind {
    match source {
        PointerSource::Mouse => PointerKind::Mouse,
        PointerSource::Touch { finger_id, .. } => PointerKind::Touch(finger_id),
        PointerSource::Unknown => PointerKind::Unknown,
    }
}

impl PointerSource {
    /// The kind of this pointer: the same identity with the auxiliary data
    /// (pressure) dropped.
    pub fn kind(&self) -> (r: PointerKind)
        ensures
            r == kind_of_source(*self),
    {
        match self {
            PointerSource::Mouse => PointerKind::Mouse,
            PointerSource::Touch { finger_id, .. } => PointerKind::Touch(*finger_id),
            PointerSource::Unknown => PointerKind::Unknown,
        }
    }
}

/// Represents the pointer type of a pointer-button event.
#[derive(Clone, Copy, Debug, PartialEq, Eq, Structural)]
pub enum ButtonSource {
    Mouse(MouseButton),
    /// A touch contact acting as a button press.
    Touch { finger_id: FingerId, force: Option<Force> },
    /// A button the platform reports only by number.
    Unknown(u16),
}

/// The conventional mouse button that a numbered unknown button stands for:
/// left, middle, right, back, forward in that order, any other number kept
/// as [`MouseButton::Other`].
pub open spec fn conventional_button(button: u16) -> MouseButton {
    if button == 0 {
        MouseButton::Left
    } else if button == 1 {
        MouseButton::Middle
    } else if button == 2 {
        MouseButton::Right
    } else if button == 3 {
        MouseButton::Back
    } else if button == 4 {
        MouseButton::Forward
    } else {
        MouseButton::Other(button)
    }
}

/// The mouse button equivalent to a button source: mouse buttons unchanged,
/// touch as the primary (left) button, numbered buttons conventionally.
pub open spec fn equivalent_mouse_button(source: ButtonSource) -> MouseButton {
    match source {
        ButtonSource::Mouse(mouse) => mouse,
        ButtonSource::Touch { .. } => MouseButton::Left,
        ButtonSource::Unknown(button) => conventional_button(button),
    }
}

impl ButtonSource {
    /// Convert any `ButtonSource` to an equivalent [`MouseButton`], so that
    /// a pointer type without special handling can be treated as generic
    /// mouse input.
    pub fn mouse_button(self) -> (r: MouseButton)
        ensures
            r == equivalent_mouse_button(self),
    {
        match self {
            ButtonSource::Mouse(mouse) => mouse,
            ButtonSource::Touch { .. } => MouseButton::Left,
            ButtonSource::Unknown(button) => match button {
                0 => MouseButton::Left,
                1 => MouseButton::Middle,
                2 => MouseButton::Right,
                3 => MouseButton::Back,
                4 => MouseButton::Forward,
                _ => MouseButton::Other(button),
            },
        }
    }
}

/// Describes touch-screen input state.
#[derive(Debug, Hash, PartialEq, Eq, Clone, Copy, Structural)]
pub enum TouchPhase {
    Started,
    Moved,
    Ended,
    Cancelled,
}

/// Describes a difference in the mouse scroll wheel state.
#[derive(Debug, Clone, Copy, PartialEq, Eq, Structural)]
pub enum MouseScrollDelta {
    /// Amount in lines or rows to scroll, horizontal then vertical.
    LineDelta(FloatBits32, FloatBits32),
    /// Amount in pixels to scroll, horizontal then vertical.
    PixelDelta(FloatBits64, FloatBits64),
}

/// Identifier for a specific analog axis on some device.
pub type AxisId = u32;

/// Identifier for a specific button on some device.
pub type ButtonId = u32;

/// Describes a keyboard input as a raw device event.
#[derive(Debug, Clone, Copy, Eq, PartialEq, Hash, Structural)]
pub struct RawKeyEvent {
    pub physical_key: PhysicalKey,
    pub state: ElementState,
}

/// Describes a keyboard input targeting a window.
#[derive(Debug, Clone, Eq, PartialEq, Hash)]
pub struct KeyEvent {
    /// The position of the key, independent of the active layout.
    pub physical_key: PhysicalKey,
    /// The meaning of the key under the active layout, affected by all
    /// modifiers except control.
    pub logical_key: Key,
    /// The text produced by this keypress, when it produces any.
    pub text: Option<smol_str::SmolStr>,
    /// Where the key sits for keys that appear in several places.
    pub location: KeyLocation,
    /// Whether the key is being pressed or released.
    pub state: ElementState,
    /// Whether this event comes from the platform repeating a held key.
    pub repeat: bool,
    /// Like `text`, but affected by control as well.
    pub text_with_all_modifiers: Option<smol_str::SmolStr>,
    /// The meaning of the key with every modifier ignored.
    pub key_without_modifiers: Key,
}

/// Describes a keyboard-modifiers change.
#[derive(Debug, Default, Clone, Copy, PartialEq, Eq, Hash, Structural)]
pub struct Modifiers {
    state: ModifiersState,
    pressed_mods: ModifiersKeys,
}

impl Modifiers {
    /// The stored logical state.
    pub closed spec fn spec_state(&self) -> ModifiersState {
        self.state
    }

    /// The stored pressed-keys record.
    pub closed spec fn spec_pressed_mods(&self) -> ModifiersKeys {
        self.pressed_mods
    }

    /// Create a new modifiers value from the logical state and the keys
    /// currently pressed.
    pub fn new(state: ModifiersState, pressed_mods: ModifiersKeys) -> (r: Self)
        ensures
            r.spec_state() == state,
            r.spec_pressed_mods() == pressed_mods,
    {
        Self { state, pressed_mods }
    }

    /// The logical state of the modifiers.
    pub fn state(&self) -> (r: ModifiersState)
        ensures
            r == self.spec_state(),
    {
        self.state
    }

    /// The logical state of the left shift key.
    pub fn lshift_state(&self) -> (r: ModifiersKeyState)
        ensures
            r == key_state(self.spec_pressed_mods().lshift),
    {
        mod_state(self.pressed_mods.lshift)
    }

    /// The logical state of the right shift key.
    pub fn rshift_state(&self) -> (r: ModifiersKeyState)
        ensures
            r == key_state(self.spec_pressed_mods().rshift),
    {
        mod_state(self.pressed_mods.rshift)
    }

    /// The logical state of the left alt key.
    pub fn lalt_state(&self) -> (r: ModifiersKeyState)
        ensures
            r == key_state(self.spec_pressed_mods().lalt),
    {
        mod_state(self.pressed_mods.lalt)
    }

    /// The logical state of the right alt key.
    pub fn ralt_state(&self) -> (r: ModifiersKeyState)
        ensures
            r == key_state(self.spec_pressed_mods().ralt),
    {
        mod_state(self.pressed_mods.ralt)
    }

    /// The logical state of the left control key.
    pub fn lcontrol_state(&self) -> (r: ModifiersKeyState)
        ensures
            r == key_state(self.spec_pressed_mods().lcontrol),
    {
        mod_state(self.pressed_mods.lcontrol)
    }

    /// The logical state of the right control key.
    pub fn rcontrol_state(&self) -> (r: ModifiersKeyState)
        ensures
            r == key_state(self.spec_pressed_mods().rcontrol),
    {
        mod_state(self.pressed_mods.rcontrol)
    }

    /// The logical state of the left super key.
    pub fn lsuper_state(&self) -> (r: ModifiersKeyState)
        ensures
            r == key_state(self.spec_pressed_mods().lmeta),
    {
        mod_state(self.pressed_mods.lmeta)
    }

    /// The logical state of the right super key.
    pub fn rsuper_state(&self) -> (r: ModifiersKeyState)
        ensures
            r == key_state(self.spec_pressed_mods().rmeta),
    {
        mod_state(self.pressed_mods.rmeta)
    }
}

/// What a pressed-flag means as a reported modifier-key state.
pub open spec fn key_state(pressed: bool) -> ModifiersKeyState {
    if pressed {
        ModifiersKeyState::Pressed
    } else {
        ModifiersKeyState::Unknown
    }
}

fn mod_state(pressed: bool) -> (r: ModifiersKeyState)
    ensures
        r == key_state(pressed),
{
    if pressed {
        ModifiersKeyState::Pressed
    } else {
        ModifiersKeyState::Unknown
    }
}

/// Describes input-method events.
///
/// The events must be applied in the order they arrive.
#[derive(Debug, Clone, PartialEq, Eq, Hash)]
pub enum Ime {
    /// The input method was enabled for the window.
    Enabled,
    /// A new composing text should be shown at the cursor position; the pair
    /// is the byte range of the cursor within it, or none to hide the
    /// cursor.
    Preedit(String, Option<(usize, usize)>),
    /// Text should be inserted into the editor widget.
    Commit(String),
    /// Delete the given numbers of bytes around the cursor or selection.
    DeleteSurrounding { before_bytes: usize, after_bytes: usize },
    /// The input method was disabled for the window.
    Disabled,
}

/// A correlation token for requests answered asynchronously by the platform.
#[derive(Debug, Clone, Copy, PartialEq, Eq, Hash, Structural)]
pub struct AsyncRequestSerial {
    pub serial: usize,
}

/// Handle to synchronously change the size of the window while handling a
/// scale-factor change.
///
/// It stands for a slot shared with the window that raised the event; when
/// the window is gone the slot is detached and requests are ignored.
#[derive(Debug, Clone, PartialEq, Eq)]
pub struct SurfaceSizeWriter {
    /// The stashed size, or none once the window is gone.
    pub slot: Option<dpi::PhysicalSize<u32>>,
}

impl SurfaceSizeWriter {
    /// Make a writer over a live slot holding `size`.
    pub fn new(size: dpi::PhysicalSize<u32>) -> (r: Self)
        ensures
            r.slot == Some(size),
    {
        Self { slot: Some(size) }
    }

    /// Try to request a surface size, to be applied synchronously on the
    /// window; ignored once the window is gone.
    pub fn request_surface_size(&mut self, new_surface_size: dpi::PhysicalSize<u32>) -> (r: Result<
        (),
        RequestError,
    >)
        ensures
            old(self).slot is Some ==> final(self).slot == Some(new_surface_size) && r is Ok,
            old(self).slot is None ==> final(self).slot is None && r == Err::<
                (),
                RequestError,
            >(RequestError::Ignored),
    {
        if self.slot.is_some() {
            self.slot = Some(new_surface_size);
            Ok(())
        } else {
            Err(RequestError::Ignored)
        }
    }

    /// Get the currently stashed surface size; ignored once the window is
    /// gone.
    pub fn surface_size(&self) -> (r: Result<dpi::PhysicalSize<u32>, RequestError>)
        ensures
            match self.slot {
                Some(size) => r == Ok::<dpi::PhysicalSize<u32>, RequestError>(size),
                None => r == Err::<dpi::PhysicalSize<u32>, RequestError>(RequestError::Ignored),
            },
    {
        match &self.slot {
            Some(size) => Ok(*size),
            None => Err(RequestError::Ignored),
        }
    }
}

/// Describes an event from a window.
#[derive(Debug, Clone, PartialEq)]
pub enum WindowEvent {
    /// A previously requested activation token was delivered back.
    ActivationTokenDone { serial: AsyncRequestSerial, token: ActivationToken },

    /// The size of the window's surface has changed.
    SurfaceResized(dpi::PhysicalSize<u32>),

    /// The position of the window has changed, in desktop coordinates.
    Moved(dpi::PhysicalPosition<i32>),

    /// The window has been requested to close.
    CloseRequested,

    /// The window has been destroyed.
    Destroyed,

    /// A file drag operation has entered the window.
    DragEntered { paths: Vec<String>, position: dpi::PhysicalPosition<FloatBits64> },

    /// A file drag operation has moved over the window.
    DragMoved { position: dpi::PhysicalPosition<FloatBits64> },

    /// The file drag operation has dropped file(s) on the window.
    DragDropped { paths: Vec<String>, position: dpi::PhysicalPosition<FloatBits64> },

    /// The file drag operation has been cancelled or left the window.
    DragLeft { position: Option<dpi::PhysicalPosition<FloatBits64>> },

    /// The window gained or lost focus.
    Focused(bool),

    /// An event from the keyboard has been received.
    KeyboardInput {
        device_id: Option<DeviceId>,
        event: KeyEvent,
        /// True when the event was synthesised to balance the pressed keys
        /// around a focus change.
        is_synthetic: bool,
    },

    /// The keyboard modifiers have changed.
    ModifiersChanged(Modifiers),

    /// An event from an input method.
    Ime(Ime),

    /// The pointer has moved on the window.
    PointerMoved {
        device_id: Option<DeviceId>,
        position: dpi::PhysicalPosition<FloatBits64>,
        /// Whether the event is created by a primary pointer: a mouse, the
        /// first finger of a multi-touch interaction, or an unknown source.
        primary: bool,
        source: PointerSource,
    },

    /// The pointer has entered the window.
    PointerEntered {
        device_id: Option<DeviceId>,
        position: dpi::PhysicalPosition<FloatBits64>,
        primary: bool,
        kind: PointerKind,
    },

    /// The pointer has left the window.
    PointerLeft {
        device_id: Option<DeviceId>,
        position: Option<dpi::PhysicalPosition<FloatBits64>>,
        primary: bool,
        kind: PointerKind,
    },

    /// A mouse wheel movement or touchpad scroll occurred.
    MouseWheel { device_id: Option<DeviceId>, delta: MouseScrollDelta, phase: TouchPhase },

    /// A pointer button press has been received.
    PointerButton {
        device_id: Option<DeviceId>,
        state: ElementState,
        position: dpi::PhysicalPosition<FloatBits64>,
        primary: bool,
        button: ButtonSource,
    },

    /// Two-finger pinch gesture, often used for magnification.
    PinchGesture { device_id: Option<DeviceId>, delta: FloatBits64, phase: TouchPhase },

    /// N-finger pan gesture.
    PanGesture {
        device_id: Option<DeviceId>,
        delta: dpi::PhysicalPosition<FloatBits32>,
        phase: TouchPhase,
    },

    /// Double tap gesture.
    DoubleTapGesture { device_id: Option<DeviceId> },

    /// Two-finger rotation gesture; the delta is in degrees.
    RotationGesture { device_id: Option<DeviceId>, delta: FloatBits32, phase: TouchPhase },

    /// Touchpad pressure event; `stage` is the click level.
    TouchpadPressure { device_id: Option<DeviceId>, pressure: FloatBits32, stage: i64 },

    /// The window's scale factor has changed; the writer updates the surface
    /// size synchronously during the change.
    ScaleFactorChanged { scale_factor: FloatBits64, surface_size_writer: SurfaceSizeWriter },

    /// The system window theme has changed.
    ThemeChanged(Theme),

    /// The window has been occluded or revealed.
    Occluded(bool),

    /// The window should be redrawn. Duplicate requests within one dispatch
    /// cycle are aggregated into a single event.
    RedrawRequested,
}

/// Represents raw hardware events that are not associated with any
/// particular window; delivered regardless of focus.
#[derive(Clone, Copy, Debug, PartialEq, Eq)]
pub enum DeviceEvent {
    /// Change in physical position of a pointing device: raw, unfiltered
    /// motion, horizontal then vertical, in device-specific units.
    PointerMotion { delta: (FloatBits64, FloatBits64) },

    /// Physical scroll event.
    MouseWheel { delta: MouseScrollDelta },

    /// A button on some device changed state.
    Button { button: ButtonId, state: ElementState },

    /// A key changed state, as raw hardware input.
    Key(RawKeyEvent),
}

} // verus!
