//! Keyboard data carried by key events.
//!
//! Only the shape that the event loop routes is modelled here: key identity,
//! location and the modifier bookkeeping that [`crate::event::Modifiers`]
//! exposes.

use vstd::prelude::*;

verus! {

/// The position of a key on the keyboard, independent of the active layout.
#[derive(Debug, Clone, Copy, PartialEq, Eq, Hash, Structural)]
pub struct PhysicalKey {
    /// Platform-independent scan code of the key.
    pub code: u32,
}

/// The location of a key for keys that appear in several places.
#[derive(Debug, Clone, Copy, PartialEq, Eq, Hash, Structural)]
pub enum KeyLocation {
    Standard,
    Left,
    Right,
    Numpad,
}

/// Declares `smol_str::SmolStr`, the small immutable string in which key
/// text travels; the loop carries it without reading it.
#[verifier::external_type_specification]
#[verifier::external_body]
pub struct ExSmolStr(smol_str::SmolStr);

/// Relies on `smol_str::SmolStr::clone`, a cheap copy of an immutable
/// string. Nothing is claimed of the result.
pub assume_specification[ <smol_str::SmolStr as core::clone::Clone>::clone ](
    s: &smol_str::SmolStr,
) -> smol_str::SmolStr;

/// The logical meaning of a key under the active layout.
#[derive(Debug, Clone, PartialEq, Eq, Hash)]
pub enum Key {
    /// A key producing text; the text itself.
    Character(smol_str::SmolStr),
    /// A named non-text key, by a platform-independent code.
    Named(u32),
    /// A dead key starting a compose sequence.
    Dead,
    /// A key the platform could not identify.
    Unidentified,
}

/// The logical state of the keyboard modifiers.
#[derive(Debug, Default, Clone, Copy, PartialEq, Eq, Hash, Structural)]
pub struct ModifiersState {
    pub shift: bool,
    pub control: bool,
    pub alt: bool,
    pub meta: bool,
}

/// Which modifier keys are currently pressed, side by side.
#[derive(Debug, Default, Clone, Copy, PartialEq, Eq, Hash, Structural)]
pub struct ModifiersKeys {
    pub lshift: bool,
    pub rshift: bool,
    pub lalt: bool,
    pub ralt: bool,
    pub lcontrol: bool,
    pub rcontrol: bool,
    pub lmeta: bool,
    pub rmeta: bool,
}

/// The reported state of one modifier key.
///
/// Platforms that cannot tell the two sides of a modifier apart report
/// `Unknown` rather than guessing.
#[derive(Debug, Clone, Copy, PartialEq, Eq, Hash, Structural)]
pub enum ModifiersKeyState {
    /// The key is known to be pressed.
    Pressed,
    /// The state of the key is not known.
    Unknown,
}

} // verus!
