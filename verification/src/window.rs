//! Window-scoped identifiers, attribute enums and the IME request types.

use vstd::prelude::*;

use vstd::utf8::{encode_utf8, is_char_boundary};

verus! {

/// Identifier of a window, unique for each live window. An identifier may
/// be reused after the window is destroyed.
#[derive(Debug, Copy, Clone, PartialEq, Eq, PartialOrd, Ord, Hash, Structural)]
pub struct WindowId(usize);

impl WindowId {
    /// The underlying integer.
    pub closed spec fn spec_raw(&self) -> usize {
        self.0
    }

    /// Convert the `WindowId` into the underlying integer.
    pub fn into_raw(self) -> (r: usize)
        ensures
            r == self.spec_raw(),
    {
        self.0
    }

    /// Construct a `WindowId` from an integer returned by
    /// [`WindowId::into_raw`].
    pub fn from_raw(id: usize) -> (r: Self)
        ensures
            r.spec_raw() == id,
    {
        Self(id)
    }
}

/// Converting a `WindowId` to its raw integer and back yields the same
/// identifier: the raw integer determines the identifier completely.
pub proof fn lemma_window_id_round_trip(x: WindowId, y: WindowId)
    requires
        y.spec_raw() == x.spec_raw(),
    ensures
        y == x,
{
}

/// An opaque token used to activate a window.
#[derive(Debug, PartialEq, Eq, Clone, Hash)]
pub struct ActivationToken {
    token: String,
}

impl ActivationToken {
    /// The token as a sequence of characters.
    pub closed spec fn spec_token(&self) -> Seq<char> {
        self.token@
    }

    /// Make an `ActivationToken` from a string passed by a side channel.
    /// The windowing system alone judges its validity.
    pub fn from_raw(token: String) -> (r: Self)
        ensures
            r.spec_token() == token@,
    {
        Self { token }
    }

    /// Convert the token to its string representation, to pass on.
    pub fn into_raw(self) -> (r: String)
        ensures
            r@ == self.spec_token(),
    {
        self.token
    }

    /// Get a reference to the raw token.
    pub fn as_raw(&self) -> (r: &str)
        ensures
            r@ == self.spec_token(),
    {
        self.token.as_str()
    }
}

/// The behavior of cursor grabbing.
#[derive(Debug, Copy, Clone, PartialEq, Eq, Hash, Structural)]
pub enum CursorGrabMode {
    /// No grabbing of the cursor is performed.
    Unconstrained,
    /// The cursor is confined to the window area.
    Confined,
    /// The cursor is locked in place inside the window area.
    Locked,
}

/// Defines the orientation in which a window resize is performed.
#[derive(Debug, Copy, Clone, PartialEq, Eq, Hash, Structural)]
pub enum ResizeDirection {
    East,
    North,
    NorthEast,
    NorthWest,
    South,
    SouthEast,
    SouthWest,
    West,
}

/// The theme variant to use.
#[derive(Clone, Copy, Debug, PartialEq, Eq, Hash, Structural)]
pub enum Theme {
    /// Use the light variant.
    Light,
    /// Use the dark variant.
    Dark,
}

/// How urgently the window asks for the user's attention.
#[derive(Debug, Clone, Copy, Default, PartialEq, Eq, Hash, Structural)]
pub enum UserAttentionType {
    /// Attention is needed immediately.
    Critical,
    /// Attention is wanted when convenient.
    #[default]
    Informational,
}

/// The window buttons the application wants enabled.
#[derive(Debug, Clone, Copy, PartialEq, Eq, Hash, Structural)]
pub struct WindowButtons {
    pub close: bool,
    pub minimize: bool,
    pub maximize: bool,
}

impl WindowButtons {
    /// Every button enabled.
    pub fn all() -> (r: Self)
        ensures
            r.close && r.minimize && r.maximize,
    {
        Self { close: true, minimize: true, maximize: true }
    }

    /// No button enabled.
    pub fn empty() -> (r: Self)
        ensures
            !r.close && !r.minimize && !r.maximize,
    {
        Self { close: false, minimize: false, maximize: false }
    }
}

/// A window level groups windows with respect to their z-position.
#[derive(Debug, Default, PartialEq, Eq, Clone, Copy, Hash, Structural)]
pub enum WindowLevel {
    /// The window is always below normal windows.
    AlwaysOnBottom,
    /// The default.
    #[default]
    Normal,
    /// The window is always on top of normal windows.
    AlwaysOnTop,
}

/// Generic IME purposes, hints that may let the platform optimise the input
/// method for the use case.
#[non_exhaustive]
#[derive(Debug, PartialEq, Eq, Clone, Copy, Hash, Structural)]
pub enum ImePurpose {
    /// No special hints for the IME.
    Normal,
    /// The IME is used for password input.
    Password,
    /// The IME is used to input into a terminal.
    Terminal,
}

impl Default for ImePurpose {
    fn default() -> (r: Self)
        ensures
            r is Normal,
    {
        Self::Normal
    }
}

/// Why building an [`ImeSurroundingText`] failed.
#[derive(Debug, PartialEq, Eq, Clone, Hash, Structural)]
pub enum ImeSurroundingTextError {
    /// The text exceeds the byte limit.
    TextTooLong,
    /// The cursor is not on a code point boundary, or past the end of text.
    CursorBadPosition,
    /// The anchor is not on a code point boundary, or past the end of text.
    AnchorBadPosition,
}

/// The length in bytes of a text, as the platform measures it: the length
/// of its UTF-8 encoding, held in a machine word.
pub open spec fn text_byte_len(text: Seq<char>) -> usize {
    encode_utf8(text).len() as usize
}

/// The text surrounding the caret, excluding any preedit, together with the
/// byte positions of the caret and of the other end of the selection.
#[derive(Debug, PartialEq, Eq, Clone, Hash)]
pub struct ImeSurroundingText {
    text: String,
    cursor: usize,
    anchor: usize,
}

impl ImeSurroundingText {
    /// The maximum size of the text excerpt, in bytes.
    pub const MAX_TEXT_BYTES: usize = 4000;

    /// The stored text, as characters.
    pub closed spec fn spec_text(&self) -> Seq<char> {
        self.text@
    }

    /// The stored caret position, in bytes.
    pub closed spec fn spec_cursor(&self) -> usize {
        self.cursor
    }

    /// The stored selection end, in bytes.
    pub closed spec fn spec_anchor(&self) -> usize {
        self.anchor
    }

    /// What the constructor guarantees of every value it returns: the text
    /// fits the byte limit and both positions lie on code point boundaries.
    pub open spec fn wf(&self) -> bool {
        &&& text_byte_len(self.spec_text()) < Self::MAX_TEXT_BYTES
        &&& is_char_boundary(encode_utf8(self.spec_text()), self.spec_cursor() as int)
        &&& is_char_boundary(encode_utf8(self.spec_text()), self.spec_anchor() as int)
    }

    /// Defines the text surrounding the cursor and the selection within it.
    ///
    /// `text` is limited to [`Self::MAX_TEXT_BYTES`] bytes; `cursor` and
    /// `anchor` are byte positions into it and must fall on code point
    /// boundaries. With no selection, `anchor` should equal `cursor`.
    pub fn new(text: String, cursor: usize, anchor: usize) -> (r: Result<
        Self,
        ImeSurroundingTextError,
    >)
        ensures
            ({
                let bytes = encode_utf8(text@);
                if text_byte_len(text@) >= Self::MAX_TEXT_BYTES {
                    r == Err::<Self, _>(ImeSurroundingTextError::TextTooLong)
                } else if !is_char_boundary(bytes, cursor as int) {
                    r == Err::<Self, _>(ImeSurroundingTextError::CursorBadPosition)
                } else if !is_char_boundary(bytes, anchor as int) {
                    r == Err::<Self, _>(ImeSurroundingTextError::AnchorBadPosition)
                } else {
                    r matches Ok(v) && v.spec_text() == text@ && v.spec_cursor() == cursor
                        && v.spec_anchor() == anchor && v.wf()
                }
            }),
    {
        proof {
            // The bytes of a string are a valid UTF-8 encoding, which lets
            // the boundary predicate unfold.
            vstd::utf8::encode_utf8_valid_utf8(text@);
        }
        if text.as_str().len() >= Self::MAX_TEXT_BYTES {
            return Err(ImeSurroundingTextError::TextTooLong);
        }
        if !text.as_str().is_char_boundary(cursor) {
            return Err(ImeSurroundingTextError::CursorBadPosition);
        }
        if !text.as_str().is_char_boundary(anchor) {
            return Err(ImeSurroundingTextError::AnchorBadPosition);
        }
        Ok(Self { text, cursor, anchor })
    }

    /// Consumes the value, releasing the text string alone.
    pub fn into_text(self) -> (r: String)
        ensures
            r@ == self.spec_text(),
    {
        self.text
    }

    /// The stored text.
    pub fn text(&self) -> (r: &str)
        ensures
            r@ == self.spec_text(),
    {
        self.text.as_str()
    }

    /// The stored caret position, in bytes.
    pub fn cursor(&self) -> (r: usize)
        ensures
            r == self.spec_cursor(),
    {
        self.cursor
    }

    /// The stored selection end, in bytes.
    pub fn anchor(&self) -> (r: usize)
        ensures
            r == self.spec_anchor(),
    {
        self.anchor
    }
}

/// IME capabilities supported by the client.
///
/// Requests to update data whose capability was not negotiated are ignored;
/// a capability can only be changed by disabling and re-enabling the IME.
#[derive(Debug, Clone, Copy, PartialEq, Eq, Hash, Default)]
pub struct ImeCapabilities {
    purpose: bool,
    cursor_area: bool,
    surrounding_text: bool,
}

impl ImeCapabilities {
    /// Whether `purpose` is marked supported.
    pub closed spec fn spec_purpose(&self) -> bool {
        self.purpose
    }

    /// Whether `cursor_area` is marked supported.
    pub closed spec fn spec_cursor_area(&self) -> bool {
        self.cursor_area
    }

    /// Whether `surrounding_text` is marked supported.
    pub closed spec fn spec_surrounding_text(&self) -> bool {
        self.surrounding_text
    }

    /// Returns a new empty set of capabilities.
    pub fn new() -> (r: Self)
        ensures
            !r.spec_purpose(),
            !r.spec_cursor_area(),
            !r.spec_surrounding_text(),
    {
        Self { purpose: false, cursor_area: false, surrounding_text: false }
    }

    /// Marks `purpose` as supported.
    pub fn with_purpose(self) -> (r: Self)
        ensures
            r.spec_purpose(),
            r.spec_cursor_area() == self.spec_cursor_area(),
            r.spec_surrounding_text() == self.spec_surrounding_text(),
    {
        Self { purpose: true, ..self }
    }

    /// Marks `purpose` as unsupported.
    pub fn without_purpose(self) -> (r: Self)
        ensures
            !r.spec_purpose(),
            r.spec_cursor_area() == self.spec_cursor_area(),
            r.spec_surrounding_text() == self.spec_surrounding_text(),
    {
        Self { purpose: false, ..self }
    }

    /// Returns `true` if `purpose` is supported.
    pub fn purpose(&self) -> (r: bool)
        ensures
            r == self.spec_purpose(),
    {
        self.purpose
    }

    /// Marks `cursor_area` as supported.
    pub fn with_cursor_area(self) -> (r: Self)
        ensures
            r.spec_cursor_area(),
            r.spec_purpose() == self.spec_purpose(),
            r.spec_surrounding_text() == self.spec_surrounding_text(),
    {
        Self { cursor_area: true, ..self }
    }

    /// Marks `cursor_area` as unsupported.
    pub fn without_cursor_area(self) -> (r: Self)
        ensures
            !r.spec_cursor_area(),
            r.spec_purpose() == self.spec_purpose(),
            r.spec_surrounding_text() == self.spec_surrounding_text(),
    {
        Self { cursor_area: false, ..self }
    }

    /// Returns `true` if `cursor_area` is supported.
    pub fn cursor_area(&self) -> (r: bool)
        ensures
            r == self.spec_cursor_area(),
    {
        self.cursor_area
    }

    /// Marks `surrounding_text` as supported.
    pub fn with_surrounding_text(self) -> (r: Self)
        ensures
            r.spec_surrounding_text(),
            r.spec_purpose() == self.spec_purpose(),
            r.spec_cursor_area() == self.spec_cursor_area(),
    {
        Self { surrounding_text: true, ..self }
    }

    /// Marks `surrounding_text` as unsupported.
    pub fn without_surrounding_text(self) -> (r: Self)
        ensures
            !r.spec_surrounding_text(),
            r.spec_purpose() == self.spec_purpose(),
            r.spec_cursor_area() == self.spec_cursor_area(),
    {
        Self { surrounding_text: false, ..self }
    }

    /// Returns `true` if `surrounding_text` is supported.
    pub fn surrounding_text(&self) -> (r: bool)
        ensures
            r == self.spec_surrounding_text(),
    {
        self.surrounding_text
    }
}

/// The data of an IME request: the state properties to apply at once.
/// Fields left `None` are not updated; the previously sent value stays.
#[non_exhaustive]
#[derive(Debug, PartialEq, Eq, Clone)]
pub struct ImeRequestData {
    /// Text input purpose.
    pub purpose: Option<ImePurpose>,
    /// The cursor area that the input method popup should not cover: its
    /// top-left corner and its size, in surface coordinates.
    pub cursor_area: Option<(dpi::PhysicalPosition<i32>, dpi::PhysicalSize<u32>)>,
    /// The text surrounding the caret.
    pub surrounding_text: Option<ImeSurroundingText>,
}

impl Default for ImeRequestData {
    /// The empty request data: no field is to be updated.
    fn default() -> (r: Self)
        ensures
            r.purpose is None,
            r.cursor_area is None,
            r.surrounding_text is None,
    {
        Self { purpose: None, cursor_area: None, surrounding_text: None }
    }
}

impl ImeRequestData {
    /// Sets the purpose hint of the current text input.
    pub fn with_purpose(self, purpose: ImePurpose) -> (r: Self)
        ensures
            r.purpose == Some(purpose),
            r.cursor_area == self.cursor_area,
            r.surrounding_text == self.surrounding_text,
    {
        Self { purpose: Some(purpose), ..self }
    }

    /// Sets the IME cursor editing area; the platform places its candidate
    /// box close to the area without obscuring it.
    pub fn with_cursor_area(
        self,
        position: dpi::PhysicalPosition<i32>,
        size: dpi::PhysicalSize<u32>,
    ) -> (r: Self)
        ensures
            r.cursor_area == Some((position, size)),
            r.purpose == self.purpose,
            r.surrounding_text == self.surrounding_text,
    {
        Self { cursor_area: Some((position, size)), ..self }
    }

    /// Describes the text surrounding the caret.
    pub fn with_surrounding_text(self, surrounding_text: ImeSurroundingText) -> (r: Self)
        ensures
            r.surrounding_text == Some(surrounding_text),
            r.purpose == self.purpose,
            r.cursor_area == self.cursor_area,
    {
        Self { surrounding_text: Some(surrounding_text), ..self }
    }
}

/// Whether a capability's presence agrees with the presence of its initial
/// data: either both there or both absent.
pub open spec fn ime_enable_agrees(capabilities: ImeCapabilities, data: ImeRequestData) -> bool {
    &&& capabilities.spec_cursor_area() == data.cursor_area is Some
    &&& capabilities.spec_purpose() == data.purpose is Some
    &&& capabilities.spec_surrounding_text() == data.surrounding_text is Some
}

/// The initial IME request: the capabilities to enable and their first data.
#[derive(Debug, Clone, PartialEq, Eq)]
pub struct ImeEnableRequest {
    capabilities: ImeCapabilities,
    request_data: ImeRequestData,
}

impl ImeEnableRequest {
    /// The capabilities the request enables.
    pub closed spec fn spec_capabilities(&self) -> ImeCapabilities {
        self.capabilities
    }

    /// The data attached to the request.
    pub closed spec fn spec_request_data(&self) -> ImeRequestData {
        self.request_data
    }

    /// Create the request with which the IME is enabled.
    ///
    /// Returns `None` exactly when some capability was requested without its
    /// initial value, or a value was given for a capability not requested.
    pub fn new(capabilities: ImeCapabilities, request_data: ImeRequestData) -> (r: Option<Self>)
        ensures
            if ime_enable_agrees(capabilities, request_data) {
                r matches Some(v) && v.spec_capabilities() == capabilities
                    && v.spec_request_data() == request_data
            } else {
                r is None
            },
    {
        if capabilities.cursor_area() != request_data.cursor_area.is_some() {
            return None;
        }
        if capabilities.purpose() != request_data.purpose.is_some() {
            return None;
        }
        if capabilities.surrounding_text() != request_data.surrounding_text.is_some() {
            return None;
        }
        Some(Self { capabilities, request_data })
    }

    /// The capabilities to enable.
    pub fn capabilities(&self) -> (r: &ImeCapabilities)
        ensures
            *r == self.spec_capabilities(),
    {
        &self.capabilities
    }

    /// The data attached to the request.
    pub fn request_data(&self) -> (r: &ImeRequestData)
        ensures
            *r == self.spec_request_data(),
    {
        &self.request_data
    }

    /// Destruct the request into its raw parts.
    pub fn into_raw(self) -> (r: (ImeCapabilities, ImeRequestData))
        ensures
            r.0 == self.spec_capabilities(),
            r.1 == self.spec_request_data(),
    {
        (self.capabilities, self.request_data)
    }
}

/// A request to send to the IME.
#[derive(Debug, PartialEq, Eq, Clone)]
pub enum ImeRequest {
    /// Enable the IME with the given capabilities and initial state; valid
    /// only while the IME is disabled.
    Enable(ImeEnableRequest),
    /// Update the state of the already enabled IME; fields outside the
    /// negotiated capabilities are ignored.
    Update(ImeRequestData),
    /// Disable the IME. Disabling cannot fail.
    Disable,
}

/// Error from sending a request to the IME.
#[derive(Debug, Clone, Copy, PartialEq, Eq, Structural)]
#[non_exhaustive]
pub enum ImeRequestError {
    /// IME is not yet enabled.
    NotEnabled,
    /// IME is already enabled.
    AlreadyEnabled,
    /// IME is not supported.
    NotSupported,
}

} // verus!
