//! The per-window IME session state machine.
//!
//! A session is `Disabled` or `Enabled` with the negotiated capabilities and
//! the data last sent. Enabling negotiates capabilities; updates touch only
//! fields whose capability was negotiated and keep the previous value for
//! fields left out; disabling always succeeds and clears everything.

use vstd::prelude::*;

use crate::window::{
    ImeCapabilities, ImePurpose, ImeRequest, ImeRequestData, ImeRequestError, ImeSurroundingText,
};

verus! {

/// The IME state retained for an enabled session.
#[derive(Debug, Clone, PartialEq, Eq)]
pub struct ImeSessionData {
    /// Text input purpose; the default purpose until one is sent.
    pub purpose: ImePurpose,
    /// The cursor area last sent, if any.
    pub cursor_area: Option<(dpi::PhysicalPosition<i32>, dpi::PhysicalSize<u32>)>,
    /// The surrounding text last sent, if any.
    pub surrounding_text: Option<ImeSurroundingText>,
}

/// The state an enabling request installs: each requested field, with the
/// default standing in for fields that were not requested.
pub open spec fn initial_session_data(data: ImeRequestData) -> ImeSessionData {
    ImeSessionData {
        purpose: match data.purpose {
            Some(purpose) => purpose,
            None => ImePurpose::Normal,
        },
        cursor_area: data.cursor_area,
        surrounding_text: data.surrounding_text,
    }
}

/// The state after an update: fields covered by the negotiated capabilities
/// and present in the update take the new value; every other field keeps
/// its previous value.
pub open spec fn updated_session_data(
    capabilities: ImeCapabilities,
    current: ImeSessionData,
    update: ImeRequestData,
) -> ImeSessionData {
    ImeSessionData {
        purpose: match update.purpose {
            Some(purpose) => if capabilities.spec_purpose() {
                purpose
            } else {
                current.purpose
            },
            None => current.purpose,
        },
        cursor_area: match update.cursor_area {
            Some(area) => if capabilities.spec_cursor_area() {
                Some(area)
            } else {
                current.cursor_area
            },
            None => current.cursor_area,
        },
        surrounding_text: match update.surrounding_text {
            Some(text) => if capabilities.spec_surrounding_text() {
                Some(text)
            } else {
                current.surrounding_text
            },
            None => current.surrounding_text,
        },
    }
}

/// The IME session of one window.
pub struct ImeSession {
    /// The negotiated capabilities and retained data while enabled.
    enabled: Option<(ImeCapabilities, ImeSessionData)>,
}

impl ImeSession {
    /// The session's state: the negotiated capabilities and retained data
    /// while enabled, nothing while disabled.
    pub closed spec fn spec_enabled(&self) -> Option<(ImeCapabilities, ImeSessionData)> {
        self.enabled
    }

    /// A fresh session; IME starts disabled.
    pub fn new() -> (r: Self)
        ensures
            r.spec_enabled() is None,
    {
        Self { enabled: None }
    }

    /// Apply a request to the session.
    ///
    /// Enabling fails with `AlreadyEnabled` on an enabled session and
    /// otherwise installs the request's capabilities and initial data.
    /// Updating fails with `NotEnabled` on a disabled session and otherwise
    /// merges the update under the negotiated capabilities. Disabling
    /// always succeeds and clears the retained state.
    pub fn request_ime_update(&mut self, request: ImeRequest) -> (r: Result<(), ImeRequestError>)
        ensures
            match request {
                ImeRequest::Enable(enable) => match old(self).spec_enabled() {
                    Some(_) => {
                        &&& r == Err::<(), _>(ImeRequestError::AlreadyEnabled)
                        &&& final(self).spec_enabled() == old(self).spec_enabled()
                    },
                    None => {
                        &&& r == Ok::<(), ImeRequestError>(())
                        &&& final(self).spec_enabled() == Some(
                            (
                                enable.spec_capabilities(),
                                initial_session_data(enable.spec_request_data()),
                            ),
                        )
                    },
                },
                ImeRequest::Update(update) => match old(self).spec_enabled() {
                    Some((capabilities, current)) => {
                        &&& r == Ok::<(), ImeRequestError>(())
                        &&& final(self).spec_enabled() == Some(
                            (capabilities, updated_session_data(capabilities, current, update)),
                        )
                    },
                    None => {
                        &&& r == Err::<(), _>(ImeRequestError::NotEnabled)
                        &&& final(self).spec_enabled() is None
                    },
                },
                ImeRequest::Disable => {
                    &&& r == Ok::<(), ImeRequestError>(())
                    &&& final(self).spec_enabled() is None
                },
            },
    {
        match request {
            ImeRequest::Enable(enable) => {
                if self.enabled.is_some() {
                    return Err(ImeRequestError::AlreadyEnabled);
                }
                let (capabilities, data) = enable.into_raw();
                let purpose = match data.purpose {
                    Some(purpose) => purpose,
                    None => ImePurpose::Normal,
                };
                self.enabled = Some(
                    (
                        capabilities,
                        ImeSessionData {
                            purpose,
                            cursor_area: data.cursor_area,
                            surrounding_text: data.surrounding_text,
                        },
                    ),
                );
                Ok(())
            },
            ImeRequest::Update(update) => {
                match self.enabled.take() {
                    Some((capabilities, current)) => {
                        let purpose = match update.purpose {
                            Some(purpose) => if capabilities.purpose() {
                                purpose
                            } else {
                                current.purpose
                            },
                            None => current.purpose,
                        };
                        let cursor_area = match update.cursor_area {
                            Some(area) => if capabilities.cursor_area() {
                                Some(area)
                            } else {
                                current.cursor_area
                            },
                            None => current.cursor_area,
                        };
                        let surrounding_text = match update.surrounding_text {
                            Some(text) => if capabilities.surrounding_text() {
                                Some(text)
                            } else {
                                current.surrounding_text
                            },
                            None => current.surrounding_text,
                        };
                        self.enabled = Some(
                            (capabilities, ImeSessionData { purpose, cursor_area, surrounding_text }),
                        );
                        Ok(())
                    },
                    None => Err(ImeRequestError::NotEnabled),
                }
            },
            ImeRequest::Disable => {
                self.enabled = None;
                Ok(())
            },
        }
    }

    /// Allow or disallow the IME wholesale.
    ///
    /// Allowing enables the IME with the purpose and cursor-area
    /// capabilities and placeholder initial data, as the older all-or-
    /// nothing interface did; on an already enabled session it changes
    /// nothing. Disallowing disables the IME.
    pub fn set_ime_allowed(&mut self, allowed: bool)
        ensures
            if allowed {
                match old(self).spec_enabled() {
                    Some(_) => final(self).spec_enabled() == old(self).spec_enabled(),
                    None => final(self).spec_enabled() matches Some((capabilities, data))
                        && capabilities.spec_purpose() && capabilities.spec_cursor_area()
                        && !capabilities.spec_surrounding_text() && data.purpose is Normal
                        && data.cursor_area is Some && data.surrounding_text is None,
                }
            } else {
                final(self).spec_enabled() is None
            },
    {
        if allowed {
            let capabilities = ImeCapabilities::new().with_purpose().with_cursor_area();
            let position = dpi::PhysicalPosition { x: 0i32, y: 0i32 };
            let size = dpi::PhysicalSize { width: 0u32, height: 0u32 };
            let data = ImeRequestData::default().with_purpose(ImePurpose::Normal).with_cursor_area(
                position,
                size,
            );
            // The capabilities and the data agree by construction, so the
            // request always builds.
            if let Some(request) = crate::window::ImeEnableRequest::new(capabilities, data) {
                let _ = self.request_ime_update(ImeRequest::Enable(request));
            }
        } else {
            let _ = self.request_ime_update(ImeRequest::Disable);
        }
    }

    /// Send a new purpose hint, if the purpose capability was negotiated;
    /// otherwise change nothing.
    pub fn set_ime_purpose(&mut self, purpose: ImePurpose)
        ensures
            match old(self).spec_enabled() {
                Some((capabilities, data)) => if capabilities.spec_purpose() {
                    final(self).spec_enabled() == Some(
                        (capabilities, ImeSessionData { purpose, ..data }),
                    )
                } else {
                    final(self).spec_enabled() == old(self).spec_enabled()
                },
                None => final(self).spec_enabled() is None,
            },
    {
        let supported = match self.ime_capabilities() {
            Some(capabilities) => capabilities.purpose(),
            None => false,
        };
        if supported {
            let _ = self.request_ime_update(
                ImeRequest::Update(ImeRequestData::default().with_purpose(purpose)),
            );
        }
    }

    /// Send a new cursor area, if the cursor-area capability was
    /// negotiated; otherwise change nothing.
    pub fn set_ime_cursor_area(
        &mut self,
        position: dpi::PhysicalPosition<i32>,
        size: dpi::PhysicalSize<u32>,
    )
        ensures
            match old(self).spec_enabled() {
                Some((capabilities, data)) => if capabilities.spec_cursor_area() {
                    final(self).spec_enabled() == Some(
                        (capabilities, ImeSessionData { cursor_area: Some((position, size)), ..data }),
                    )
                } else {
                    final(self).spec_enabled() == old(self).spec_enabled()
                },
                None => final(self).spec_enabled() is None,
            },
    {
        let supported = match self.ime_capabilities() {
            Some(capabilities) => capabilities.cursor_area(),
            None => false,
        };
        if supported {
            let _ = self.request_ime_update(
                ImeRequest::Update(ImeRequestData::default().with_cursor_area(position, size)),
            );
        }
    }

    /// The capabilities negotiated for this session; none while the IME is
    /// disabled, which is an answer, not an error.
    pub fn ime_capabilities(&self) -> (r: Option<ImeCapabilities>)
        ensures
            match self.spec_enabled() {
                Some((capabilities, _)) => r == Some(capabilities),
                None => r is None,
            },
    {
        match &self.enabled {
            Some((capabilities, _)) => Some(*capabilities),
            None => None,
        }
    }

    /// The data last retained for this session; none while disabled.
    pub fn session_data(&self) -> (r: Option<&ImeSessionData>)
        ensures
            match self.spec_enabled() {
                Some((_, data)) => r matches Some(d) && *d == data,
                None => r is None,
            },
    {
        match &self.enabled {
            Some((_, data)) => Some(data),
            None => None,
        }
    }
}

} // verus!
