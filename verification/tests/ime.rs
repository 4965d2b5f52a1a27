use winit_core::ime_backend::{ImeArea, ImeContextState, ImeInner};
use winit_core::ime_session::ImeSession;
use winit_core::window::{
    ImeCapabilities, ImeEnableRequest, ImePurpose, ImeRequest, ImeRequestData, ImeRequestError,
    ImeSurroundingText, ImeSurroundingTextError,
};

fn zero_area() -> (dpi::PhysicalPosition<i32>, dpi::PhysicalSize<u32>) {
    (
        winit_core::geometry::physical_position_i32(0, 0),
        winit_core::geometry::physical_size_u32(0, 0),
    )
}

#[test]
fn ime_initial_request_caps_match() {
    let (position, size) = zero_area();

    assert!(
        ImeEnableRequest::new(ImeCapabilities::new().with_cursor_area(), ImeRequestData::default())
            .is_none()
    );
    assert!(
        ImeEnableRequest::new(ImeCapabilities::new().with_purpose(), ImeRequestData::default())
            .is_none()
    );

    assert!(ImeEnableRequest::new(
        ImeCapabilities::new().with_cursor_area(),
        ImeRequestData::default().with_purpose(ImePurpose::Normal)
    )
    .is_none());

    assert!(ImeEnableRequest::new(
        ImeCapabilities::new(),
        ImeRequestData::default().with_purpose(ImePurpose::Normal).with_cursor_area(position, size)
    )
    .is_none());

    assert!(ImeEnableRequest::new(
        ImeCapabilities::new().with_cursor_area(),
        ImeRequestData::default().with_purpose(ImePurpose::Normal).with_cursor_area(position, size)
    )
    .is_none());

    assert!(ImeEnableRequest::new(
        ImeCapabilities::new().with_cursor_area(),
        ImeRequestData::default().with_cursor_area(position, size)
    )
    .is_some());

    assert!(ImeEnableRequest::new(
        ImeCapabilities::new().with_purpose().with_cursor_area(),
        ImeRequestData::default().with_purpose(ImePurpose::Normal).with_cursor_area(position, size)
    )
    .is_some());

    let text: &[u8] = ['a' as u8; 8000].as_slice();
    let text = std::str::from_utf8(text).unwrap();
    assert_eq!(
        ImeSurroundingText::new(text.into(), 0, 0),
        Err(ImeSurroundingTextError::TextTooLong),
    );

    assert_eq!(
        ImeSurroundingText::new("short".into(), 110, 0),
        Err(ImeSurroundingTextError::CursorBadPosition),
    );

    assert_eq!(
        ImeSurroundingText::new("граница".into(), 1, 0),
        Err(ImeSurroundingTextError::CursorBadPosition),
    );
}

#[test]
fn surrounding_text_accepts_valid_boundaries() {
    let value = ImeSurroundingText::new("foobar".into(), 3, 3).unwrap();
    assert_eq!(value.text(), "foobar");
    assert_eq!(value.cursor(), 3);
    assert_eq!(value.anchor(), 3);
    assert_eq!(value.clone().into_text(), String::from("foobar"));

    // the end of the string is a boundary
    assert!(ImeSurroundingText::new("abc".into(), 3, 0).is_ok());
    // one byte under the limit still passes
    let just_under = String::from_utf8(vec![b'x'; 3999]).unwrap();
    assert!(ImeSurroundingText::new(just_under, 0, 0).is_ok());
    // the limit itself is rejected
    let at_limit = String::from_utf8(vec![b'x'; 4000]).unwrap();
    assert_eq!(
        ImeSurroundingText::new(at_limit, 0, 0),
        Err(ImeSurroundingTextError::TextTooLong)
    );
}

#[test]
fn surrounding_text_rejects_bad_anchor() {
    assert_eq!(
        ImeSurroundingText::new("short".into(), 0, 110),
        Err(ImeSurroundingTextError::AnchorBadPosition),
    );
    assert_eq!(
        ImeSurroundingText::new("граница".into(), 0, 1),
        Err(ImeSurroundingTextError::AnchorBadPosition),
    );
    // a bad cursor is reported before a bad anchor
    assert_eq!(
        ImeSurroundingText::new("граница".into(), 1, 1),
        Err(ImeSurroundingTextError::CursorBadPosition),
    );
}

#[test]
fn ime_session_update_before_enable_fails() {
    let mut session = ImeSession::new();
    let result = session.request_ime_update(ImeRequest::Update(
        ImeRequestData::default().with_purpose(ImePurpose::Password),
    ));
    assert_eq!(result, Err(ImeRequestError::NotEnabled));
    assert!(session.ime_capabilities().is_none());
}

#[test]
fn ime_session_enable_update_disable() {
    let (position, size) = zero_area();
    let mut session = ImeSession::new();

    let caps = ImeCapabilities::new().with_purpose().with_cursor_area();
    let data = ImeRequestData::default()
        .with_purpose(ImePurpose::Normal)
        .with_cursor_area(position, size);
    let enable = ImeEnableRequest::new(caps, data).unwrap();
    assert_eq!(session.request_ime_update(ImeRequest::Enable(enable.clone())), Ok(()));

    // a second enable is refused and changes nothing
    assert_eq!(
        session.request_ime_update(ImeRequest::Enable(enable)),
        Err(ImeRequestError::AlreadyEnabled)
    );
    let negotiated = session.ime_capabilities().unwrap();
    assert!(negotiated.purpose() && negotiated.cursor_area() && !negotiated.surrounding_text());

    // an update of a negotiated field lands
    assert_eq!(
        session.request_ime_update(ImeRequest::Update(
            ImeRequestData::default().with_purpose(ImePurpose::Terminal)
        )),
        Ok(())
    );
    assert_eq!(session.session_data().unwrap().purpose, ImePurpose::Terminal);
    // fields left out keep their previous value
    assert_eq!(session.session_data().unwrap().cursor_area, Some((position, size)));

    // an update of a field outside the negotiated capabilities is ignored
    let surrounding = ImeSurroundingText::new("hello".into(), 5, 5).unwrap();
    assert_eq!(
        session.request_ime_update(ImeRequest::Update(
            ImeRequestData::default().with_surrounding_text(surrounding)
        )),
        Ok(())
    );
    assert_eq!(session.session_data().unwrap().surrounding_text, None);

    // disabling always succeeds and clears everything
    assert_eq!(session.request_ime_update(ImeRequest::Disable), Ok(()));
    assert!(session.ime_capabilities().is_none());
    assert_eq!(session.request_ime_update(ImeRequest::Disable), Ok(()));
}

#[test]
fn ime_session_legacy_shims() {
    let (position, size) = zero_area();
    let mut session = ImeSession::new();

    // the purpose shim does nothing while disabled
    session.set_ime_purpose(ImePurpose::Password);
    assert!(session.ime_capabilities().is_none());

    session.set_ime_allowed(true);
    let caps = session.ime_capabilities().unwrap();
    assert!(caps.purpose() && caps.cursor_area() && !caps.surrounding_text());

    session.set_ime_purpose(ImePurpose::Password);
    assert_eq!(session.session_data().unwrap().purpose, ImePurpose::Password);

    session.set_ime_cursor_area(position, size);
    assert_eq!(session.session_data().unwrap().cursor_area, Some((position, size)));

    session.set_ime_allowed(false);
    assert!(session.ime_capabilities().is_none());
}

#[test]
fn ime_backend_rebuild_preserves_context_state() {
    let mut inner = ImeInner::new();
    let area = ImeArea { x: 10, y: 20, width: 30, height: 40 };
    inner.register_context(7, Some(ImeContextState { area: Some(area), is_allowed: true }));
    inner.register_context(8, None);

    let plan = inner.rebuild_plan();
    assert_eq!(plan.len(), 2);
    assert_eq!(plan[0].window, 7);
    assert_eq!(plan[0].area, Some(area));
    assert!(plan[0].is_allowed);
    assert_eq!(plan[1].window, 8);
    assert_eq!(plan[1].area, None);
    assert!(!plan[1].is_allowed);
}

#[test]
fn ime_backend_replacement_lifecycle() {
    let mut inner = ImeInner::new();
    inner.register_context(7, None);

    // the server destroys the method: a fallback should be attempted
    let attempt = inner.server_destroyed();
    assert!(attempt);
    assert!(inner.is_destroyed());
    // while no usable method exists, a failed replacement is fatal
    assert!(inner.replace_failure_is_fatal());

    // the fallback rebuild succeeds and commits atomically
    let rebuilt = vec![(7u64, ImeContextState { area: None, is_allowed: false })];
    inner.commit_replace(rebuilt, true);
    assert!(!inner.is_destroyed());
    assert!(inner.is_fallback());
    assert!(!inner.replace_failure_is_fatal());

    // destroying the fallback does not ask for another fallback
    let attempt = inner.server_destroyed();
    assert!(!attempt);

    // a preferred method comes back: replacement commits, then the
    // instantiate callback clears the fallback mark
    let rebuilt = vec![(7u64, ImeContextState { area: None, is_allowed: false })];
    inner.commit_replace(rebuilt, false);
    inner.instantiate_succeeded();
    assert!(!inner.is_fallback());
}
