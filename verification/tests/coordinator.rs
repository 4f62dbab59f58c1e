use screencast::{
    respond, CaptureRequest, CaptureTarget, CastBinding, CastRegistry, CursorMode, CursorModes,
    Failure, Output, PersistMode, PortalError, PortalResponse, ScreenCastBackend,
    SelectSourcesOptions, Session, SessionCreateResult, SessionRegistry, SessionType, SourceType,
    SourceTypes, StartReturnValue, StartStep, Stream, StreamProperties,
};

fn announcing(node_id: u32) -> StartReturnValue {
    StartReturnValue {
        streams: vec![Stream(node_id, StreamProperties::default())],
        persist_mode: 0,
        restore_token: None,
    }
}

fn two_outputs() -> Vec<Output> {
    vec![
        Output { x: 0, y: 0, width: 1920, height: 1080 },
        Output { x: 1920, y: 0, width: 2560, height: 1440 },
    ]
}

#[test]
fn the_backend_implements_revision_four() {
    assert_eq!(ScreenCastBackend.version(), 4);
}

#[test]
fn hidden_and_embedded_pointers_are_on_offer() {
    assert_eq!(ScreenCastBackend.available_cursor_modes(), 3);
    let modes = CursorModes::from_bits(ScreenCastBackend.available_cursor_modes()).unwrap();
    assert!(modes.contains(CursorMode::Hidden));
    assert!(modes.contains(CursorMode::Embedded));
    assert!(!modes.contains(CursorMode::Metadata));
}

#[test]
fn monitors_are_the_only_source_on_offer() {
    assert_eq!(ScreenCastBackend.available_source_types(), 1);
    let sources = SourceTypes::from_bits(ScreenCastBackend.available_source_types()).unwrap();
    assert_eq!(sources, SourceTypes::from_flag(SourceType::Monitor));
}

#[test]
fn create_session_files_a_fresh_screen_cast_session() {
    let mut sessions = SessionRegistry::new();
    let reply = ScreenCastBackend.create_session(&mut sessions, "/portal/session/app/one");
    assert_eq!(
        reply,
        Ok(PortalResponse::Success(SessionCreateResult {
            handle_token: "/portal/session/app/one".to_string(),
        }))
    );
    assert_eq!(sessions.len(), 1);
    assert_eq!(
        sessions.find("/portal/session/app/one"),
        Some(Session::new("/portal/session/app/one".to_string(), SessionType::ScreenCast))
    );
}

#[test]
fn create_session_fails_on_a_handle_that_is_taken() {
    let mut sessions = SessionRegistry::new();
    ScreenCastBackend.create_session(&mut sessions, "/a").unwrap();
    ScreenCastBackend
        .select_sources(
            &mut sessions,
            "/a",
            SelectSourcesOptions { multiple: Some(true), ..SelectSourcesOptions::default() },
        )
        .unwrap();
    let before = sessions.find("/a");
    let reply = ScreenCastBackend.create_session(&mut sessions, "/a");
    assert_eq!(
        reply,
        Err(Failure { message: "a session with this handle exists already".to_string() })
    );
    assert_eq!(sessions.len(), 1);
    assert_eq!(sessions.find("/a"), before);
}

#[test]
fn select_sources_takes_the_selection_over() {
    let mut sessions = SessionRegistry::new();
    ScreenCastBackend.create_session(&mut sessions, "/a").unwrap();
    ScreenCastBackend.create_session(&mut sessions, "/b").unwrap();
    let reply = ScreenCastBackend.select_sources(
        &mut sessions,
        "/a",
        SelectSourcesOptions {
            types: Some(SourceTypes::from_flag(SourceType::Window)),
            multiple: Some(true),
            cursor_mode: Some(CursorModes::from_flag(CursorMode::Embedded)),
            restore_token: Some("token".to_string()),
            persist_mode: Some(PersistMode::PersistUntilRevoked),
        },
    );
    assert_eq!(reply, Ok(PortalResponse::Success(())));
    let session = sessions.find("/a").unwrap();
    assert_eq!(session.session_type, SessionType::ScreenCast);
    assert_eq!(session.source_type, SourceTypes::from_flag(SourceType::Window));
    assert!(session.multiple);
    assert_eq!(session.cursor_mode, CursorModes::from_flag(CursorMode::Embedded));
    assert_eq!(session.restore_token, Some("token".to_string()));
    assert_eq!(session.persist_mode, PersistMode::PersistUntilRevoked);
    assert_eq!(
        sessions.find("/b"),
        Some(Session::new("/b".to_string(), SessionType::ScreenCast))
    );
}

#[test]
fn select_sources_on_a_missing_session_is_not_applicable_and_changes_nothing() {
    let mut sessions = SessionRegistry::new();
    ScreenCastBackend.create_session(&mut sessions, "/a").unwrap();
    let reply = ScreenCastBackend.select_sources(
        &mut sessions,
        "/gone",
        SelectSourcesOptions { multiple: Some(true), ..SelectSourcesOptions::default() },
    );
    assert_eq!(reply, Ok(PortalResponse::Other));
    assert_eq!(sessions.len(), 1);
    assert_eq!(
        sessions.find("/a"),
        Some(Session::new("/a".to_string(), SessionType::ScreenCast))
    );
    assert!(!sessions.contains("/gone"));
}

#[test]
fn start_goes_on_for_a_session_without_a_cast() {
    let casts: CastRegistry<u8> = CastRegistry::new();
    assert_eq!(ScreenCastBackend.start(&casts, "/a"), StartStep::Continue(()));
}

#[test]
fn start_announces_the_stream_that_already_runs() {
    let mut casts = CastRegistry::new();
    casts.insert(CastBinding::new("/a".to_string(), 42, 'w'));
    casts.insert(CastBinding::new("/b".to_string(), 43, 'v'));
    assert_eq!(
        ScreenCastBackend.start(&casts, "/b"),
        StartStep::Reply(Ok(PortalResponse::Success(announcing(43))))
    );
    assert_eq!(ScreenCastBackend.start(&casts, "/c"), StartStep::Continue(()));
    assert_eq!(casts.len(), 2);
}

#[test]
fn capture_request_is_not_applicable_without_a_session() {
    let sessions = SessionRegistry::new();
    assert_eq!(
        ScreenCastBackend.capture_request(&sessions, "/a"),
        StartStep::Reply(Ok(PortalResponse::Other))
    );
}

#[test]
fn capture_request_is_not_applicable_for_a_session_of_another_type() {
    let mut sessions = SessionRegistry::new();
    sessions.insert(Session::new("/remote".to_string(), SessionType::Remote)).unwrap();
    assert_eq!(
        ScreenCastBackend.capture_request(&sessions, "/remote"),
        StartStep::Reply(Ok(PortalResponse::Other))
    );
}

#[test]
fn capture_request_reads_the_pointer_choice_of_the_session() {
    let mut sessions = SessionRegistry::new();
    ScreenCastBackend.create_session(&mut sessions, "/a").unwrap();
    assert_eq!(
        ScreenCastBackend.capture_request(&sessions, "/a"),
        StartStep::Continue(CaptureRequest { show_cursor: false })
    );
    let embedded = SelectSourcesOptions {
        cursor_mode: Some(CursorModes::from_flag(CursorMode::Embedded)),
        ..SelectSourcesOptions::default()
    };
    ScreenCastBackend.select_sources(&mut sessions, "/a", embedded).unwrap();
    assert_eq!(
        ScreenCastBackend.capture_request(&sessions, "/a"),
        StartStep::Continue(CaptureRequest { show_cursor: true })
    );
    let before = sessions.find("/a");
    ScreenCastBackend.capture_request(&sessions, "/a");
    assert_eq!(sessions.find("/a"), before);
}

#[test]
fn capture_target_is_the_matched_output_in_full_size() {
    let request = CaptureRequest { show_cursor: true };
    assert_eq!(
        ScreenCastBackend.capture_target(request, &two_outputs(), Ok(Some((1920, 0)))),
        StartStep::Continue(CaptureTarget {
            output: 1,
            width: 2560,
            height: 1440,
            show_cursor: true,
        })
    );
    let hidden = CaptureRequest { show_cursor: false };
    assert_eq!(
        ScreenCastBackend.capture_target(hidden, &two_outputs(), Ok(Some((0, 0)))),
        StartStep::Continue(CaptureTarget {
            output: 0,
            width: 1920,
            height: 1080,
            show_cursor: false,
        })
    );
}

#[test]
fn capture_target_is_not_applicable_when_no_output_matches() {
    let request = CaptureRequest { show_cursor: true };
    assert_eq!(
        ScreenCastBackend.capture_target(request, &two_outputs(), Ok(Some((5, 5)))),
        StartStep::Reply(Ok(PortalResponse::Other))
    );
    assert_eq!(
        ScreenCastBackend.capture_target(request, &[], Ok(Some((0, 0)))),
        StartStep::Reply(Ok(PortalResponse::Other))
    );
}

#[test]
fn capture_target_reports_a_cancelled_selection_as_cancelled() {
    let request = CaptureRequest { show_cursor: true };
    assert_eq!(
        ScreenCastBackend.capture_target(request, &two_outputs(), Ok(None)),
        StartStep::Reply(Ok(PortalResponse::Cancelled))
    );
}

#[test]
fn capture_target_fails_when_the_selection_could_not_run() {
    let request = CaptureRequest { show_cursor: true };
    assert_eq!(
        ScreenCastBackend.capture_target(
            request,
            &two_outputs(),
            Err("Protocol not supported".to_string())
        ),
        StartStep::Reply(Err(Failure {
            message: "wayland error, Protocol not supported".to_string(),
        }))
    );
}

#[test]
fn capture_target_takes_sizes_as_unsigned_numbers_of_the_same_bits() {
    let outputs = [Output { x: -1920, y: -5, width: -1, height: i32::MIN }];
    let request = CaptureRequest { show_cursor: false };
    assert_eq!(
        ScreenCastBackend.capture_target(request, &outputs, Ok(Some((-1920, -5)))),
        StartStep::Continue(CaptureTarget {
            output: 0,
            width: 4294967295,
            height: 2147483648,
            show_cursor: false,
        })
    );
}

#[test]
fn finish_start_binds_the_worker_and_announces_its_stream() {
    let mut casts = CastRegistry::new();
    let (reply, surplus) = ScreenCastBackend.finish_start(&mut casts, "/a", Ok((42, 'w')));
    assert_eq!(reply, Ok(PortalResponse::Success(announcing(42))));
    assert_eq!(surplus, None);
    assert_eq!(casts.len(), 1);
    assert_eq!(casts.find_by_handle("/a"), Some(&CastBinding::new("/a".to_string(), 42, 'w')));
}

#[test]
fn finish_start_keeps_the_cast_that_came_first() {
    let mut casts = CastRegistry::new();
    ScreenCastBackend.finish_start(&mut casts, "/a", Ok((42, 'w')));
    let (reply, surplus) = ScreenCastBackend.finish_start(&mut casts, "/a", Ok((77, 'l')));
    assert_eq!(reply, Ok(PortalResponse::Success(announcing(42))));
    assert_eq!(surplus, Some('l'));
    assert_eq!(casts.len(), 1);
    assert_eq!(casts.find_by_handle("/a"), Some(&CastBinding::new("/a".to_string(), 42, 'w')));
}

#[test]
fn finish_start_fails_when_no_worker_came_up() {
    let mut casts: CastRegistry<char> = CastRegistry::new();
    let (reply, surplus) =
        ScreenCastBackend.finish_start(&mut casts, "/a", Err("no pipewire".to_string()));
    assert_eq!(
        reply,
        Err(Failure { message: "cannot start pipewire stream, error: no pipewire".to_string() })
    );
    assert_eq!(surplus, None);
    assert_eq!(casts.len(), 0);
}

#[test]
fn a_success_is_answered_with_its_payload() {
    assert_eq!(respond(Ok(5u8)), Ok(PortalResponse::Success(5u8)));
}

#[test]
fn a_cancelled_selection_is_answered_as_cancelled() {
    assert_eq!(respond::<u8>(Err(PortalError::UserCancelled)), Ok(PortalResponse::Cancelled));
}

#[test]
fn a_missing_session_or_output_is_answered_as_other() {
    assert_eq!(respond::<u8>(Err(PortalError::SessionNotFound)), Ok(PortalResponse::Other));
    assert_eq!(respond::<u8>(Err(PortalError::OutputNotMatched)), Ok(PortalResponse::Other));
}

#[test]
fn a_backend_failure_fails_the_call_with_its_text() {
    assert_eq!(
        respond::<u8>(Err(PortalError::BackendFailure("disk on fire".to_string()))),
        Err(Failure { message: "disk on fire".to_string() })
    );
}

#[test]
fn a_broken_invariant_fails_the_call() {
    assert_eq!(
        respond::<u8>(Err(PortalError::InvariantViolation)),
        Err(Failure { message: "a session with this handle exists already".to_string() })
    );
}

#[test]
fn responses_have_the_codes_zero_to_two() {
    assert_eq!(PortalResponse::Success(()).code(), 0);
    assert_eq!(PortalResponse::<()>::Cancelled.code(), 1);
    assert_eq!(PortalResponse::<()>::Other.code(), 2);
}

#[test]
fn a_stream_of_a_node_has_no_properties() {
    let stream = Stream::new(42);
    assert_eq!(stream.node_id(), 42);
    assert!(stream.properties().is_unset());
    assert_eq!(stream, Stream(42, StreamProperties::default()));
    assert_eq!(Stream::default(), Stream::new(0));
    let named = StreamProperties { id: Some("x".to_string()), ..StreamProperties::default() };
    assert!(!named.is_unset());
}

#[test]
fn a_start_payload_for_a_node_announces_that_stream_and_nothing_else() {
    assert_eq!(StartReturnValue::for_node(42), announcing(42));
    assert_eq!(
        StartReturnValue::default(),
        StartReturnValue { streams: vec![], persist_mode: 0, restore_token: None }
    );
    assert_eq!(SessionCreateResult::default().handle_token, "");
}
