use websocket::cb::builder::WebSocketBuilder;
use websocket::cb::machine::{timer_millis, CloseRequest, WebSocketCore};
use websocket::cb::model::{
    AdapterSet, Attempt, CloseError, CloseReaction, ConstructionError, HandlerSet, RetryState,
    SendError,
};
use websocket::cb::{Reaction, WebSocket};
use websocket::common::{ReadyState, ReconnectConfig, WsEvent, WsMessage};

const URL: &str = "wss://example.test/feed";

fn client(builder: WebSocketBuilder) -> WebSocket {
    match builder.build::<(), String>(Ok(())) {
        Ok((ws, ())) => ws,
        Err(error) => panic!("no client: {:?}", error),
    }
}

fn all_handlers() -> WebSocketBuilder {
    WebSocket::connect(URL.to_string())
        .onmessage()
        .onopen()
        .onerror()
        .onclose()
}

fn nothing() -> Reaction {
    Reaction {
        retry_after: None,
        deliver: None,
    }
}

#[test]
fn builder_starts_with_no_handler_and_the_standard_backoff() {
    let builder = WebSocket::connect(URL.to_string());
    assert_eq!(builder.url, URL);
    assert_eq!(builder.protocols, None);
    assert_eq!(
        builder.handlers,
        HandlerSet {
            message: false,
            open: false,
            error: false,
            close: false
        }
    );
    assert_eq!(builder.reconnect, Some(ReconnectConfig::new()));
    let same = WebSocketBuilder::new(URL.to_string());
    assert_eq!(same.url, builder.url);
    assert_eq!(same.reconnect, builder.reconnect);
}

#[test]
fn builder_records_each_setting() {
    let builder = WebSocket::connect(URL.to_string()).onmessage();
    assert!(builder.handlers.message && !builder.handlers.open);
    let builder = builder.onopen();
    assert!(builder.handlers.message && builder.handlers.open && !builder.handlers.error);
    let builder = builder.onerror();
    assert!(builder.handlers.error && !builder.handlers.close);
    let builder = builder.onclose();
    assert!(builder.handlers.close);
    let builder = builder.protocols(vec!["chat".to_string(), "superchat".to_string()]);
    assert_eq!(
        builder.protocols,
        Some(vec!["chat".to_string(), "superchat".to_string()])
    );
    let custom = ReconnectConfig::new_custom(0, 2_000, 8_000);
    let builder = builder.reconnect(custom);
    assert_eq!(builder.reconnect, Some(custom));
    let builder = builder.no_reconnect();
    assert_eq!(builder.reconnect, None);
    assert_eq!(builder.url, URL);
}

#[test]
fn open_and_close_always_have_an_adapter() {
    let least = AdapterSet {
        message: false,
        open: true,
        error: false,
        close: true,
    };
    // The client follows the status of its handle by these two, with or
    // without a handler and with or without a backoff.
    assert_eq!(WebSocket::connect(URL.to_string()).adapters(), least);
    assert_eq!(
        WebSocket::connect(URL.to_string()).no_reconnect().adapters(),
        least
    );
    let listening = WebSocket::connect(URL.to_string())
        .no_reconnect()
        .onmessage();
    assert_eq!(
        listening.adapters(),
        AdapterSet {
            message: true,
            ..least
        }
    );
    assert_eq!(
        WebSocket::connect(URL.to_string()).onerror().adapters(),
        AdapterSet {
            error: true,
            ..least
        }
    );
    assert_eq!(
        all_handlers().no_reconnect().adapters(),
        AdapterSet {
            message: true,
            open: true,
            error: true,
            close: true
        }
    );
}

#[test]
fn a_client_with_a_message_handler_alone_comes_to_be_open() {
    let mut ws = client(WebSocket::connect(URL.to_string()).no_reconnect().onmessage());
    assert!(ws.adapters().open && ws.adapters().close);
    assert_eq!(ws.handle_event(0, WsEvent::Open, 0), nothing());
    assert_eq!(ws.status(), ReadyState::Open);
    assert_eq!(
        ws.send::<String>(1, WsMessage::Text("a".to_string())),
        Ok(WsMessage::Text("a".to_string()))
    );
    assert_eq!(ws.handle_event(0, WsEvent::Close, 0), nothing());
    assert_eq!(ws.status(), ReadyState::Closed);
}

#[test]
fn build_gives_a_connecting_client_of_generation_zero() {
    let ws = client(all_handlers().protocols(vec!["chat".to_string()]));
    assert_eq!(ws.status(), ReadyState::Connecting);
    assert_eq!(ws.generation(), 0);
    assert_eq!(ws.retry(), RetryState::Idle);
    assert!(!ws.is_closing());
    assert_eq!(ws.url(), URL);
    assert_eq!(ws.protocols(), &Some(vec!["chat".to_string()]));
    assert_eq!(ws.reconnect(), Some(ReconnectConfig::new()));
    assert_eq!(
        ws.adapters(),
        AdapterSet {
            message: true,
            open: true,
            error: true,
            close: true
        }
    );
}

#[test]
fn build_hands_back_the_error_of_the_first_attempt() {
    let refusal = "the connection was refused".to_string();
    match all_handlers().build::<u8, String>(Err(refusal.clone())) {
        Ok(_) => panic!("a client was built without a transport handle"),
        Err(got) => assert_eq!(got, ConstructionError { cause: refusal }),
    }
}

#[test]
fn build_hands_back_the_handle_of_the_first_attempt() {
    match all_handlers().build::<&str, String>(Ok("handle")) {
        Ok((ws, handle)) => {
            assert_eq!(handle, "handle");
            assert_eq!(ws.status(), ReadyState::Connecting);
        }
        Err(error) => panic!("no client: {:?}", error),
    }
}

#[test]
fn unexpected_close_is_retried_and_the_backoff_resets_on_open() {
    let mut ws = client(all_handlers());
    assert_eq!(
        ws.handle_event(0, WsEvent::Open, 9),
        Reaction {
            retry_after: None,
            deliver: Some(WsEvent::Open)
        }
    );
    assert_eq!(ws.status(), ReadyState::Open);

    // The platform closes the connection, say with code 1006.
    let reaction = ws.handle_event(0, WsEvent::Close, 0x8000_0000);
    assert_eq!(
        reaction,
        Reaction {
            retry_after: Some(500),
            deliver: Some(WsEvent::Close)
        }
    );
    assert_eq!(ws.status(), ReadyState::Closed);
    assert_eq!(ws.retry(), RetryState::Scheduled);
    assert!(ws.reconnect().is_some_and(|cfg| cfg.is_reconnecting()));
    assert_eq!(
        ws.reconnect().map(|cfg| cfg.current_interval()),
        Some(750)
    );

    // The timer fires, and a new handle is opened.
    assert!(ws.retry_fired());
    assert_eq!(ws.retry(), RetryState::Attempting);
    let bound = ws.attempt_finished(true, 3);
    assert_eq!(
        bound,
        Attempt::Bind {
            generation: 1,
            adapters: ws.adapters()
        }
    );
    assert_eq!(ws.generation(), 1);
    assert_eq!(ws.status(), ReadyState::Connecting);
    assert_eq!(ws.retry(), RetryState::Idle);
    // The backoff is reset by the open notification, not by the new handle.
    assert!(ws.reconnect().is_some_and(|cfg| cfg.is_reconnecting()));

    assert_eq!(
        ws.handle_event(1, WsEvent::Open, 9).deliver,
        Some(WsEvent::Open)
    );
    assert_eq!(ws.status(), ReadyState::Open);
    assert_eq!(ws.reconnect(), Some(ReconnectConfig::new()));
}

#[test]
fn the_first_retry_delay_lies_round_the_initial_interval() {
    for sample in [0u32, 1, 0x7FFF_FFFF, 0xDEAD_BEEF, u32::MAX] {
        let mut ws = client(WebSocket::connect(URL.to_string()));
        ws.handle_event(0, WsEvent::Open, 0);
        let reaction = ws.handle_event(0, WsEvent::Close, sample);
        match reaction.retry_after {
            Some(delay) => assert!((250..=750).contains(&delay)),
            None => panic!("no retry was scheduled"),
        }
        assert_eq!(reaction.deliver, None);
    }
}

#[test]
fn send_is_refused_until_the_connection_is_open() {
    let mut ws = client(all_handlers());
    // The handle reports 0, connecting.
    assert_eq!(ws.ready_state(0), ReadyState::Connecting);
    assert_eq!(
        ws.send::<String>(0, WsMessage::Text("a".to_string())),
        Err(SendError::NotOpen(ReadyState::Connecting))
    );
    ws.handle_event(0, WsEvent::Open, 0);
    // The handle reports 1, open.
    assert_eq!(ws.ready_state(1), ReadyState::Open);
    assert_eq!(
        ws.send::<String>(1, WsMessage::Text("a".to_string())),
        Ok(WsMessage::Text("a".to_string()))
    );
    assert_eq!(
        ws.send::<String>(1, WsMessage::Binary(vec![0, 159, 146, 150])),
        Ok(WsMessage::Binary(vec![0, 159, 146, 150]))
    );
}

#[test]
fn ready_state_and_send_go_by_the_live_status_alone() {
    let ws = client(all_handlers());
    // Whatever the client has recorded, the status is the one just read.
    assert_eq!(ws.status(), ReadyState::Connecting);
    assert_eq!(ws.ready_state(0), ReadyState::Connecting);
    assert_eq!(ws.ready_state(1), ReadyState::Open);
    assert_eq!(ws.ready_state(2), ReadyState::Closing);
    assert_eq!(ws.ready_state(3), ReadyState::Closed);
    assert_eq!(ws.ready_state(4), ReadyState::Other(4));
    assert!(ws.send::<String>(1, WsMessage::Binary(vec![7])).is_ok());
    for live in [0u16, 2, 3, 4, u16::MAX] {
        assert_eq!(
            ws.send::<String>(live, WsMessage::Binary(vec![7])),
            Err(SendError::NotOpen(ReadyState::from(live)))
        );
    }
}

#[test]
fn a_refusal_of_the_transport_goes_to_the_sender() {
    assert_eq!(WebSocket::send_finished::<String>(Ok(())), Ok(()));
    assert_eq!(
        WebSocket::send_finished(Err("the buffer is full".to_string())),
        Err(SendError::Transport("the buffer is full".to_string()))
    );
    assert_eq!(WebSocketCore::send_finished::<u8>(Ok(())), Ok(()));
    assert_eq!(
        WebSocketCore::send_finished(Err(7u8)),
        Err(SendError::Transport(7u8))
    );
}

#[test]
fn send_is_refused_while_closing_and_when_closed() {
    let mut ws = client(all_handlers());
    ws.handle_event(0, WsEvent::Open, 0);
    assert!(ws.close(None, None).is_ok());
    assert_eq!(
        ws.send::<String>(2, WsMessage::Text("a".to_string())),
        Err(SendError::NotOpen(ReadyState::Closing))
    );
    ws.handle_event(0, WsEvent::Close, 0);
    assert_eq!(
        ws.send::<String>(3, WsMessage::Binary(vec![1])),
        Err(SendError::NotOpen(ReadyState::Closed))
    );
}

#[test]
fn without_reconnect_a_close_notification_is_final() {
    let mut ws = client(all_handlers().no_reconnect());
    ws.handle_event(0, WsEvent::Open, 0);
    assert_eq!(
        ws.handle_event(0, WsEvent::Close, 77),
        Reaction {
            retry_after: None,
            deliver: Some(WsEvent::Close)
        }
    );
    assert_eq!(ws.status(), ReadyState::Closed);
    assert_eq!(ws.retry(), RetryState::Idle);
    // Nothing brings it back.
    assert!(!ws.retry_fired());
    assert_eq!(ws.attempt_finished(true, 1), Attempt::Discard);
    assert_eq!(ws.attempt_finished(false, 1), Attempt::Discard);
    ws.handle_event(0, WsEvent::Open, 0);
    ws.handle_event(0, WsEvent::Error, 0);
    assert_eq!(ws.handle_event(0, WsEvent::Close, 5).retry_after, None);
    assert_eq!(ws.status(), ReadyState::Closed);
    assert_eq!(ws.generation(), 0);
    assert_eq!(ws.retry(), RetryState::Idle);
}

#[test]
fn notifications_reach_only_the_handlers_that_are_set() {
    let mut ws = client(WebSocket::connect(URL.to_string()).onmessage());
    let frame = WsEvent::Message(WsMessage::Text("tick".to_string()));
    assert_eq!(ws.handle_event(0, WsEvent::Open, 0), nothing());
    assert_eq!(ws.status(), ReadyState::Open);
    assert_eq!(
        ws.handle_event(0, frame.clone(), 0).deliver,
        Some(frame.clone())
    );
    assert_eq!(ws.handle_event(0, WsEvent::Error, 0), nothing());
    let closed = ws.handle_event(0, WsEvent::Close, 0);
    assert_eq!(closed.deliver, None);
    assert_eq!(closed.retry_after, Some(250));

    let mut silent = client(WebSocket::connect(URL.to_string()).onerror().onclose());
    assert_eq!(silent.handle_event(0, frame, 0), nothing());
    assert_eq!(
        silent.handle_event(0, WsEvent::Error, 0).deliver,
        Some(WsEvent::Error)
    );
    assert_eq!(silent.status(), ReadyState::Connecting);
}

#[test]
fn messages_are_passed_on_one_by_one_in_order() {
    let mut ws = client(all_handlers());
    ws.handle_event(0, WsEvent::Open, 0);
    let frames = [
        WsMessage::Text("one".to_string()),
        WsMessage::Binary(vec![2]),
        WsMessage::Text("three".to_string()),
    ];
    let got: Vec<Option<WsEvent>> = frames
        .iter()
        .map(|frame| ws.handle_event(0, WsEvent::Message(frame.clone()), 0).deliver)
        .collect();
    let want: Vec<Option<WsEvent>> = frames
        .iter()
        .map(|frame| Some(WsEvent::Message(frame.clone())))
        .collect();
    assert_eq!(got, want);
    assert_eq!(ws.status(), ReadyState::Open);
}

#[test]
fn an_error_never_schedules_a_retry() {
    let mut ws = client(all_handlers());
    ws.handle_event(0, WsEvent::Open, 0);
    assert_eq!(
        ws.handle_event(0, WsEvent::Error, 42),
        Reaction {
            retry_after: None,
            deliver: Some(WsEvent::Error)
        }
    );
    assert_eq!(ws.status(), ReadyState::Open);
    assert_eq!(ws.retry(), RetryState::Idle);
    assert_eq!(ws.reconnect(), Some(ReconnectConfig::new()));
}

#[test]
fn a_replaced_handle_is_never_heard_again() {
    let mut ws = client(all_handlers());
    ws.handle_event(0, WsEvent::Open, 0);
    ws.handle_event(0, WsEvent::Close, 0);
    assert!(ws.retry_fired());
    assert!(matches!(
        ws.attempt_finished(true, 0),
        Attempt::Bind { generation: 1, .. }
    ));
    let before = (ws.status(), ws.generation(), ws.retry(), ws.reconnect());
    for event in [
        WsEvent::Open,
        WsEvent::Message(WsMessage::Text("late".to_string())),
        WsEvent::Error,
        WsEvent::Close,
    ] {
        assert_eq!(ws.handle_event(0, event.clone(), 11), nothing());
        assert_eq!(ws.handle_event(2, event, 11), nothing());
    }
    let after = (ws.status(), ws.generation(), ws.retry(), ws.reconnect());
    assert_eq!(before, after);
    assert_eq!(after.0, ReadyState::Connecting);
}

#[test]
fn a_closed_handle_is_never_heard_again() {
    let mut ws = client(all_handlers());
    ws.handle_event(0, WsEvent::Open, 0);
    assert_eq!(ws.handle_event(0, WsEvent::Close, 0).retry_after, Some(250));
    let before = (ws.status(), ws.generation(), ws.retry(), ws.reconnect());
    for event in [
        WsEvent::Close,
        WsEvent::Open,
        WsEvent::Message(WsMessage::Binary(vec![1, 2, 3])),
        WsEvent::Error,
    ] {
        assert_eq!(ws.handle_event(0, event, 0), nothing());
    }
    let after = (ws.status(), ws.generation(), ws.retry(), ws.reconnect());
    assert_eq!(before, after);
    assert_eq!(after.0, ReadyState::Closed);
    assert_eq!(after.2, RetryState::Scheduled);
    // The open notification has not reset the backoff.
    assert_eq!(
        ws.reconnect().map(|cfg| cfg.current_interval()),
        Some(750)
    );
    // Nor is the handle heard while the host is connecting again.
    assert!(ws.retry_fired());
    assert_eq!(ws.handle_event(0, WsEvent::Close, 0), nothing());
    assert_eq!(ws.retry(), RetryState::Attempting);
}

#[test]
fn a_failed_attempt_is_retried_with_a_longer_interval() {
    let mut ws = client(all_handlers());
    assert_eq!(ws.handle_event(0, WsEvent::Close, 0).retry_after, Some(250));
    assert!(ws.retry_fired());
    assert_eq!(
        ws.attempt_finished(false, 0),
        Attempt::Retry { delay: 375 }
    );
    assert_eq!(ws.status(), ReadyState::Closed);
    assert_eq!(ws.retry(), RetryState::Scheduled);
    assert_eq!(ws.generation(), 0);
    assert!(ws.retry_fired());
    assert_eq!(
        ws.attempt_finished(false, u32::MAX),
        Attempt::Retry { delay: 1687 }
    );
    assert!(ws.retry_fired());
    assert_eq!(
        ws.attempt_finished(true, 0),
        Attempt::Bind {
            generation: 1,
            adapters: ws.adapters()
        }
    );
    assert_eq!(ws.status(), ReadyState::Connecting);
}

#[test]
fn a_timer_or_an_attempt_that_was_not_asked_for_counts_for_nothing() {
    let mut ws = client(all_handlers());
    assert!(!ws.retry_fired());
    assert_eq!(ws.attempt_finished(true, 0), Attempt::Discard);
    assert_eq!(ws.attempt_finished(false, 0), Attempt::Discard);
    assert_eq!(ws.status(), ReadyState::Connecting);
    assert_eq!(ws.generation(), 0);
    ws.handle_event(0, WsEvent::Close, 0);
    // The timer is running, but no attempt is under way yet.
    assert_eq!(ws.attempt_finished(true, 0), Attempt::Discard);
    assert_eq!(ws.retry(), RetryState::Scheduled);
    assert!(ws.retry_fired());
    // The timer fires once only.
    assert!(!ws.retry_fired());
    assert_eq!(ws.retry(), RetryState::Attempting);
}

#[test]
fn close_asks_the_transport_once() {
    let mut ws = client(all_handlers());
    ws.handle_event(0, WsEvent::Open, 0);
    assert_eq!(
        ws.close(Some(1000), Some("done".to_string())),
        Ok(Some(CloseRequest {
            code: 1000,
            reason: Some("done".to_string())
        }))
    );
    assert!(ws.is_closing());
    assert_eq!(ws.status(), ReadyState::Closing);
    // The second close is a no-op, whatever it is given.
    assert_eq!(ws.close(None, None), Ok(None));
    assert_eq!(ws.close(Some(7), Some("x".repeat(500))), Ok(None));
    assert!(ws.is_closing());
    assert_eq!(ws.status(), ReadyState::Closing);
    assert_eq!(ws.handle_event(0, WsEvent::Close, 0).retry_after, None);
    assert_eq!(ws.status(), ReadyState::Closed);
    assert_eq!(ws.close(Some(1000), None), Ok(None));
    assert_eq!(ws.status(), ReadyState::Closed);
}

#[test]
fn every_close_after_a_refused_one_is_a_no_op() {
    let mut ws = client(all_handlers());
    ws.handle_event(0, WsEvent::Open, 0);
    assert_eq!(
        ws.close(Some(2000), None),
        Err(CloseError::InvalidCode(2000))
    );
    assert!(ws.is_closing());
    assert_eq!(ws.status(), ReadyState::Open);
    let before = (ws.status(), ws.generation(), ws.retry(), ws.reconnect());
    // Neither a valid close nor an invalid one does or reports anything now.
    assert_eq!(ws.close(Some(1000), None), Ok(None));
    assert_eq!(ws.close(Some(2000), None), Ok(None));
    assert_eq!(ws.close(None, Some("r".repeat(124))), Ok(None));
    assert!(ws.is_closing());
    assert_eq!(
        (ws.status(), ws.generation(), ws.retry(), ws.reconnect()),
        before
    );
    // The refused close has given up reconnecting all the same.
    assert_eq!(ws.handle_event(0, WsEvent::Close, 0).retry_after, None);
    assert_eq!(ws.status(), ReadyState::Closed);
    assert!(!ws.retry_fired());
}

#[test]
fn the_first_close_is_passed_on_whatever_the_status() {
    // On a handle that is connecting.
    let mut ws = client(all_handlers());
    assert_eq!(
        ws.close(Some(3000), None),
        Ok(Some(CloseRequest {
            code: 3000,
            reason: None
        }))
    );
    assert_eq!(ws.status(), ReadyState::Closing);
    // On a handle that is closed, with a retry pending.
    let mut ws = client(all_handlers());
    ws.handle_event(0, WsEvent::Open, 0);
    ws.handle_event(0, WsEvent::Close, 0);
    assert_eq!(ws.retry(), RetryState::Scheduled);
    assert_eq!(
        ws.close(Some(1000), Some("bye".to_string())),
        Ok(Some(CloseRequest {
            code: 1000,
            reason: Some("bye".to_string())
        }))
    );
    assert_eq!(ws.status(), ReadyState::Closed);
    assert!(ws.is_closing());
    assert_eq!(ws.close(Some(1000), None), Ok(None));
}

#[test]
fn the_first_close_is_refused_for_its_arguments_whatever_the_status() {
    let mut ws = client(all_handlers());
    ws.handle_event(0, WsEvent::Open, 0);
    ws.handle_event(0, WsEvent::Close, 0);
    assert_eq!(ws.status(), ReadyState::Closed);
    assert_eq!(
        ws.close(Some(2000), None),
        Err(CloseError::InvalidCode(2000))
    );
    assert!(ws.is_closing());
    assert!(!ws.retry_fired());
    let mut ws = client(all_handlers());
    ws.handle_event(0, WsEvent::Close, 0);
    assert_eq!(
        ws.close(None, Some("r".repeat(124))),
        Err(CloseError::ReasonTooLong(124))
    );
    assert!(ws.is_closing());
    assert_eq!(ws.status(), ReadyState::Closed);
}

#[test]
fn close_without_a_code_uses_the_no_status_code() {
    let mut ws = client(all_handlers());
    assert_eq!(
        ws.close(None, None),
        Ok(Some(CloseRequest {
            code: 1005,
            reason: None
        }))
    );
    assert_eq!(ws.status(), ReadyState::Closing);
}

#[test]
fn close_refuses_an_invalid_code() {
    for code in [0u16, 999, 1001, 1004, 1006, 2999, 5000, u16::MAX] {
        let mut ws = client(all_handlers());
        ws.handle_event(0, WsEvent::Open, 0);
        assert_eq!(
            ws.close(Some(code), None),
            Err(CloseError::InvalidCode(code))
        );
        // The status is as it was, and the client reconnects no more.
        assert_eq!(ws.status(), ReadyState::Open);
        assert!(ws.is_closing());
        assert_eq!(ws.handle_event(0, WsEvent::Close, 0).retry_after, None);
    }
    for code in [1000u16, 1005, 3000, 4000, 4999] {
        let mut ws = client(all_handlers());
        assert_eq!(
            ws.close(Some(code), None),
            Ok(Some(CloseRequest { code, reason: None }))
        );
    }
}

#[test]
fn close_refuses_a_reason_of_more_than_123_bytes() {
    let mut ws = client(all_handlers());
    assert_eq!(
        ws.close(Some(1000), Some("r".repeat(124))),
        Err(CloseError::ReasonTooLong(124))
    );
    assert_eq!(ws.status(), ReadyState::Connecting);
    // Forty-one letters of three bytes each are 123 bytes.
    let long = "\u{20AC}".repeat(41);
    let mut ws = client(all_handlers());
    assert_eq!(
        ws.close(Some(1000), Some(long.clone())),
        Ok(Some(CloseRequest {
            code: 1000,
            reason: Some(long)
        }))
    );
    let mut ws = client(all_handlers());
    // Forty-two of them are 126 bytes, though only 42 characters.
    assert_eq!(
        ws.close(None, Some("\u{20AC}".repeat(42))),
        Err(CloseError::ReasonTooLong(126))
    );
    // The code is looked at before the reason.
    let mut ws = client(all_handlers());
    assert_eq!(
        ws.close(Some(1), Some("r".repeat(200))),
        Err(CloseError::InvalidCode(1))
    );
    let mut ws = client(all_handlers());
    assert_eq!(
        ws.close(Some(3000), Some("r".repeat(123))),
        Ok(Some(CloseRequest {
            code: 3000,
            reason: Some("r".repeat(123))
        }))
    );
}

#[test]
fn close_during_a_pending_retry_makes_the_timer_a_no_op() {
    let mut ws = client(all_handlers());
    ws.handle_event(0, WsEvent::Open, 0);
    assert!(ws.handle_event(0, WsEvent::Close, 0).retry_after.is_some());
    assert_eq!(ws.retry(), RetryState::Scheduled);
    assert_eq!(
        ws.close(None, None),
        Ok(Some(CloseRequest {
            code: 1005,
            reason: None
        }))
    );
    assert!(ws.is_closing());
    assert!(!ws.retry_fired());
    assert_eq!(ws.retry(), RetryState::Idle);
    assert_eq!(ws.attempt_finished(true, 0), Attempt::Discard);
    assert!(!ws.retry_fired());
    assert_eq!(ws.status(), ReadyState::Closed);
    assert_eq!(ws.generation(), 0);
}

#[test]
fn close_during_an_attempt_discards_its_outcome() {
    for opened in [true, false] {
        let mut ws = client(all_handlers());
        ws.handle_event(0, WsEvent::Close, 0);
        assert!(ws.retry_fired());
        assert!(ws.close(None, None).is_ok());
        assert_eq!(ws.attempt_finished(opened, 0), Attempt::Discard);
        assert_eq!(ws.retry(), RetryState::Idle);
        assert_eq!(ws.generation(), 0);
        assert_eq!(ws.status(), ReadyState::Closed);
        assert!(!ws.retry_fired());
    }
}

#[test]
fn after_close_no_sequence_of_inputs_opens_a_handle() {
    let mut ws = client(all_handlers());
    ws.handle_event(0, WsEvent::Open, 0);
    assert!(ws.close(Some(4000), None).is_ok());
    let mut sample = 1u32;
    for round in 0..200u32 {
        sample = sample.wrapping_mul(1_664_525).wrapping_add(1_013_904_223);
        match (sample >> 8) % 7 {
            0 => assert_eq!(ws.handle_event(0, WsEvent::Open, sample).retry_after, None),
            1 => assert_eq!(ws.handle_event(0, WsEvent::Close, sample).retry_after, None),
            2 => assert_eq!(ws.handle_event(0, WsEvent::Error, sample).retry_after, None),
            3 => assert!(!ws.retry_fired()),
            4 => assert_eq!(ws.attempt_finished(round % 2 == 0, sample), Attempt::Discard),
            5 => assert_eq!(ws.close(Some(1000), None), Ok(None)),
            _ => assert_eq!(ws.handle_event(1, WsEvent::Close, sample), nothing()),
        }
        assert_eq!(ws.generation(), 0);
        assert!(ws.is_closing());
        assert!(matches!(
            ws.status(),
            ReadyState::Closing | ReadyState::Closed
        ));
    }
    ws.handle_event(0, WsEvent::Close, 0);
    assert_eq!(ws.status(), ReadyState::Closed);
}

#[test]
fn an_open_notification_does_not_reopen_a_closing_connection() {
    let mut ws = client(all_handlers());
    assert!(ws.close(None, None).is_ok());
    assert_eq!(ws.status(), ReadyState::Closing);
    assert_eq!(
        ws.handle_event(0, WsEvent::Open, 0).deliver,
        Some(WsEvent::Open)
    );
    assert_eq!(ws.status(), ReadyState::Closing);
}

#[test]
fn the_engine_answers_each_notification_like_the_client() {
    let mut core = WebSocketCore::new(all_handlers());
    assert!(core.on_open(0));
    assert!(!core.on_open(1));
    assert!(core.on_message(0));
    assert!(!core.on_message(3));
    assert!(core.on_error(0));
    assert!(!core.on_error(3));
    assert_eq!(
        core.on_close(1, 0),
        CloseReaction {
            retry_after: None,
            deliver: false
        }
    );
    assert_eq!(core.status(), ReadyState::Open);
    assert_eq!(
        core.on_close(0, u32::MAX),
        CloseReaction {
            retry_after: Some(750),
            deliver: true
        }
    );
    assert!(core.on_retry());
    assert_eq!(core.on_attempt(false, 0), Attempt::Retry { delay: 375 });
    assert_eq!(
        core.close(1005, None),
        Ok(Some(CloseRequest {
            code: 1005,
            reason: None
        }))
    );
    assert_eq!(core.close(1, None), Ok(None));
    assert!(core.is_closing());
    assert!(!core.on_retry());
    assert_eq!(core.retry(), RetryState::Idle);
    assert_eq!(core.url(), URL);
    assert_eq!(core.protocols(), &None);
    assert_eq!(core.generation(), 0);
    assert_eq!(core.ready_state(3), ReadyState::Closed);
    assert_eq!(
        core.send::<String>(3, WsMessage::Text("a".to_string())),
        Err(SendError::NotOpen(ReadyState::Closed))
    );
    assert_eq!(
        core.send::<String>(1, WsMessage::Text("a".to_string())),
        Ok(WsMessage::Text("a".to_string()))
    );
}

#[test]
fn timer_millis_stops_at_the_longest_time() {
    assert_eq!(timer_millis(0), 0);
    assert_eq!(timer_millis(250), 250);
    assert_eq!(timer_millis(i32::MAX as u64), i32::MAX);
    assert_eq!(timer_millis(i32::MAX as u64 + 1), i32::MAX);
    assert_eq!(timer_millis(u64::MAX), i32::MAX);
}
