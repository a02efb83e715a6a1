use tui_bridge::ack_of;
use tui_bridge::bridge::BridgeError;
use tui_bridge::client::{AppClient, AuthDecision, SessionError};
use tui_bridge::events::AppEvent;
use tui_bridge::Ack;

#[test]
fn auth_is_accept_all() {
    let mut client = AppClient::new();
    assert_eq!(client.auth_none("user"), AuthDecision::Accept);
    assert_eq!(client.auth_password("user", "pw"), AuthDecision::Accept);
    assert_eq!(client.auth_publickey("user"), AuthDecision::Accept);
}

#[test]
fn only_first_channel_open_succeeds() {
    let mut client = AppClient::new();
    let first = client.channel_open_session(1);
    assert!(matches!(first, Ok(true)));
    let second = client.channel_open_session(2);
    assert!(matches!(second, Err(SessionError::DuplicateChannel)));
    let third = client.channel_open_session(3);
    assert!(matches!(third, Err(SessionError::DuplicateChannel)));
    // The first channel is still the one in place: a PTY request works on
    // it, which it could not if the slot had been emptied or replaced.
    let pty = client.pty_request(80, 24);
    assert!(pty.is_ok());
}

#[test]
fn stdin_before_channel_open_fails() {
    let mut client = AppClient::new();
    let r = client.data(b"x");
    assert!(matches!(r, Err(SessionError::NoChannel)));
    assert_eq!(ack_of(&r), Ack::Failure);
}

#[test]
fn stdin_before_pty_rejected_with_failure_ack() {
    let mut client = AppClient::new();
    client.channel_open_session(1).unwrap();
    let r = client.data(b"x");
    assert!(matches!(r, Err(SessionError::Channel(BridgeError::PtyNotCreated))));
    assert_eq!(ack_of(&r), Ack::Failure);
    // The refused bytes were not buffered: once the PTY exists, the queue
    // holds only the initial resize and render, no input.
    let mut rx = client.pty_request(80, 24).unwrap();
    assert!(matches!(rx.try_recv(), Ok(AppEvent::Resize(80, 24))));
    assert!(matches!(rx.try_recv(), Ok(AppEvent::Render)));
    assert!(rx.try_recv().is_err());
}

#[test]
fn pty_enqueues_resize_then_render() {
    let mut client = AppClient::new();
    client.channel_open_session(1).unwrap();
    let mut rx = client.pty_request(120, 40).unwrap();
    assert!(matches!(rx.try_recv(), Ok(AppEvent::Resize(120, 40))));
    assert!(matches!(rx.try_recv(), Ok(AppEvent::Render)));
    assert!(rx.try_recv().is_err());
}

#[test]
fn second_pty_rejected() {
    let mut client = AppClient::new();
    client.channel_open_session(1).unwrap();
    let _rx = client.pty_request(80, 24).unwrap();
    let again = client.pty_request(80, 24);
    assert!(matches!(
        again,
        Err(SessionError::Channel(BridgeError::PtyAlreadyCreated))
    ));
}

#[test]
fn pty_with_zero_dimension_rejected() {
    let mut client = AppClient::new();
    client.channel_open_session(1).unwrap();
    let r = client.pty_request(0, 24);
    assert!(matches!(
        r,
        Err(SessionError::Channel(BridgeError::ZeroDimensions))
    ));
    // The PTY is still not created, so a later well-formed request succeeds.
    assert!(client.pty_request(80, 24).is_ok());
}

#[test]
fn resize_before_pty_rejected() {
    let mut client = AppClient::new();
    client.channel_open_session(1).unwrap();
    let r = client.window_change_request(40, 10);
    assert!(matches!(
        r,
        Err(SessionError::Channel(BridgeError::PtyNotCreated))
    ));
    assert_eq!(ack_of(&r), Ack::Failure);
}

#[test]
fn resize_enqueues_event() {
    let mut client = AppClient::new();
    client.channel_open_session(1).unwrap();
    let mut rx = client.pty_request(80, 24).unwrap();
    assert!(matches!(rx.try_recv(), Ok(AppEvent::Resize(80, 24))));
    assert!(matches!(rx.try_recv(), Ok(AppEvent::Render)));
    let r = client.window_change_request(40, 10);
    assert!(r.is_ok());
    assert_eq!(ack_of(&r), Ack::Success);
    assert!(matches!(rx.try_recv(), Ok(AppEvent::Resize(40, 10))));
    assert!(rx.try_recv().is_err());
}

#[test]
fn resize_with_zero_dimension_rejected() {
    let mut client = AppClient::new();
    client.channel_open_session(1).unwrap();
    let mut rx = client.pty_request(80, 24).unwrap();
    let r = client.window_change_request(40, 0);
    assert!(matches!(
        r,
        Err(SessionError::Channel(BridgeError::ZeroDimensions))
    ));
    // Nothing beyond the initial two events was enqueued.
    assert!(matches!(rx.try_recv(), Ok(AppEvent::Resize(80, 24))));
    assert!(matches!(rx.try_recv(), Ok(AppEvent::Render)));
    assert!(rx.try_recv().is_err());
}

#[test]
fn stdin_after_pty_forwards_input() {
    let mut client = AppClient::new();
    client.channel_open_session(1).unwrap();
    let mut rx = client.pty_request(80, 24).unwrap();
    let r = client.data(b"hi");
    assert!(r.is_ok());
    assert_eq!(ack_of(&r), Ack::Success);
    assert!(matches!(rx.try_recv(), Ok(AppEvent::Resize(80, 24))));
    assert!(matches!(rx.try_recv(), Ok(AppEvent::Render)));
    assert!(matches!(rx.try_recv(), Ok(AppEvent::Input(d)) if d == b"hi".to_vec()));
}

#[test]
fn dropped_producer_signals_end_of_stream() {
    let mut client = AppClient::new();
    client.channel_open_session(1).unwrap();
    let mut rx = client.pty_request(80, 24).unwrap();
    drop(client);
    // Pending events are still delivered in order, then the consumer
    // observes end-of-stream rather than blocking or receiving more.
    assert!(matches!(rx.try_recv(), Ok(AppEvent::Resize(80, 24))));
    assert!(matches!(rx.try_recv(), Ok(AppEvent::Render)));
    assert!(matches!(
        rx.try_recv(),
        Err(tokio::sync::mpsc::error::TryRecvError::Disconnected)
    ));
}

#[test]
fn ack_of_maps_outcomes() {
    let ok: Result<u32, SessionError> = Ok(5);
    let err: Result<u32, SessionError> = Err(SessionError::NoChannel);
    assert_eq!(ack_of(&ok), Ack::Success);
    assert_eq!(ack_of(&err), Ack::Failure);
}
