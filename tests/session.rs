use echo_client::{Action, Frame, Input, Message, Notice, Session, Step};

fn url() -> String {
    "ws://host/echo".to_string()
}

fn received_text(n: &Option<Notice>) -> Option<String> {
    match n {
        Some(Notice::Received(Message::User(t))) => Some(t.clone()),
        _ => None,
    }
}

fn drive(start: Session, inputs: Vec<Input>) -> (Session, Vec<Notice>) {
    let mut s = start;
    let mut notices = Vec::new();
    for i in inputs {
        let step = s.step(i);
        if let Some(n) = step.notice {
            notices.push(n);
        }
        s = step.next;
    }
    (s, notices)
}

#[test]
fn new_session_opens_the_empty_address() {
    let s = Session::new();
    assert!(matches!(&s, Session::Idle(u) if u.is_empty()));
    assert!(matches!(s.action(), Action::Open(u) if u.is_empty()));
}

#[test]
fn unreachable_host_gives_one_reconnect_ready() {
    let s = Session::Awaiting.step(Input::Command(Message::Reconnect(url()))).next;
    assert!(matches!(&s, Session::Idle(u) if *u == url()));
    assert!(matches!(s.action(), Action::Open(u) if u == url()));
    let step = s.step(Input::OpenFailed);
    assert!(matches!(step.notice, Some(Notice::ReconnectReady)));
    assert!(step.fresh_channel);
    assert!(matches!(step.next, Session::Awaiting));
    assert!(matches!(step.next.action(), Action::AwaitCommand));
}

#[test]
fn echo_round_trip_then_stop() {
    let (s, notices) = drive(Session::Idle(url()), vec![Input::Opened]);
    assert_eq!(notices.len(), 1);
    assert!(matches!(notices[0], Notice::Connected));
    assert!(matches!(s.action(), Action::Listen));

    let Step { next, notice, fresh_channel } =
        s.step(Input::Command(Message::User("ping".to_string())));
    assert!(notice.is_none());
    assert!(!fresh_channel);
    assert!(matches!(next.action(), Action::Write(t) if t == "ping"));

    let (s, notices) = drive(
        next,
        vec![Input::Sent, Input::Frame(Frame::Text("ping".to_string()))],
    );
    assert_eq!(notices.len(), 1);
    assert!(matches!(&notices[0], Notice::Received(Message::User(t)) if t == "ping"));

    let closing = s.step(Input::Command(Message::Stop(url())));
    assert!(closing.notice.is_none());
    assert!(matches!(closing.next.action(), Action::Close));
    let closed = closing.next.step(Input::Closed);
    assert!(matches!(closed.notice, Some(Notice::ReconnectReady)));
    assert!(closed.fresh_channel);
    assert!(matches!(closed.next, Session::Awaiting));
}

#[test]
fn text_frames_come_out_in_order() {
    let payloads = ["a", "", "third frame", "a"];
    let mut s = Session::Active(url());
    for p in payloads {
        let step = s.step(Input::Frame(Frame::Text(p.to_string())));
        assert_eq!(received_text(&step.notice), Some(p.to_string()));
        assert!(!step.fresh_channel);
        s = step.next;
    }
    assert!(matches!(&s, Session::Active(u) if *u == url()));
}

#[test]
fn other_frames_are_dropped() {
    let step = Session::Active(url()).step(Input::Frame(Frame::Other));
    assert!(step.notice.is_none());
    assert!(matches!(step.next, Session::Active(_)));
}

#[test]
fn written_text_reports_nothing() {
    let (s, notices) = drive(
        Session::Active(url()),
        vec![Input::Command(Message::User("x".to_string())), Input::Sent],
    );
    assert!(notices.is_empty());
    assert!(matches!(s, Session::Active(_)));
}

#[test]
fn failed_write_reports_one_disconnect_and_retries() {
    let (s, notices) = drive(
        Session::Active(url()),
        vec![
            Input::Command(Message::User("x".to_string())),
            Input::Command(Message::Stop(url())),
            Input::SendFailed,
        ],
    );
    assert_eq!(notices.len(), 1);
    assert!(matches!(notices[0], Notice::Disconnected));
    assert!(matches!(&s, Session::Idle(u) if *u == url()));
}

#[test]
fn socket_failure_retries_same_address() {
    let step = Session::Active(url()).step(Input::SocketFailed);
    assert!(matches!(step.notice, Some(Notice::Disconnected)));
    assert!(!step.fresh_channel);
    assert!(matches!(&step.next, Session::Idle(u) if *u == url()));
}

#[test]
fn failed_close_counts_as_lost_connection() {
    let step = Session::Closing(url()).step(Input::CloseFailed);
    assert!(matches!(step.notice, Some(Notice::Disconnected)));
    assert!(matches!(&step.next, Session::Idle(u) if *u == url()));
}

#[test]
fn other_command_while_active_reopens() {
    let step = Session::Active(url()).step(Input::Command(Message::Disconnected));
    assert!(step.notice.is_none());
    assert!(matches!(&step.next, Session::Idle(u) if *u == url()));
}

#[test]
fn stop_while_awaiting_changes_nothing() {
    let step = Session::Awaiting.step(Input::Command(Message::Stop(url())));
    assert!(step.notice.is_none());
    assert!(!step.fresh_channel);
    assert!(matches!(step.next, Session::Awaiting));
    let step = Session::Awaiting.step(Input::Command(Message::User("hi".to_string())));
    assert!(step.notice.is_none());
    assert!(matches!(step.next, Session::Awaiting));
}

#[test]
fn new_channel_exactly_with_connect_or_ready() {
    let cases = vec![
        (Session::Idle(url()), Input::Opened, true),
        (Session::Idle(url()), Input::OpenFailed, true),
        (Session::Closing(url()), Input::Closed, true),
        (Session::Active(url()), Input::SocketFailed, false),
        (Session::Sending(url(), "t".to_string()), Input::SendFailed, false),
        (Session::Awaiting, Input::Command(Message::Reconnect(url())), false),
    ];
    for (s, i, fresh) in cases {
        let step = s.step(i);
        let connect_or_ready =
            matches!(step.notice, Some(Notice::Connected) | Some(Notice::ReconnectReady));
        assert_eq!(step.fresh_channel, fresh);
        assert_eq!(connect_or_ready, fresh);
    }
}

#[test]
fn unexpected_inputs_change_nothing() {
    let step = Session::Idle(url()).step(Input::Sent);
    assert!(step.notice.is_none());
    assert!(matches!(&step.next, Session::Idle(u) if *u == url()));
    let step = Session::Sending(url(), "t".to_string()).step(Input::Opened);
    assert!(matches!(&step.next, Session::Sending(u, t) if *u == url() && t == "t"));
}
