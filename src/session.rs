use vstd::prelude::*;

use crate::connection::{Connection, Event};
use crate::message::Message;

verus! {

/// A frame read from the live socket.
#[derive(Debug, Clone)]
pub enum Frame {
    Text(String),
    /// Any frame that is not text (binary, ping, pong, close).
    Other,
}

/// What the driver of a session observed while performing the last action.
#[derive(Debug, Clone)]
pub enum Input {
    /// The socket was opened.
    Opened,
    /// Opening the socket failed.
    OpenFailed,
    /// The live socket delivered a frame.
    Frame(Frame),
    /// Reading from the live socket failed, or the socket ended.
    SocketFailed,
    /// A command came through the command channel.
    Command(Message),
    /// The text frame was written.
    Sent,
    /// Writing the text frame failed.
    SendFailed,
    /// The socket was closed on request.
    Closed,
    /// Closing the socket failed.
    CloseFailed,
}

/// The state of a session. The driver holds the socket and the command
/// channel; the state says which of them are live.
#[derive(Debug, Clone)]
pub enum Session {
    /// No socket; the next action opens one to the address.
    Idle(String),
    /// No socket; commands are read until one names an address.
    Awaiting,
    /// A socket to the address is open; its frames race the commands.
    Active(String),
    /// A text frame (the second field) is being written to the socket.
    Sending(String, String),
    /// The socket is being closed on request.
    Closing(String),
}

/// What the driver is to do next.
#[derive(Debug, Clone)]
pub enum Action {
    /// Open a socket to the address; report `Opened` or `OpenFailed`.
    Open(String),
    /// Wait for a command; report `Command`.
    AwaitCommand,
    /// Wait for a frame or a command, whichever comes first; report `Frame`,
    /// `SocketFailed` or `Command`.
    Listen,
    /// Write the text as a text frame; report `Sent` or `SendFailed`.
    Write(String),
    /// Close the socket; report `Closed` or `CloseFailed`.
    Close,
}

/// What a session reports to its caller, short of the handle that the
/// driver attaches.
#[derive(Debug, Clone)]
pub enum Notice {
    Connected,
    Disconnected,
    ReconnectReady,
    Received(Message),
}

/// The outcome of one transition.
#[derive(Debug, Clone)]
pub struct Step {
    pub next: Session,
    pub notice: Option<Notice>,
    /// Whether the driver replaces the command channel with a new one before
    /// it reports the notice; handles to the old one then refuse commands.
    pub fresh_channel: bool,
}

impl Step {
    /// The step as the triple that `Session::transition` describes.
    pub open spec fn parts(self) -> (Session, Option<Notice>, bool) {
        (self.next, self.notice, self.fresh_channel)
    }
}

impl Session {
    /// The state a session starts in: about to open the empty address.
    pub open spec fn is_initial(self) -> bool {
        self matches Session::Idle(url) && url@.len() == 0
    }

    /// The next state, the notice emitted and whether the command channel is
    /// replaced, when `input` is observed in this state. An input that the
    /// state does not wait for changes nothing.
    pub open spec fn transition(self, input: Input) -> (Session, Option<Notice>, bool) {
        match (self, input) {
            (Session::Idle(url), Input::Opened) => (
                Session::Active(url),
                Some(Notice::Connected),
                true,
            ),
            (Session::Idle(_), Input::OpenFailed) => (
                Session::Awaiting,
                Some(Notice::ReconnectReady),
                true,
            ),
            (Session::Awaiting, Input::Command(Message::Reconnect(url))) => (
                Session::Idle(url),
                None,
                false,
            ),
            (Session::Active(url), Input::Frame(Frame::Text(text))) => (
                Session::Active(url),
                Some(Notice::Received(Message::User(text))),
                false,
            ),
            (Session::Active(url), Input::Frame(Frame::Other)) => (Session::Active(url), None, false),
            (Session::Active(url), Input::SocketFailed) => (
                Session::Idle(url),
                Some(Notice::Disconnected),
                false,
            ),
            (Session::Active(url), Input::Command(Message::Stop(_))) => (
                Session::Closing(url),
                None,
                false,
            ),
            (Session::Active(url), Input::Command(Message::User(text))) => (
                Session::Sending(url, text),
                None,
                false,
            ),
            (Session::Active(url), Input::Command(_)) => (Session::Idle(url), None, false),
            (Session::Sending(url, _), Input::Sent) => (Session::Active(url), None, false),
            (Session::Sending(url, _), Input::SendFailed) => (
                Session::Idle(url),
                Some(Notice::Disconnected),
                false,
            ),
            (Session::Closing(_), Input::Closed) => (
                Session::Awaiting,
                Some(Notice::ReconnectReady),
                true,
            ),
            (Session::Closing(url), Input::CloseFailed) => (
                Session::Idle(url),
                Some(Notice::Disconnected),
                false,
            ),
            (s, _) => (s, None, false),
        }
    }

    /// What the driver does in this state.
    pub open spec fn action_of(self) -> Action {
        match self {
            Session::Idle(url) => Action::Open(url),
            Session::Awaiting => Action::AwaitCommand,
            Session::Active(_) => Action::Listen,
            Session::Sending(_, text) => Action::Write(text),
            Session::Closing(_) => Action::Close,
        }
    }

    /// A new session, about to try the empty address.
    pub fn new() -> (r: Session)
        ensures
            r.is_initial(),
    {
        Session::Idle(String::new())
    }

    /// What the driver does in this state.
    pub fn action(&self) -> (r: Action)
        ensures
            r == self.action_of(),
    {
        match self {
            Session::Idle(url) => Action::Open(url.clone()),
            Session::Awaiting => Action::AwaitCommand,
            Session::Active(_) => Action::Listen,
            Session::Sending(_, text) => Action::Write(text.clone()),
            Session::Closing(_) => Action::Close,
        }
    }

    /// Takes the session through one observed input.
    pub fn step(self, input: Input) -> (r: Step)
        ensures
            r.parts() == self.transition(input),
    {
        let unchanged = |s: Session| -> (r: Step)
            ensures
                r.parts() == (s, None::<Notice>, false),
            { Step { next: s, notice: None, fresh_channel: false } };
        match self {
            Session::Idle(url) => match input {
                Input::Opened => Step {
                    next: Session::Active(url),
                    notice: Some(Notice::Connected),
                    fresh_channel: true,
                },
                Input::OpenFailed => Step {
                    next: Session::Awaiting,
                    notice: Some(Notice::ReconnectReady),
                    fresh_channel: true,
                },
                _ => unchanged(Session::Idle(url)),
            },
            Session::Awaiting => match input {
                Input::Command(Message::Reconnect(url)) => Step {
                    next: Session::Idle(url),
                    notice: None,
                    fresh_channel: false,
                },
                _ => unchanged(Session::Awaiting),
            },
            Session::Active(url) => match input {
                Input::Frame(Frame::Text(text)) => Step {
                    next: Session::Active(url),
                    notice: Some(Notice::Received(Message::User(text))),
                    fresh_channel: false,
                },
                Input::Frame(Frame::Other) => unchanged(Session::Active(url)),
                Input::SocketFailed => Step {
                    next: Session::Idle(url),
                    notice: Some(Notice::Disconnected),
                    fresh_channel: false,
                },
                Input::Command(Message::Stop(_)) => unchanged(Session::Closing(url)),
                Input::Command(Message::User(text)) => unchanged(Session::Sending(url, text)),
                Input::Command(_) => unchanged(Session::Idle(url)),
                _ => unchanged(Session::Active(url)),
            },
            Session::Sending(url, text) => match input {
                Input::Sent => unchanged(Session::Active(url)),
                Input::SendFailed => Step {
                    next: Session::Idle(url),
                    notice: Some(Notice::Disconnected),
                    fresh_channel: false,
                },
                _ => unchanged(Session::Sending(url, text)),
            },
            Session::Closing(url) => match input {
                Input::Closed => Step {
                    next: Session::Awaiting,
                    notice: Some(Notice::ReconnectReady),
                    fresh_channel: true,
                },
                Input::CloseFailed => Step {
                    next: Session::Idle(url),
                    notice: Some(Notice::Disconnected),
                    fresh_channel: false,
                },
                _ => unchanged(Session::Closing(url)),
            },
        }
    }
}

impl Notice {
    /// The event reported for this notice, where `handle` is the current
    /// command channel's sending half.
    pub fn into_event(self, handle: Connection) -> (r: Event)
        ensures
            r == (match self {
                Notice::Connected => Event::Connected(handle),
                Notice::Disconnected => Event::Disconnected,
                Notice::ReconnectReady => Event::Reconnect(handle),
                Notice::Received(m) => Event::MessageReceived(m),
            }),
    {
        match self {
            Notice::Connected => Event::Connected(handle),
            Notice::Disconnected => Event::Disconnected,
            Notice::ReconnectReady => Event::Reconnect(handle),
            Notice::Received(m) => Event::MessageReceived(m),
        }
    }
}

/// The state reached, and the notices emitted in order, when `inputs` are
/// observed one after another from `s`.
pub open spec fn run(s: Session, inputs: Seq<Input>) -> (Session, Seq<Notice>)
    decreases inputs.len(),
{
    if inputs.len() == 0 {
        (s, Seq::empty())
    } else {
        let (next, notice, _) = s.transition(inputs[0]);
        let (last, rest) = run(next, inputs.drop_first());
        match notice {
            Some(n) => (last, seq![n] + rest),
            None => (last, rest),
        }
    }
}

/// While a session is active, text frames are reported as user messages
/// whose text is exactly each frame's payload, one per frame and in the order
/// of receipt, and the session stays active.
pub proof fn lemma_text_frames_reported_in_order(url: String, payloads: Seq<String>)
    ensures
        run(Session::Active(url), payloads.map_values(|t: String| Input::Frame(Frame::Text(t))))
            == (Session::Active(url), payloads.map_values(
            |t: String| Notice::Received(Message::User(t)),
        )),
    decreases payloads.len(),
{
    let inputs = payloads.map_values(|t: String| Input::Frame(Frame::Text(t)));
    let notices = payloads.map_values(|t: String| Notice::Received(Message::User(t)));
    if payloads.len() == 0 {
        assert(notices =~= Seq::empty());
    } else {
        let tail = payloads.drop_first();
        lemma_text_frames_reported_in_order(url, tail);
        assert(inputs.drop_first() =~= tail.map_values(|t: String| Input::Frame(Frame::Text(t))));
        assert(notices =~= seq![Notice::Received(Message::User(payloads[0]))] + tail.map_values(
            |t: String| Notice::Received(Message::User(t)),
        ));
    }
}

/// Text submitted while active is written with no notice. When the write
/// succeeds the session is active again and nothing is reported; when it
/// fails exactly one `Disconnected` notice follows and the same address is
/// tried again. No command is taken while the write is pending.
pub proof fn lemma_user_text_while_active(url: String, text: String, other: Message)
    ensures
        Session::Active(url).transition(Input::Command(Message::User(text))) == (
            Session::Sending(url, text),
            None::<Notice>,
            false,
        ),
        run(Session::Active(url), seq![Input::Command(Message::User(text)), Input::Sent]) == (
            Session::Active(url),
            Seq::<Notice>::empty(),
        ),
        run(Session::Active(url), seq![Input::Command(Message::User(text)), Input::SendFailed])
            == (Session::Idle(url), seq![Notice::Disconnected]),
        Session::Sending(url, text).transition(Input::Command(other)) == (
            Session::Sending(url, text),
            None::<Notice>,
            false,
        ),
{
    reveal_with_fuel(run, 3);
    let sent = seq![Input::Command(Message::User(text)), Input::Sent];
    let failed = seq![Input::Command(Message::User(text)), Input::SendFailed];
    assert(sent.drop_first().drop_first() =~= Seq::empty());
    assert(failed.drop_first().drop_first() =~= Seq::empty());
    assert(seq![Notice::Disconnected] + Seq::<Notice>::empty() =~= seq![Notice::Disconnected]);
}

/// Exactly the transitions that report `Connected` or `ReconnectReady`
/// replace the command channel, so a handle issued before such a notice no
/// longer reaches a live session: commands sent on it are refused.
pub proof fn lemma_new_handle_with_connect_or_ready(s: Session, input: Input)
    ensures
        s.transition(input).2 <==> (s.transition(input).1 matches Some(Notice::Connected)
            || s.transition(input).1 matches Some(Notice::ReconnectReady)),
{
}

/// Asking to stop while awaiting an address, with no socket open, changes
/// nothing and reports nothing.
pub proof fn lemma_stop_while_awaiting_is_noop(url: String)
    ensures
        Session::Awaiting.transition(Input::Command(Message::Stop(url))) == (
            Session::Awaiting,
            None::<Notice>,
            false,
        ),
{
}

} // verus!
