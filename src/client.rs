use vstd::prelude::*;

use crate::connection::{Connection, Event};
use crate::message::Message;

verus! {

/// What the chat window knows of the connection.
#[derive(Debug, Clone)]
pub enum Link {
    Disconnected,
    Connected(Connection),
    Reconnect(Connection),
}

/// What the user or the connection did.
#[derive(Debug, Clone)]
pub enum UiMessage {
    /// The address field was edited.
    Url(String),
    /// The connect button was pressed.
    Connect,
    /// The request to connect, ready to be handed to the connection.
    Reconnect(Message),
    /// The stop button was pressed.
    Stop,
    /// The message field was edited.
    NewMessageChanged(String),
    /// The message was submitted.
    Send(Message),
    /// The connection reported an event.
    Echo(Event),
}

/// What the window does after an update.
#[derive(Debug, Clone)]
pub enum Follow {
    Nothing,
    /// Come back with `UiMessage::Reconnect` holding the request to connect
    /// to the address.
    RequestConnect(String),
    /// Scroll the log to its end.
    ScrollToEnd,
    /// The connection's handle refused the message.
    Refused(Message),
}

/// The chat window's state: the address and message fields, the log and the
/// link to the connection.
#[derive(Debug)]
pub struct Client {
    pub url: String,
    pub messages: Vec<Message>,
    pub new_message: String,
    pub state: Link,
}

/// Whether `log` is `before` with one user line appended, whose text is
/// `prefix` followed by `text`.
pub open spec fn pushed_user_line(
    before: Seq<Message>,
    log: Seq<Message>,
    prefix: Seq<char>,
    text: Seq<char>,
) -> bool {
    &&& log.len() == before.len() + 1
    &&& log.take(before.len() as int) == before
    &&& log.last() matches Message::User(t) && t@ == prefix + text
}

impl Client {
    /// An empty window, not connected.
    pub fn new() -> (r: Client)
        ensures
            r.url@.len() == 0,
            r.messages@.len() == 0,
            r.new_message@.len() == 0,
            r.state is Disconnected,
    {
        Client {
            url: String::new(),
            messages: Vec::new(),
            new_message: String::new(),
            state: Link::Disconnected,
        }
    }

    /// Whether the connect button and the address field's submission are
    /// offered: no socket is open and an address is typed.
    pub fn can_connect(&self) -> (r: bool)
        ensures
            r == (self.state is Reconnect && self.url@.len() > 0),
    {
        match self.state {
            Link::Reconnect(_) => Message::new(self.url.as_str()).is_some(),
            _ => false,
        }
    }

    /// Whether the stop button is offered: a socket is open.
    pub fn can_stop(&self) -> (r: bool)
        ensures
            r == self.state is Connected,
    {
        match self.state {
            Link::Connected(_) => true,
            _ => false,
        }
    }

    /// The message that submitting the message field sends; `None` where no
    /// socket is open or the field is empty.
    pub fn outgoing(&self) -> (r: Option<Message>)
        ensures
            r is Some <==> (self.state is Connected && self.new_message@.len() > 0),
            r matches Some(m) ==> m matches Message::User(t) && t@ == self.new_message@,
    {
        match self.state {
            Link::Connected(_) => Message::new(self.new_message.as_str()),
            _ => None,
        }
    }
    /// Applies what the user or the connection did. Commands go out through
    /// the handle the link holds; one that the handle refuses comes back in
    /// `Follow::Refused`.
    pub fn update(&mut self, message: UiMessage) -> (r: Follow)
        ensures
            // Editing a field stores its text.
            message matches UiMessage::Url(u) ==> *final(self) == (Client { url: u, ..*old(self) })
                && r is Nothing,
            message matches UiMessage::NewMessageChanged(m) ==> *final(self) == (Client {
                new_message: m,
                ..*old(self)
            }) && r is Nothing,
            // Connecting asks to come back with the typed address.
            message is Connect ==> *final(self) == *old(self) && (r matches Follow::RequestConnect(u)
                && u@ == old(self).url@),
            // Outside the state that takes them, commands are dropped.
            message is Reconnect && !(old(self).state is Reconnect) ==> *final(self) == *old(self)
                && r is Nothing,
            message is Stop && !(old(self).state is Connected) ==> *final(self) == *old(self)
                && r is Nothing,
            message is Send && !(old(self).state is Connected) ==> *final(self) == *old(self)
                && r is Nothing,
            // A command in its state goes to the handle; the fields stay but
            // for the log line of a stop or a sent text, and the cleared
            // message field.
            old(self).state is Reconnect ==> (message matches UiMessage::Reconnect(m) ==> {
                &&& final(self).url == old(self).url
                &&& final(self).messages == old(self).messages
                &&& final(self).new_message == old(self).new_message
                &&& final(self).state is Reconnect
                &&& r is Nothing || r == Follow::Refused(m)
            }),
            message is Stop && old(self).state is Connected ==> {
                &&& final(self).url == old(self).url
                &&& final(self).messages@ == old(self).messages@.push(Message::Stop(old(self).url))
                &&& final(self).new_message == old(self).new_message
                &&& final(self).state is Connected
                &&& r is Nothing || r == Follow::Refused(Message::Stop(old(self).url))
            },
            old(self).state is Connected ==> (message matches UiMessage::Send(m) ==> {
                &&& final(self).url == old(self).url
                &&& (if let Message::User(text) = m {
                    pushed_user_line(old(self).messages@, final(self).messages@, "-> "@, text@)
                } else {
                    final(self).messages == old(self).messages
                })
                &&& final(self).new_message@.len() == 0
                &&& final(self).state is Connected
                &&& r is Nothing || r == Follow::Refused(m)
            }),
            // Events of the connection set the link and log what happened.
            message matches UiMessage::Echo(Event::Connected(c)) ==> {
                &&& final(self).url == old(self).url
                &&& final(self).messages@ == old(self).messages@.push(
                    Message::Connected(old(self).url),
                )
                &&& final(self).new_message == old(self).new_message
                &&& final(self).state == Link::Connected(c)
                &&& r is Nothing
            },
            message matches UiMessage::Echo(Event::Disconnected) ==> {
                &&& final(self).url == old(self).url
                &&& final(self).messages@ == old(self).messages@.push(Message::Disconnected)
                &&& final(self).new_message == old(self).new_message
                &&& final(self).state is Disconnected
                &&& r is Nothing
            },
            message matches UiMessage::Echo(Event::Reconnect(c)) ==> *final(self) == (Client {
                state: Link::Reconnect(c),
                ..*old(self)
            }) && r is Nothing,
            message matches UiMessage::Echo(Event::MessageReceived(m)) ==> {
                &&& final(self).url == old(self).url
                &&& (if let Message::User(text) = m {
                    pushed_user_line(old(self).messages@, final(self).messages@, "<- "@, text@)
                } else {
                    final(self).messages == old(self).messages
                })
                &&& final(self).new_message == old(self).new_message
                &&& final(self).state == old(self).state
                &&& r is ScrollToEnd
            },
    {
        match message {
            UiMessage::Url(url) => {
                self.url = url;
                Follow::Nothing
            },
            UiMessage::Connect => Follow::RequestConnect(self.url.clone()),
            UiMessage::Reconnect(m) => match &mut self.state {
                Link::Reconnect(connection) => handed_over(connection.send(m)),
                _ => Follow::Nothing,
            },
            UiMessage::Stop => match &mut self.state {
                Link::Connected(connection) => {
                    self.messages.push(Message::stop(self.url.clone()));
                    handed_over(connection.send(Message::Stop(self.url.clone())))
                },
                _ => Follow::Nothing,
            },
            UiMessage::NewMessageChanged(m) => {
                self.new_message = m;
                Follow::Nothing
            },
            UiMessage::Send(m) => match &mut self.state {
                Link::Connected(connection) => {
                    self.new_message = String::new();
                    if let Message::User(text) = &m {
                        let ghost before = self.messages@;
                        self.messages.push(Message::User(prefixed("-> ", text)));
                        assert(self.messages@.take(before.len() as int) =~= before);
                    }
                    handed_over(connection.send(m))
                },
                _ => Follow::Nothing,
            },
            UiMessage::Echo(event) => match event {
                Event::Connected(connection) => {
                    self.state = Link::Connected(connection);
                    self.messages.push(Message::connected(self.url.clone()));
                    Follow::Nothing
                },
                Event::Disconnected => {
                    self.state = Link::Disconnected;
                    self.messages.push(Message::disconnected());
                    Follow::Nothing
                },
                Event::Reconnect(connection) => {
                    self.state = Link::Reconnect(connection);
                    Follow::Nothing
                },
                Event::MessageReceived(m) => {
                    if let Message::User(text) = &m {
                        let ghost before = self.messages@;
                        self.messages.push(Message::User(prefixed("<- ", text)));
                        assert(self.messages@.take(before.len() as int) =~= before);
                    }
                    Follow::ScrollToEnd
                },
            },
        }
    }
}

/// `prefix` followed by `text`.
fn prefixed(prefix: &str, text: &String) -> (r: String)
    ensures
        r@ == prefix@ + text@,
{
    let mut out = String::from_str(prefix);
    out.append(text.as_str());
    out
}

/// The follow-up of a command handed to the connection's handle.
fn handed_over(sent: Result<(), Message>) -> (r: Follow)
    ensures
        sent is Ok ==> r is Nothing,
        sent matches Err(m) ==> r == Follow::Refused(m),
{
    match sent {
        Ok(()) => Follow::Nothing,
        Err(m) => Follow::Refused(m),
    }
}

} // verus!
