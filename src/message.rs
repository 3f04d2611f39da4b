use vstd::prelude::*;

use crate::stamp::{digit, Stamp};

verus! {

/// A line of the chat log, and also a command that a caller hands the
/// connection: `Reconnect` asks for a connection to an address, `Stop` asks to
/// close the live socket and `User` carries text to send.
#[derive(Debug, Clone)]
pub enum Message {
    Connected(String),
    Disconnected,
    Reconnect(String),
    Stop(String),
    User(String),
}

impl Message {
    /// The description line shown under the time stamp.
    pub open spec fn body(&self) -> Seq<char> {
        match self {
            Message::Connected(url) => "Connected with "@ + url@ + " successfully!"@,
            Message::Disconnected => "Connection lost... Retrying..."@,
            Message::Reconnect(url) => "ReConnecte with "@ + url@,
            Message::Stop(url) => "Stop with "@ + url@ + " successfully!"@,
            Message::User(text) => text@,
        }
    }

    /// The two display lines of the message at time `at`.
    pub open spec fn display(&self, at: Stamp) -> Seq<char> {
        at.text() + "\n"@ + self.body()
    }

    /// A user message with the given text; `None` for empty text.
    pub fn new(message: &str) -> (r: Option<Self>)
        ensures
            message@.len() == 0 <==> r is None,
            r matches Some(m) ==> m matches Message::User(t) && t@ == message@,
    {
        if message.is_empty() {
            None
        } else {
            Some(Message::User(String::from_str(message)))
        }
    }

    /// The request to connect to `url`.
    pub fn get_url(url: String) -> (r: Self)
        ensures
            r == Message::Reconnect(url),
    {
        Message::Reconnect(url)
    }

    /// The log line for a connection made to `url`.
    pub fn connected(url: String) -> (r: Self)
        ensures
            r == Message::Connected(url),
    {
        Message::Connected(url)
    }

    /// The log line for a lost connection.
    pub fn disconnected() -> (r: Self)
        ensures
            r == Message::Disconnected,
    {
        Message::Disconnected
    }

    /// The request to stop the connection to `url`.
    pub fn stop(url: String) -> (r: Self)
        ensures
            r == Message::Stop(url),
    {
        Message::Stop(url)
    }

    /// The message rendered at time `at`: the stamp, a line break and the
    /// description.
    pub fn to_text(&self, at: &Stamp) -> (r: String)
        requires
            at.wf(),
        ensures
            r@ == self.display(*at),
    {
        let mut out = at.to_text();
        out.append("\n");
        match self {
            Message::Connected(url) => {
                out.append("Connected with ");
                out.append(url.as_str());
                out.append(" successfully!");
            },
            Message::Disconnected => {
                out.append("Connection lost... Retrying...");
            },
            Message::Reconnect(url) => {
                out.append("ReConnecte with ");
                out.append(url.as_str());
            },
            Message::Stop(url) => {
                out.append("Stop with ");
                out.append(url.as_str());
                out.append(" successfully!");
            },
            Message::User(text) => {
                out.append(text.as_str());
            },
        }
        assert(out@ =~= self.display(*at));
        out
    }

    /// The message rendered at the current local time; `None` where the
    /// clock reads a year outside `0..=9999`.
    pub fn to_text_now(&self) -> (r: Option<String>)
        ensures
            r matches Some(s) ==> exists|at: Stamp| at.wf() && s@ == self.display(at),
    {
        match Stamp::now() {
            Some(at) => Some(self.to_text(&at)),
            None => None,
        }
    }
}

/// Whether `c` is a decimal digit.
pub open spec fn is_digit(c: char) -> bool {
    '0' <= c <= '9'
}

/// Whether `s` has the shape `YYYY/MM/DD HH:MM:SS`.
pub open spec fn is_stamp_shape(s: Seq<char>) -> bool {
    &&& s.len() == 19
    &&& forall|i: int|
        0 <= i < 19 ==> if i == 4 || i == 7 {
            #[trigger] s[i] == '/'
        } else if i == 10 {
            s[i] == ' '
        } else if i == 13 || i == 16 {
            s[i] == ':'
        } else {
            is_digit(s[i])
        }
}

proof fn lemma_digit(d: int)
    requires
        0 <= d < 10,
    ensures
        is_digit(digit(d)),
{
    let digits = seq!['0', '1', '2', '3', '4', '5', '6', '7', '8', '9'];
    assert(digit(d) == digits[d]);
    assert(d == 0 || d == 1 || d == 2 || d == 3 || d == 4 || d == 5 || d == 6 || d == 7 || d == 8
        || d == 9);
}

/// A rendered stamp always has the shape `YYYY/MM/DD HH:MM:SS`.
pub proof fn lemma_stamp_shape(at: Stamp)
    requires
        at.wf(),
    ensures
        is_stamp_shape(at.text()),
{
    let y = at.year as int;
    lemma_digit(y / 1000);
    lemma_digit((y / 100) % 10);
    lemma_digit((y / 10) % 10);
    lemma_digit(y % 10);
    lemma_digit(at.month as int / 10);
    lemma_digit(at.month as int % 10);
    lemma_digit(at.day as int / 10);
    lemma_digit(at.day as int % 10);
    lemma_digit(at.hour as int / 10);
    lemma_digit(at.hour as int % 10);
    lemma_digit(at.minute as int / 10);
    lemma_digit(at.minute as int % 10);
    lemma_digit(at.second as int / 10);
    lemma_digit(at.second as int % 10);
}

/// A user message renders as a well-formed stamp on its first line and
/// exactly the user's text on its second.
pub proof fn lemma_user_message_lines(text: String, at: Stamp)
    requires
        at.wf(),
    ensures
        ({
            let shown = Message::User(text).display(at);
            &&& is_stamp_shape(shown.subrange(0, 19))
            &&& shown[19] == '\n'
            &&& shown.subrange(20, shown.len() as int) == text@
        }),
{
    reveal_strlit("\n");
    lemma_stamp_shape(at);
    let shown = Message::User(text).display(at);
    assert(shown.subrange(0, 19) =~= at.text());
    assert(shown.subrange(20, shown.len() as int) =~= text@);
}

} // verus!
