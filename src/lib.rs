//! An auto-reconnecting websocket echo client, reduced to its decisions: the
//! connection state machine, the messages it exchanges with its caller and the
//! way those messages are rendered for display.

mod client;
mod connection;
mod message;
mod session;
mod stamp;

pub use client::{Client, Follow, Link, UiMessage};
pub use connection::{Connection, Event, COMMAND_CAPACITY};
pub use message::Message;
pub use session::{Action, Frame, Input, Notice, Session, Step};
pub use stamp::Stamp;
