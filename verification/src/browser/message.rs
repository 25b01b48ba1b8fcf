//! The messages of the navigation bar: what each asks of the content view.

use vstd::prelude::*;

use crate::browser::classifier::{classified, classify};
use crate::text::same_text;

verus! {

/// The key of the operation name in a message.
pub const OP_KEY: &'static str = "op";

/// The key of what comes with the operation in a message.
pub const PAYLOAD_KEY: &'static str = "payload";

/// The key, in the payload, of the text to navigate to.
pub const URL_KEY: &'static str = "url";

/// The script that steps back in a view's session history.
pub const BACK_SCRIPT: &'static str = "window.history.back()";

/// The script that steps forward in a view's session history.
pub const FORWARD_SCRIPT: &'static str = "window.history.forward()";

/// The script that loads the page shown once more.
pub const REFRESH_SCRIPT: &'static str = "window.location.reload()";

/// The mathematical model of a message.
pub struct MessageView {
    /// The operation name, where the message holds one as a string.
    pub op: Option<Seq<char>>,
    /// The text to navigate to, where the payload holds one as a string.
    pub url: Option<Seq<char>>,
}

/// A message of the navigation bar, as far as the shell reads it.
#[derive(Debug, PartialEq, Eq)]
pub struct Message {
    /// The operation name, where the message holds one as a string.
    pub op: Option<String>,
    /// The text to navigate to, where the payload holds one as a string.
    pub url: Option<String>,
}

impl View for Message {
    type V = MessageView;

    open spec fn view(&self) -> MessageView {
        MessageView {
            op: match self.op {
                Some(op) => Some(op@),
                None => None,
            },
            url: match self.url {
                Some(url) => Some(url@),
                None => None,
            },
        }
    }
}

/// What the JSON document `text` holds: as `op`, the string under `op_key`; as `url`,
/// the string under `url_key` in the value under `payload_key`; each `None` where the
/// document holds no such member or the member is no string. `None` as a whole where
/// `text` is not one JSON document.
pub uninterp spec fn parsed_message(
    text: Seq<char>,
    op_key: Seq<char>,
    payload_key: Seq<char>,
    url_key: Seq<char>,
) -> Option<MessageView>;

/// Parses `text` with `serde_json::from_str` as a `serde_json::Value`, looks the keys
/// up with `Value::get` and reads the strings with `Value::as_str`. Trusted: the
/// outcome is the one that `parsed_message` names for this text and these keys.
#[verifier::external_body]
fn read_message(text: &str, op_key: &str, payload_key: &str, url_key: &str) -> (message: Option<
    Message,
>)
    ensures
        match message {
            Some(read) => parsed_message(text@, op_key@, payload_key@, url_key@) == Some(read@),
            None => parsed_message(text@, op_key@, payload_key@, url_key@) is None,
        },
{
    let document: serde_json::Value = serde_json::from_str(text).ok()?;
    let op = document.get(op_key).and_then(|op| op.as_str());
    let url = document.get(payload_key).and_then(|payload| payload.get(url_key)).and_then(
        |url| url.as_str(),
    );
    Some(Message { op: op.map(|op| op.to_string()), url: url.map(|url| url.to_string()) })
}

/// The mathematical model of a command.
pub enum CommandView {
    Back,
    Forward,
    Refresh,
    Home,
    Load(Seq<char>),
    Nothing,
}

/// What the navigation bar asks of the content view.
#[derive(Debug, PartialEq, Eq)]
pub enum Command {
    /// Step back in the view's own session history.
    Back,
    /// Step forward in the view's own session history.
    Forward,
    /// Load the page shown once more.
    Refresh,
    /// Load the home page.
    Home,
    /// Load this URL.
    Load(String),
    /// Leave the view as it is.
    Nothing,
}

impl View for Command {
    type V = CommandView;

    open spec fn view(&self) -> CommandView {
        match self {
            Command::Back => CommandView::Back,
            Command::Forward => CommandView::Forward,
            Command::Refresh => CommandView::Refresh,
            Command::Home => CommandView::Home,
            Command::Load(url) => CommandView::Load(url@),
            Command::Nothing => CommandView::Nothing,
        }
    }
}

/// The command of an operation name and the text that came with it. A text to
/// navigate to is classified, and leads to the address or to its search.
pub open spec fn command_of(op: Seq<char>, url: Option<Seq<char>>) -> CommandView {
    if op == "back"@ {
        CommandView::Back
    } else if op == "forward"@ {
        CommandView::Forward
    } else if op == "refresh"@ {
        CommandView::Refresh
    } else if op == "home"@ {
        CommandView::Home
    } else if op == "navigate"@ && url is Some {
        CommandView::Load(classified(url->0).destination())
    } else {
        CommandView::Nothing
    }
}

/// The command of a message as read: a message without an operation name has the
/// empty one, and a text that is no message asks for nothing.
pub open spec fn command_of_message(message: Option<MessageView>) -> CommandView {
    match message {
        Some(read) => command_of(
            match read.op {
                Some(op) => op,
                None => ""@,
            },
            read.url,
        ),
        None => CommandView::Nothing,
    }
}

/// The command of the message `text`.
pub open spec fn decoded(text: Seq<char>) -> CommandView {
    command_of_message(parsed_message(text, OP_KEY@, PAYLOAD_KEY@, URL_KEY@))
}

impl CommandView {
    /// The script of a step in the view's own session history, or of a reload.
    pub open spec fn script(self) -> Option<Seq<char>> {
        match self {
            CommandView::Back => Some(BACK_SCRIPT@),
            CommandView::Forward => Some(FORWARD_SCRIPT@),
            CommandView::Refresh => Some(REFRESH_SCRIPT@),
            _ => None,
        }
    }
}

impl Command {
    /// The script that the content view evaluates for a step in its own session
    /// history or a reload; `None` for the commands that load a URL or do nothing.
    pub fn script(&self) -> (script: Option<&'static str>)
        ensures
            match script {
                Some(text) => self@.script() == Some(text@),
                None => self@.script() is None,
            },
    {
        match self {
            Command::Back => Some(BACK_SCRIPT),
            Command::Forward => Some(FORWARD_SCRIPT),
            Command::Refresh => Some(REFRESH_SCRIPT),
            _ => None,
        }
    }
}

/// The command of an operation name and the text that came with it.
pub fn command_for(op: &str, url: Option<&str>) -> (command: Command)
    ensures
        command@ == command_of(
            op@,
            match url {
                Some(text) => Some(text@),
                None => None,
            },
        ),
{
    if same_text(op, "back") {
        Command::Back
    } else if same_text(op, "forward") {
        Command::Forward
    } else if same_text(op, "refresh") {
        Command::Refresh
    } else if same_text(op, "home") {
        Command::Home
    } else if same_text(op, "navigate") {
        match url {
            Some(text) => Command::Load(classify(text).destination()),
            None => Command::Nothing,
        }
    } else {
        Command::Nothing
    }
}

/// The command of a message as read.
pub fn command_for_message(message: Option<&Message>) -> (command: Command)
    ensures
        command@ == command_of_message(
            match message {
                Some(read) => Some(read@),
                None => None,
            },
        ),
{
    match message {
        Some(read) => {
            let url = match &read.url {
                Some(url) => Some(url.as_str()),
                None => None,
            };
            match &read.op {
                Some(op) => command_for(op.as_str(), url),
                None => command_for("", url),
            }
        },
        None => Command::Nothing,
    }
}

/// Reads a message of the navigation bar, a JSON object with the operation name under
/// `op` and, for `navigate`, the typed text under `url` in `payload`. A message that
/// is no JSON, or names no known operation, asks for nothing.
pub fn decode_message(message: &str) -> (command: Command)
    ensures
        command@ == decoded(message@),
{
    let read = read_message(message, OP_KEY, PAYLOAD_KEY, URL_KEY);
    command_for_message(read.as_ref())
}

} // verus!
