//! The buttons below the bot's messages, and what pressing one asks for.

use vstd::prelude::*;

verus! {

/// What a button stands for.
#[derive(Debug)]
pub enum CallbackKind {
    Okay,
    Del,
    SendBroadcast,
    Unknown,
    SelectGroup(String),
}

/// A button: its caption and what it stands for.
#[derive(Debug)]
pub struct Callback<T> {
    pub text: T,
    pub kind: CallbackKind,
}

/// What the bot does when a button is pressed.
#[derive(Debug)]
pub enum CallbackAction {
    /// Acknowledge the press.
    Answer,
    /// Remove the message that carries the button.
    DeleteMessage,
    /// Remove the message and send its text to every chat that has
    /// announcements switched on.
    Broadcast,
    /// Do nothing.
    Ignore,
    /// Tell the chat that the button is not known.
    Alert(String),
    /// Make this group the chat's group.
    SelectGroup(String),
}

/// What the bot tells a chat that pressed a button it does not know.
pub open spec fn unknown_button_text() -> Seq<char> {
    "Я не знаю, что делать с этой кнопкой 🤕"@
}

/// Whether `action` is what pressing a button of kind `kind` asks for,
/// pressed by the chat `from`, where `dev_id` is the developer's chat.
pub open spec fn is_action_of(
    action: CallbackAction,
    kind: CallbackKind,
    from: u64,
    dev_id: u64,
) -> bool {
    match kind {
        CallbackKind::Okay => action == CallbackAction::Answer,
        CallbackKind::Del => action == CallbackAction::DeleteMessage,
        CallbackKind::SendBroadcast => if from == dev_id {
            action == CallbackAction::Broadcast
        } else {
            action == CallbackAction::Ignore
        },
        CallbackKind::Unknown => action matches CallbackAction::Alert(text) && text@
            == unknown_button_text(),
        CallbackKind::SelectGroup(group) => action == CallbackAction::SelectGroup(group),
    }
}

impl<T> Callback<T> {
    /// A button with the caption `text` that stands for `kind`.
    pub fn new(text: T, kind: CallbackKind) -> (button: Callback<T>)
        ensures
            button.text == text,
            button.kind == kind,
    {
        Callback { text, kind }
    }
}

impl CallbackKind {
    /// What pressing a button of this kind asks for. Only the developer can
    /// start a broadcast; from anyone else the press is ignored.
    pub fn dispatch(self, from: u64, dev_id: u64) -> (action: CallbackAction)
        ensures
            is_action_of(action, self, from, dev_id),
    {
        match self {
            CallbackKind::Okay => CallbackAction::Answer,
            CallbackKind::Del => CallbackAction::DeleteMessage,
            CallbackKind::SendBroadcast => {
                if from == dev_id {
                    CallbackAction::Broadcast
                } else {
                    CallbackAction::Ignore
                }
            },
            CallbackKind::Unknown => CallbackAction::Alert(
                "Я не знаю, что делать с этой кнопкой 🤕".to_owned(),
            ),
            CallbackKind::SelectGroup(group) => CallbackAction::SelectGroup(group),
        }
    }

    /// The kind of a button whose data could be read, and `Unknown` for
    /// one whose data could not.
    pub fn or_unknown(decoded: Option<CallbackKind>) -> (kind: CallbackKind)
        ensures
            kind == match decoded {
                Some(known) => known,
                None => CallbackKind::Unknown,
            },
    {
        match decoded {
            Some(known) => known,
            None => CallbackKind::Unknown,
        }
    }
}

} // verus!
