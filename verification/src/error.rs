//! The errors of the bot and their texts.

use vstd::prelude::*;
use vstd::std_specs::convert::FromSpecImpl;
use vstd::string::StringExecFns;

verus! {

/// An error reported by the timetable service.
#[derive(Debug)]
pub struct ApiError {
    pub cause: String,
    pub desc: String,
}

impl ApiError {
    /// The error of a request that did not reach the service or whose
    /// answer could not be read; `desc` says what went wrong.
    pub fn transport(desc: String) -> (error: ApiError)
        ensures
            error.cause@ == "reqwest"@,
            error.desc == desc,
    {
        ApiError { cause: String::from_str("reqwest"), desc }
    }
}

/// What can go wrong while the bot serves a chat or announces a change.
#[derive(Debug)]
pub enum BotError {
    /// A command was used in a way that it does not understand.
    InvalidCommandUsage { command: String, help: String, example: String },
    /// The timetable service reported an error: its cause and description.
    ApiError(String, String),
    /// The settings store failed.
    MongoError(String),
    /// The messaging service refused a request.
    TeloxideApiError(String),
    /// A request to the messaging service failed on its way.
    TeloxideRequestError(String),
    /// The dialogue storage failed.
    TeloxideInMemStorageError(String),
}

/// An error that can be shown to the person in the chat.
pub trait ReadableError {
    /// The text for the chat.
    fn readable(&self) -> String;
}

/// The text of an error for the log.
pub open spec fn message_text(error: BotError) -> Seq<char> {
    match error {
        BotError::InvalidCommandUsage { command, help, example } => command@
            + ": invalid command usage"@,
        BotError::ApiError(cause, desc) => "api-error: "@ + cause@ + ": "@ + desc@,
        BotError::MongoError(text) => "mongo-db error: "@ + text@,
        BotError::TeloxideApiError(text) => "teloxide-api error: "@ + text@,
        BotError::TeloxideRequestError(text) => "teloxide-request error: "@ + text@,
        BotError::TeloxideInMemStorageError(text) => "storage-error: "@ + text@,
    }
}

/// The text of an error for the chat.
pub open spec fn readable_text(error: BotError) -> Seq<char> {
    match error {
        BotError::InvalidCommandUsage { command, help, example } =>
            "Неправильное использование команды <code>"@ + command@ + "</code>\nИспользование: "@
            + help@ + "\nПример: <code>"@ + example@ + "</code>"@,
        BotError::ApiError(cause, desc) => "Ошибка API 😓\nПричина: "@ + cause@ + ".\nОписание: "@
            + desc@,
        BotError::MongoError(text) => "Ошибка MongoDB 😓.\nСообщение: "@ + text@,
        BotError::TeloxideApiError(text) => "Ошибка Teloxide API 😓.\nСообщение: "@ + text@,
        BotError::TeloxideRequestError(text) => "Ошибка Teloxide Request 😓.\nСообщение: "@
            + text@,
        BotError::TeloxideInMemStorageError(text) => "Ошибка InMemStorage 😓.\nСообщение: "@
            + text@,
    }
}

/// `head` followed by `tail`.
fn joined(head: &str, tail: &String) -> (text: String)
    ensures
        text@ == head@ + tail@,
{
    let mut text = String::from_str(head);
    text.append(tail.as_str());
    text
}

impl ReadableError for BotError {
    fn readable(&self) -> (text: String)
        ensures
            text@ == readable_text(*self),
    {
        match self {
            BotError::InvalidCommandUsage { command, help, example } => {
                let mut text = joined("Неправильное использование команды <code>", command);
                text.append("</code>\nИспользование: ");
                text.append(help.as_str());
                text.append("\nПример: <code>");
                text.append(example.as_str());
                text.append("</code>");
                text
            },
            BotError::ApiError(cause, desc) => {
                let mut text = joined("Ошибка API 😓\nПричина: ", cause);
                text.append(".\nОписание: ");
                text.append(desc.as_str());
                text
            },
            BotError::MongoError(text) => joined("Ошибка MongoDB 😓.\nСообщение: ", text),
            BotError::TeloxideApiError(text) => joined(
                "Ошибка Teloxide API 😓.\nСообщение: ",
                text,
            ),
            BotError::TeloxideRequestError(text) => joined(
                "Ошибка Teloxide Request 😓.\nСообщение: ",
                text,
            ),
            BotError::TeloxideInMemStorageError(text) => joined(
                "Ошибка InMemStorage 😓.\nСообщение: ",
                text,
            ),
        }
    }
}

impl BotError {
    /// The error of a command that was used wrongly, with the help and the
    /// example that the chat is shown.
    pub fn invalid_command(command: &str, help: &str, example: &str) -> (error: BotError)
        ensures
            error matches BotError::InvalidCommandUsage { command: c, help: h, example: e }
                && c@ == command@ && h@ == help@ && e@ == example@,
    {
        BotError::InvalidCommandUsage {
            command: String::from_str(command),
            help: String::from_str(help),
            example: String::from_str(example),
        }
    }

    /// The text of the error for the log.
    pub fn message(&self) -> (text: String)
        ensures
            text@ == message_text(*self),
    {
        match self {
            BotError::InvalidCommandUsage { command, help, example } => {
                let mut text = command.clone();
                text.append(": invalid command usage");
                text
            },
            BotError::ApiError(cause, desc) => {
                let mut text = joined("api-error: ", cause);
                text.append(": ");
                text.append(desc.as_str());
                text
            },
            BotError::MongoError(text) => joined("mongo-db error: ", text),
            BotError::TeloxideApiError(text) => joined("teloxide-api error: ", text),
            BotError::TeloxideRequestError(text) => joined("teloxide-request error: ", text),
            BotError::TeloxideInMemStorageError(text) => joined("storage-error: ", text),
        }
    }
}

impl From<ApiError> for BotError {
    fn from(err: ApiError) -> (error: BotError) {
        BotError::ApiError(err.cause, err.desc)
    }
}

impl FromSpecImpl<ApiError> for BotError {
    open spec fn obeys_from_spec() -> bool {
        true
    }

    open spec fn from_spec(err: ApiError) -> BotError {
        BotError::ApiError(err.cause, err.desc)
    }
}

} // verus!
