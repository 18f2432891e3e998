//! The commands that a chat can give, and what each of them asks for.

use crate::error::{readable_text, BotError, ReadableError};
use crate::timetable::Fetch;
use vstd::prelude::*;

verus! {

/// A command of a chat.
#[derive(Debug)]
pub enum Command {
    /// The timetable for today.
    Today,
    /// The timetable for the next day of lessons.
    Next,
    /// What the bot is and how to use it.
    About,
    /// Links around the timetable.
    Links,
    /// The weekly timetable for today.
    DefaultToday,
    /// The weekly timetable for the next day of lessons.
    DefaultNext,
    /// The teacher's lessons of today.
    TeacherToday,
    /// The teacher's lessons of the next day.
    TeacherNext,
    /// The timetable of a date.
    Date(String),
    /// Switch the announcements on or off.
    ToggleNotifications,
    /// Choose the group.
    SelectGroup,
    /// Set the teacher's name.
    SetTeacher(String),
    /// The first command of a chat.
    Start,
}

/// A command of the developer.
#[derive(Debug)]
pub enum DevCommand {
    /// Show who would be told about changes.
    DevNotifiables,
    /// Show every chat the bot knows.
    DevUserList,
    /// Send a message to every chat that has announcements switched on.
    Broadcast(String),
}

/// What a command asks the bot to do.
#[derive(Debug)]
pub enum Request {
    Greet,
    ShowAbout,
    ShowLinks,
    ToggleNotifications,
    OfferGroups,
    ShowTimetable(Fetch),
    ShowDefault(Fetch),
    ShowDate(String),
    ShowTeacherTimetable(Fetch),
    SetTeacher(String),
    ShowNotifiables,
    ShowUsers,
    PreviewBroadcast(String),
}

/// What a chat's command asks for.
pub open spec fn request_of(command: Command) -> Request {
    match command {
        Command::Start => Request::Greet,
        Command::About => Request::ShowAbout,
        Command::Links => Request::ShowLinks,
        Command::ToggleNotifications => Request::ToggleNotifications,
        Command::SelectGroup => Request::OfferGroups,
        Command::Today => Request::ShowTimetable(Fetch::Today),
        Command::Next => Request::ShowTimetable(Fetch::Next),
        Command::DefaultToday => Request::ShowDefault(Fetch::Today),
        Command::DefaultNext => Request::ShowDefault(Fetch::Next),
        Command::Date(date) => Request::ShowDate(date),
        Command::TeacherToday => Request::ShowTeacherTimetable(Fetch::Today),
        Command::TeacherNext => Request::ShowTeacherTimetable(Fetch::Next),
        Command::SetTeacher(name) => Request::SetTeacher(name),
    }
}

/// What a developer's command asks for.
pub open spec fn dev_request_of(command: DevCommand) -> Request {
    match command {
        DevCommand::DevNotifiables => Request::ShowNotifiables,
        DevCommand::DevUserList => Request::ShowUsers,
        DevCommand::Broadcast(body) => Request::PreviewBroadcast(body),
    }
}

impl Command {
    /// What the command asks for.
    pub fn dispatch(self) -> (request: Request)
        ensures
            request == request_of(self),
    {
        match self {
            Command::Start => Request::Greet,
            Command::About => Request::ShowAbout,
            Command::Links => Request::ShowLinks,
            Command::ToggleNotifications => Request::ToggleNotifications,
            Command::SelectGroup => Request::OfferGroups,
            Command::Today => Request::ShowTimetable(Fetch::Today),
            Command::Next => Request::ShowTimetable(Fetch::Next),
            Command::DefaultToday => Request::ShowDefault(Fetch::Today),
            Command::DefaultNext => Request::ShowDefault(Fetch::Next),
            Command::Date(date) => Request::ShowDate(date),
            Command::TeacherToday => Request::ShowTeacherTimetable(Fetch::Today),
            Command::TeacherNext => Request::ShowTeacherTimetable(Fetch::Next),
            Command::SetTeacher(name) => Request::SetTeacher(name),
        }
    }
}

impl DevCommand {
    /// What the command asks for.
    pub fn dispatch(self) -> (request: Request)
        ensures
            request == dev_request_of(self),
    {
        match self {
            DevCommand::DevNotifiables => Request::ShowNotifiables,
            DevCommand::DevUserList => Request::ShowUsers,
            DevCommand::Broadcast(body) => Request::PreviewBroadcast(body),
        }
    }
}

/// Whether the developer's commands are open to the chat `from`: they are
/// to the developer alone.
pub fn is_developer(from: u64, dev_id: u64) -> (allowed: bool)
    ensures
        allowed == (from == dev_id),
{
    from == dev_id
}

/// The reply to a chat whose command failed: the error in words for the
/// chat; none where the command went well.
pub fn failure_reply(outcome: &Result<(), BotError>) -> (reply: Option<String>)
    ensures
        match outcome {
            Ok(_) => reply is None,
            Err(error) => reply matches Some(text) && text@ == readable_text(*error),
        },
{
    match outcome {
        Ok(_) => None,
        Err(error) => Some(error.readable()),
    }
}

} // verus!
