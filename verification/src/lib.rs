//! The decisions of a bot that hands out a college timetable.
//!
//! The bot polls a timetable service, tells the chats of a group when the
//! group's timetable changed, and answers the commands of a chat. This
//! crate holds what it decides and what it writes; reading the clock,
//! talking to the service, to the database and to the messaging service
//! is left to the caller.
//!
//! - [`changes`] classifies the groups of a poll against the poll before
//!   it, [`poller`] decides when to poll and what to announce, [`notifier`]
//!   and [`fanout`] decide who is told and in which order.
//! - [`settings`] holds what is known about a chat and groups the chats
//!   that want announcements.
//! - [`format`], [`display`] and [`utils`] write the message bodies,
//!   [`replies`] the answers to commands, [`error`] the texts of errors.
//! - [`calendar`] reads weekday, week and date of a day from chrono.
//! - [`names`] and [`text`] are the map and the number parsing that the
//!   rest is built on; [`timetable`] is the data of the service, [`api`]
//!   its addresses, [`env`] the settings of the process, [`commands`],
//!   [`callbacks`] and [`dialogues`] what a command, a button or a first
//!   message asks for.

pub mod api;
pub mod calendar;
pub mod callbacks;
pub mod changes;
pub mod commands;
pub mod dialogues;
pub mod display;
pub mod env;
pub mod error;
pub mod fanout;
pub mod format;
pub mod names;
pub mod notifier;
pub mod poller;
pub mod replies;
pub mod settings;
pub mod text;
pub mod timetable;
pub mod utils;
