//! The settings that the bot takes from its environment.
//!
//! Reading the environment is the caller's part. What is decided here is
//! whether the values that were found will do.

use crate::text::{parse_unsigned, parsed_unsigned};
use vstd::prelude::*;
use vstd::string::StrSliceExecFns;

verus! {

/// The variable that holds the bot's token.
pub const TELOXIDE_TOKEN: &'static str = "TELOXIDE_TOKEN";

/// The variable that holds the chat of the developer.
pub const DEV_ID: &'static str = "DEV_ID";

/// The variable that holds the address of the timetable service.
pub const API_HOST: &'static str = "API_HOST";

/// The variable that holds the address of the database.
pub const DB_URL: &'static str = "DATABASE_CONNECTION_URL";

/// The variable that holds the name of the database.
pub const DEFAULT_DB: &'static str = "DEFAULT_DATABASE_NAME";

/// The value of a variable as a number, where it is set and stands for
/// one: decimal digits, with or without a plus sign before them, whose
/// value fits into 64 bits.
pub open spec fn parsed_var(value: Option<&String>) -> Option<int> {
    match value {
        Some(text) => parsed_unsigned(text@, u64::MAX as int),
        None => None,
    }
}

/// The value of a variable as a number; `None` where the variable is not
/// set or does not hold a number.
pub fn parse_var(value: Option<&String>) -> (number: Option<u64>)
    ensures
        match number {
            Some(n) => parsed_var(value) == Some(n as int),
            None => parsed_var(value) is None,
        },
{
    match value {
        Some(text) => {
            let length: usize = text.as_str().unicode_len();
            proof {
                assert(text@.subrange(0, length as int) =~= text@);
            }
            parse_unsigned(text.as_str(), 0, length, u64::MAX)
        },
        None => None,
    }
}

/// Whether a variable is set.
pub fn check(value: Option<&String>) -> (present: bool)
    ensures
        present == value.is_some(),
{
    value.is_some()
}

/// Whether every variable that the bot cannot do without is set: the
/// token, the address of the timetable service, and the address and the
/// name of the database.
pub fn check_env_vars(
    token: Option<&String>,
    api_host: Option<&String>,
    db_url: Option<&String>,
    default_db: Option<&String>,
) -> (complete: bool)
    ensures
        complete == (token.is_some() && api_host.is_some() && db_url.is_some()
            && default_db.is_some()),
{
    let mut failed = false;
    if !check(token) {
        failed = true;
    }
    if !check(api_host) {
        failed = true;
    }
    if !check(db_url) {
        failed = true;
    }
    if !check(default_db) {
        failed = true;
    }
    !failed
}

} // verus!
