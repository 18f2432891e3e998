//! The addresses of the timetable service, and how its answers are read.

use crate::calendar::Weekday;
use crate::timetable::Fetch;
use vstd::prelude::*;
use vstd::string::StringExecFns;

verus! {

/// The status with which the service answers a request that it could
/// serve.
pub const STATUS_OK: u16 = 200;

/// How the body of an answer has to be read.
#[derive(Clone, Copy, Debug, PartialEq, Eq, Structural)]
pub enum AnswerKind {
    /// The body holds what was asked for.
    Payload,
    /// The body holds an error of the service.
    Failure,
}

/// The name of a weekday in an address.
pub open spec fn weekday_path(weekday: Weekday) -> Seq<char> {
    match weekday {
        Weekday::Mon => "Mon"@,
        Weekday::Tue => "Tue"@,
        Weekday::Wed => "Wed"@,
        Weekday::Thu => "Thu"@,
        Weekday::Fri => "Fri"@,
        Weekday::Sat => "Sat"@,
        Weekday::Sun => "Sun"@,
    }
}

/// The address of the latest timetable of a horizon.
pub open spec fn latest_address(host: Seq<char>, fetch: Fetch) -> Seq<char> {
    match fetch {
        Fetch::Today => host + "/latest/today"@,
        Fetch::Next => host + "/latest/next"@,
    }
}

/// The address of the timetable with the identifier `uid`.
pub open spec fn snapshot_address(host: Seq<char>, uid: Seq<char>) -> Seq<char> {
    host + "/snapshot/"@ + uid
}

/// The address of the weekly timetable of a group for a weekday.
pub open spec fn default_address(host: Seq<char>, group: Seq<char>, weekday: Weekday) -> Seq<char> {
    host + "/default/"@ + weekday_path(weekday) + "/"@ + group
}

/// The address of the poll.
pub open spec fn poll_address(host: Seq<char>) -> Seq<char> {
    host + "/poll"@
}

/// How the body of an answer with the given status has to be read: as
/// what was asked for where the status is 200, and as an error of the
/// service for every other status.
pub fn answer_kind(status: u16) -> (kind: AnswerKind)
    ensures
        kind == if status == STATUS_OK {
            AnswerKind::Payload
        } else {
            AnswerKind::Failure
        },
{
    if status == STATUS_OK {
        AnswerKind::Payload
    } else {
        AnswerKind::Failure
    }
}

/// Writes the address of the latest timetable of a horizon.
pub fn latest(host: &String, fetch: Fetch) -> (address: String)
    ensures
        address@ == latest_address(host@, fetch),
{
    let mut address = host.clone();
    match fetch {
        Fetch::Today => address.append("/latest/today"),
        Fetch::Next => address.append("/latest/next"),
    }
    address
}

/// Writes the address of the timetable with the identifier `uid`.
pub fn snapshot(host: &String, uid: &String) -> (address: String)
    ensures
        address@ == snapshot_address(host@, uid@),
{
    let mut address = host.clone();
    address.append("/snapshot/");
    address.append(uid.as_str());
    address
}

/// Writes the address of the weekly timetable of a group for a weekday.
pub fn default(host: &String, group: &String, weekday: Weekday) -> (address: String)
    ensures
        address@ == default_address(host@, group@, weekday),
{
    let mut address = host.clone();
    address.append("/default/");
    match weekday {
        Weekday::Mon => address.append("Mon"),
        Weekday::Tue => address.append("Tue"),
        Weekday::Wed => address.append("Wed"),
        Weekday::Thu => address.append("Thu"),
        Weekday::Fri => address.append("Fri"),
        Weekday::Sat => address.append("Sat"),
        Weekday::Sun => address.append("Sun"),
    }
    address.append("/");
    address.append(group.as_str());
    address
}

/// Writes the address of the poll.
pub fn poll(host: &String) -> (address: String)
    ensures
        address@ == poll_address(host@),
{
    let mut address = host.clone();
    address.append("/poll");
    address
}

} // verus!
