//! The shortest rendering of a lesson: one line.

use crate::display::num_text;
use crate::text::{decimal, decimal_text};
use crate::timetable::{Lesson, Num};
use vstd::prelude::*;
use vstd::string::StringExecFns;

verus! {

/// One lesson in one line: after a tab the number and the room in square
/// brackets, then the subgroup, the title and, in square brackets, the
/// teacher. The bracket after the number is closed only where no room
/// follows.
pub open spec fn lesson_line(lesson: Lesson) -> Seq<char> {
    let opened = "\t["@ + num_text(lesson.num);
    let placed = match lesson.classroom {
        Some(room) => opened + ", "@ + room@,
        None => opened + "]"@,
    };
    let split = match lesson.subgroup {
        Some(number) => placed + " (п. "@ + decimal(number as nat) + ")"@,
        None => placed,
    };
    let titled = split + " "@ + lesson.name@;
    match lesson.teacher {
        Some(who) => titled + " ["@ + who@ + "]"@,
        None => titled,
    }
}

/// Writes one lesson in one line.
pub fn display_lesson(lesson: &Lesson) -> (line: String)
    ensures
        line@ == lesson_line(*lesson),
{
    let mut line = String::from_str("\t[");
    match &lesson.num {
        Num::Actual(number) => {
            line.append(number.as_str());
        },
        Num::Previous => {
            assert(line@ =~= "\t["@ + Seq::<char>::empty());
        },
    }
    match &lesson.classroom {
        Some(room) => {
            line.append(", ");
            line.append(room.as_str());
        },
        None => {
            line.append("]");
        },
    }
    match lesson.subgroup {
        Some(number) => {
            let digits = decimal_text(number as u64);
            line.append(" (п. ");
            line.append(digits.as_str());
            line.append(")");
        },
        None => {},
    }
    line.append(" ");
    line.append(lesson.name.as_str());
    match &lesson.teacher {
        Some(who) => {
            line.append(" [");
            line.append(who.as_str());
            line.append("]");
        },
        None => {},
    }
    line
}

} // verus!
