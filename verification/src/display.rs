//! The plain rendering of timetables: a group's day with the lessons in
//! two lines each, the weekly timetable with a remark on the week, and the
//! bodies of all groups of a snapshot that changed.

use crate::calendar::{in_even_week, CalendarDay, CalendarDayView, Weekday};
use crate::changes::{baseline, classify, is_news, ChangeSet};
use crate::format::takes_place;
use crate::names::NameMap;
use crate::text::{decimal, decimal_text};
use crate::timetable::{group_index, DefaultGroup, DefaultLesson, Group, Lesson, Num, Snapshot};
use vstd::prelude::*;
use vstd::string::StringExecFns;

verus! {

/// The name of a weekday in the form that follows "on".
pub open spec fn weekday_name_accusative(weekday: Weekday) -> Seq<char> {
    match weekday {
        Weekday::Mon => "понедельник"@,
        Weekday::Tue => "вторник"@,
        Weekday::Wed => "среду"@,
        Weekday::Thu => "четверг"@,
        Weekday::Fri => "пятницу"@,
        Weekday::Sat => "субботу"@,
        Weekday::Sun => "воскресенье"@,
    }
}

/// The number of a lesson as text; nothing for a lesson without a number
/// of its own.
pub open spec fn num_text(num: Num) -> Seq<char> {
    match num {
        Num::Actual(number) => number@,
        Num::Previous => Seq::empty(),
    }
}

/// What follows the number of a lesson: the room, the subgroup and the
/// teacher in the first line and the title in the second; with no room,
/// the title alone.
pub open spec fn lesson_tail(
    opened: Seq<char>,
    classroom: Option<String>,
    subgroup: Option<u8>,
    teacher: Option<String>,
    name: Seq<char>,
) -> Seq<char> {
    match classroom {
        None => opened + ") <b>"@ + name + "</b>\n\n"@,
        Some(room) => {
            let placed = opened + ", "@ + room@ + ")"@;
            let split = match subgroup {
                Some(number) => placed + " (п. "@ + decimal(number as nat) + ")"@,
                None => placed,
            };
            let taught = match teacher {
                Some(who) => split + " "@ + who@,
                None => split,
            };
            taught + "\n<b>"@ + name + "</b>\n\n"@
        },
    }
}

/// The plain rendering of one lesson.
pub open spec fn lesson_display(lesson: Lesson) -> Seq<char> {
    lesson_tail(
        "("@ + num_text(lesson.num),
        lesson.classroom,
        lesson.subgroup,
        lesson.teacher,
        lesson.name@,
    )
}

/// The plain rendering of one lesson of the weekly timetable that takes
/// place.
pub open spec fn default_lesson_display(lesson: DefaultLesson) -> Seq<char> {
    lesson_tail(
        "("@ + decimal(lesson.num as nat),
        lesson.classroom,
        lesson.subgroup,
        lesson.teacher,
        lesson.name@,
    )
}

/// `head` followed by the plain renderings of `lessons`.
pub open spec fn with_displayed_lessons(head: Seq<char>, lessons: Seq<Lesson>) -> Seq<char>
    decreases lessons.len(),
{
    if lessons.len() == 0 {
        head
    } else {
        with_displayed_lessons(head, lessons.drop_last()) + lesson_display(lessons.last())
    }
}

/// `head` followed by the plain renderings of those of `lessons` that
/// take place.
pub open spec fn with_displayed_defaults(
    head: Seq<char>,
    lessons: Seq<DefaultLesson>,
    even_week: bool,
) -> Seq<char>
    decreases lessons.len(),
{
    if lessons.len() == 0 {
        head
    } else {
        let earlier = with_displayed_defaults(head, lessons.drop_last(), even_week);
        if takes_place(lessons.last(), even_week) {
            earlier + default_lesson_display(lessons.last())
        } else {
            earlier
        }
    }
}

/// The plain rendering of a group's day.
pub open spec fn group_display(
    group: Group,
    uid: Seq<char>,
    date: CalendarDayView,
    is_today: bool,
) -> Seq<char> {
    let opened = "Расписание <b>"@ + group.name@ + "</b> на <code>"@;
    let dated = if is_today {
        opened + "сегодня"@
    } else {
        opened + date.text
    };
    with_displayed_lessons(
        dated + "</code>, <code>"@ + weekday_name_accusative(date.weekday) + "</code>\n[<code>"@
            + uid + "</code>]\n\n"@,
        group.lessons@,
    )
}

/// The plain rendering of a group's weekly timetable for a day.
pub open spec fn default_display(group: DefaultGroup, date: CalendarDayView) -> Seq<char> {
    let opened = "Стандартное расписание <code>"@ + group.name@ + "</code> на <code>"@
        + weekday_name_accusative(date.weekday) + "</code>"@;
    let weeked = if in_even_week(date) {
        opened + "\nЧётная неделя\n\n"@
    } else {
        opened + "\n<b>Не</b>чётная неделя\n\n"@
    };
    with_displayed_defaults(weeked, group.lessons@, in_even_week(date))
}

/// Whether a group has to be shown against the earlier poll: its version
/// is not the one that the poll holds for it. With no earlier poll every
/// group is new and is shown.
pub open spec fn differs_from(group: Group, previous: Option<&ChangeSet>) -> bool {
    match previous {
        Some(set) => !(set.groups@.contains_key(group.name@) && set.groups@[group.name@]
            == group.uid@),
        None => true,
    }
}

/// The groups that are shown are the changed ones: a group is shown
/// exactly if change detection classifies it as new or updated.
pub proof fn law_shown_groups_are_the_changed_ones(group: Group, previous: Option<&ChangeSet>)
    ensures
        differs_from(group, previous) == is_news(
            classify(baseline(previous), group.name@, group.uid@),
        ),
{
}

/// With no earlier poll every group of the snapshot is shown: the bodies
/// are those of all groups, one for each name that a group carries.
pub proof fn law_first_poll_shows_every_group(
    groups: Seq<Group>,
    uid: Seq<char>,
    date: CalendarDayView,
    is_today: bool,
)
    ensures
        changed_bodies(groups, uid, date, is_today, None) == all_bodies(
            groups,
            uid,
            date,
            is_today,
        ),
        forall|name: Seq<char>|
            changed_bodies(groups, uid, date, is_today, None).contains_key(name) <==> exists|
                i: int,
            |
                0 <= i < groups.len() && (#[trigger] groups[i]).name@ == name,
    decreases groups.len(),
{
    if groups.len() > 0 {
        let rest = groups.drop_last();
        law_first_poll_shows_every_group(rest, uid, date, is_today);
        let shown = changed_bodies(groups, uid, date, is_today, None);
        assert forall|name: Seq<char>| shown.contains_key(name) <==> exists|i: int|
            0 <= i < groups.len() && (#[trigger] groups[i]).name@ == name by {
            if changed_bodies(rest, uid, date, is_today, None).contains_key(name) {
                let i = choose|i: int| 0 <= i < rest.len() && (#[trigger] rest[i]).name@ == name;
                assert(groups[i] == rest[i]);
            }
            if groups.last().name@ == name {
                assert(groups[groups.len() - 1].name@ == name);
            }
            if exists|i: int| 0 <= i < groups.len() && (#[trigger] groups[i]).name@ == name {
                let i = choose|i: int| 0 <= i < groups.len() && (#[trigger] groups[i]).name@ == name;
                if i < rest.len() {
                    assert(rest[i] == groups[i]);
                }
            }
        }
    }
}

/// The bodies of those of `groups` that differ from the earlier poll, by
/// the group's name.
pub open spec fn changed_bodies(
    groups: Seq<Group>,
    uid: Seq<char>,
    date: CalendarDayView,
    is_today: bool,
    previous: Option<&ChangeSet>,
) -> Map<Seq<char>, Seq<char>>
    decreases groups.len(),
{
    if groups.len() == 0 {
        Map::empty()
    } else {
        let earlier = changed_bodies(groups.drop_last(), uid, date, is_today, previous);
        if differs_from(groups.last(), previous) {
            earlier.insert(groups.last().name@, group_display(groups.last(), uid, date, is_today))
        } else {
            earlier
        }
    }
}

/// The bodies of all of `groups`, by the group's name.
pub open spec fn all_bodies(
    groups: Seq<Group>,
    uid: Seq<char>,
    date: CalendarDayView,
    is_today: bool,
) -> Map<Seq<char>, Seq<char>>
    decreases groups.len(),
{
    if groups.len() == 0 {
        Map::empty()
    } else {
        all_bodies(groups.drop_last(), uid, date, is_today).insert(
            groups.last().name@,
            group_display(groups.last(), uid, date, is_today),
        )
    }
}

/// The name of a weekday in the form that follows "on".
pub fn map_weekday_to_str(weekday: Weekday) -> (name: &'static str)
    ensures
        name@ == weekday_name_accusative(weekday),
{
    match weekday {
        Weekday::Mon => "понедельник",
        Weekday::Tue => "вторник",
        Weekday::Wed => "среду",
        Weekday::Thu => "четверг",
        Weekday::Fri => "пятницу",
        Weekday::Sat => "субботу",
        Weekday::Sun => "воскресенье",
    }
}

/// Finishes the rendering of a lesson that `line` has opened with the
/// bracket and the number.
fn finish_lesson(
    line: String,
    classroom: &Option<String>,
    subgroup: Option<u8>,
    teacher: &Option<String>,
    name: &String,
) -> (text: String)
    ensures
        text@ == lesson_tail(line@, *classroom, subgroup, *teacher, name@),
{
    let mut text = line;
    match classroom {
        None => {
            text.append(") <b>");
            text.append(name.as_str());
            text.append("</b>\n\n");
            text
        },
        Some(room) => {
            text.append(", ");
            text.append(room.as_str());
            text.append(")");
            match subgroup {
                Some(number) => {
                    let digits = decimal_text(number as u64);
                    text.append(" (п. ");
                    text.append(digits.as_str());
                    text.append(")");
                },
                None => {},
            }
            match teacher {
                Some(who) => {
                    text.append(" ");
                    text.append(who.as_str());
                },
                None => {},
            }
            text.append("\n<b>");
            text.append(name.as_str());
            text.append("</b>\n\n");
            text
        },
    }
}

/// Renders one lesson: number and room in brackets, then the subgroup and
/// the teacher, and the title in a line of its own.
pub fn display_lesson(lesson: &Lesson) -> (text: String)
    ensures
        text@ == lesson_display(*lesson),
{
    let mut line = String::from_str("(");
    match &lesson.num {
        Num::Actual(number) => {
            line.append(number.as_str());
        },
        Num::Previous => {
            assert(line@ =~= "("@ + Seq::<char>::empty());
        },
    }
    finish_lesson(line, &lesson.classroom, lesson.subgroup, &lesson.teacher, &lesson.name)
}

/// Renders one lesson of the weekly timetable; none for a lesson that
/// does not take place in such a week.
pub fn display_default_lesson(lesson: &DefaultLesson, is_even_week: bool) -> (text: Option<String>)
    ensures
        match text {
            Some(line) => takes_place(*lesson, is_even_week) && line@ == default_lesson_display(
                *lesson,
            ),
            None => !takes_place(*lesson, is_even_week),
        },
{
    match lesson.is_even {
        Some(even) => {
            if even != is_even_week {
                return None;
            }
        },
        None => {},
    }
    let digits = decimal_text(lesson.num as u64);
    let mut line = String::from_str("(");
    line.append(digits.as_str());
    Some(finish_lesson(line, &lesson.classroom, lesson.subgroup, &lesson.teacher, &lesson.name))
}

/// Renders a group's day: a heading with the group, the date or the word
/// for today, the weekday and the snapshot's identifier, and then each
/// lesson.
pub fn display_group(group: &Group, snapshot_uid: &String, date: &CalendarDay, today: i64) -> (body:
    String)
    ensures
        body@ == group_display(*group, snapshot_uid@, date@, date.timestamp == today),
{
    let mut body = String::from_str("Расписание <b>");
    body.append(group.name.as_str());
    body.append("</b> на <code>");
    if date.same_moment(today) {
        body.append("сегодня");
    } else {
        body.append(date.text.as_str());
    }
    body.append("</code>, <code>");
    body.append(map_weekday_to_str(date.weekday));
    body.append("</code>\n[<code>");
    body.append(snapshot_uid.as_str());
    body.append("</code>]\n\n");
    let ghost head = body@;
    let mut i: usize = 0;
    while i < group.lessons.len()
        invariant
            i <= group.lessons@.len(),
            body@ == with_displayed_lessons(head, group.lessons@.take(i as int)),
        decreases group.lessons@.len() - i,
    {
        let line = display_lesson(&group.lessons[i]);
        proof {
            let longer = group.lessons@.take(i as int + 1);
            assert(longer.drop_last() =~= group.lessons@.take(i as int));
            assert(longer.last() == group.lessons@[i as int]);
        }
        body.append(line.as_str());
        i = i + 1;
    }
    proof {
        assert(group.lessons@.take(i as int) =~= group.lessons@);
    }
    body
}

/// Renders a group's weekly timetable for a day: a heading with the group
/// and the weekday, a remark on whether the week is even, and then each
/// lesson that takes place in such a week.
pub fn display_default(default: &DefaultGroup, date: &CalendarDay) -> (body: String)
    ensures
        body@ == default_display(*default, date@),
{
    let mut body = String::from_str("Стандартное расписание <code>");
    body.append(default.name.as_str());
    body.append("</code> на <code>");
    body.append(map_weekday_to_str(date.weekday));
    body.append("</code>");
    let even_week = date.is_even_week();
    if even_week {
        body.append("\nЧётная неделя\n\n");
    } else {
        body.append("\n<b>Не</b>чётная неделя\n\n");
    }
    let ghost head = body@;
    let mut i: usize = 0;
    while i < default.lessons.len()
        invariant
            i <= default.lessons@.len(),
            even_week == in_even_week(date@),
            body@ == with_displayed_defaults(head, default.lessons@.take(i as int), even_week),
        decreases default.lessons@.len() - i,
    {
        proof {
            let longer = default.lessons@.take(i as int + 1);
            assert(longer.drop_last() =~= default.lessons@.take(i as int));
            assert(longer.last() == default.lessons@[i as int]);
        }
        match display_default_lesson(&default.lessons[i], even_week) {
            Some(line) => {
                body.append(line.as_str());
            },
            None => {},
        }
        i = i + 1;
    }
    proof {
        assert(default.lessons@.take(i as int) =~= default.lessons@);
    }
    body
}

/// Renders the day of the group `group_name`; none where the snapshot has
/// no such group.
pub fn format_timetable(group_name: &String, snapshot: &Snapshot, today: i64) -> (body: Option<
    String,
>)
    ensures
        match body {
            Some(text) => group_index(snapshot.groups@, group_name@) matches Some(at) && text@
                == group_display(
                snapshot.groups@[at],
                snapshot.uid@,
                snapshot.date@,
                snapshot.date.timestamp == today,
            ),
            None => group_index(snapshot.groups@, group_name@) is None,
        },
{
    match snapshot.group(group_name) {
        Some(group) => Some(display_group(group, &snapshot.uid, &snapshot.date, today)),
        None => None,
    }
}

/// Renders every group of the snapshot that changed, by the group's name:
/// every group whose version is not the one that the earlier poll holds
/// for it, and every group where there is no earlier poll.
pub fn separate_to_groups(snapshot: &Snapshot, prev: Option<&ChangeSet>, today: i64) -> (bodies:
    NameMap<String>)
    ensures
        bodies@ == changed_bodies(
            snapshot.groups@,
            snapshot.uid@,
            snapshot.date@,
            snapshot.date.timestamp == today,
            prev,
        ),
        bodies.wf(),
{
    let mut bodies: NameMap<String> = NameMap::new();
    let mut i: usize = 0;
    while i < snapshot.groups.len()
        invariant
            i <= snapshot.groups@.len(),
            bodies.wf(),
            bodies@ == changed_bodies(
                snapshot.groups@.take(i as int),
                snapshot.uid@,
                snapshot.date@,
                snapshot.date.timestamp == today,
                prev,
            ),
        decreases snapshot.groups@.len() - i,
    {
        let group = &snapshot.groups[i];
        proof {
            let longer = snapshot.groups@.take(i as int + 1);
            assert(longer.drop_last() =~= snapshot.groups@.take(i as int));
            assert(longer.last() == snapshot.groups@[i as int]);
        }
        let differs = match prev {
            Some(set) => match set.groups.get(&group.name) {
                Some(known) => *known != group.uid,
                None => true,
            },
            None => true,
        };
        if differs {
            let body = display_group(group, &snapshot.uid, &snapshot.date, today);
            bodies.insert(group.name.clone(), body);
        }
        i = i + 1;
    }
    proof {
        assert(snapshot.groups@.take(i as int) =~= snapshot.groups@);
    }
    bodies
}

/// Renders every group of the snapshot, by the group's name.
pub fn get_formatted_snapshot(snapshot: &Snapshot, today: i64) -> (bodies: NameMap<String>)
    ensures
        bodies@ == all_bodies(
            snapshot.groups@,
            snapshot.uid@,
            snapshot.date@,
            snapshot.date.timestamp == today,
        ),
        bodies.wf(),
{
    let mut bodies: NameMap<String> = NameMap::new();
    let mut i: usize = 0;
    while i < snapshot.groups.len()
        invariant
            i <= snapshot.groups@.len(),
            bodies.wf(),
            bodies@ == all_bodies(
                snapshot.groups@.take(i as int),
                snapshot.uid@,
                snapshot.date@,
                snapshot.date.timestamp == today,
            ),
        decreases snapshot.groups@.len() - i,
    {
        let group = &snapshot.groups[i];
        proof {
            let longer = snapshot.groups@.take(i as int + 1);
            assert(longer.drop_last() =~= snapshot.groups@.take(i as int));
            assert(longer.last() == snapshot.groups@[i as int]);
        }
        let body = display_group(group, &snapshot.uid, &snapshot.date, today);
        bodies.insert(group.name.clone(), body);
        i = i + 1;
    }
    proof {
        assert(snapshot.groups@.take(i as int) =~= snapshot.groups@);
    }
    bodies
}

} // verus!
