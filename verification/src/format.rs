//! The message bodies: a group's lessons of one day, a teacher's lessons,
//! and the weekly timetable that stands in where a day has none.

use crate::calendar::{in_even_week, random_below, CalendarDay, CalendarDayView, Weekday};
use crate::error::{readable_text, ApiError, BotError, ReadableError};
use crate::text::{decimal, decimal_text};
use crate::timetable::{group_index, DefaultGroup, DefaultLesson, Group, Lesson, Num, Snapshot};
use vstd::prelude::*;
use vstd::string::StringExecFns;

verus! {

/// How many pictures there are to open a message with.
pub const EMOJI_COUNT: usize = 21;

/// The cause that the service gives where a group has no weekly timetable.
pub open spec fn not_found_cause() -> Seq<char> {
    "default_not_found"@
}

/// The picture with the given number.
pub open spec fn emoji_text(index: int) -> Seq<char> {
    if index == 0 {
        "🥭"@
    } else if index == 1 {
        "🥩"@
    } else if index == 2 {
        "🥝"@
    } else if index == 3 {
        "🌵"@
    } else if index == 4 {
        "🥞"@
    } else if index == 5 {
        "🧀"@
    } else if index == 6 {
        "🍖"@
    } else if index == 7 {
        "🍌"@
    } else if index == 8 {
        "🍍"@
    } else if index == 9 {
        "🥓"@
    } else if index == 10 {
        "🧃"@
    } else if index == 11 {
        "🍒"@
    } else if index == 12 {
        "🍓"@
    } else if index == 13 {
        "🍇"@
    } else if index == 14 {
        "🥕"@
    } else if index == 15 {
        "🐷"@
    } else if index == 16 {
        "🍺"@
    } else if index == 17 {
        "🍪"@
    } else if index == 18 {
        "🍁"@
    } else if index == 19 {
        "🍉"@
    } else {
        "🍋"@
    }
}

/// Whether a text is one of the pictures.
pub open spec fn is_emoji(text: Seq<char>) -> bool {
    exists|index: int| 0 <= index < EMOJI_COUNT && text == emoji_text(index)
}

/// The name of a weekday as a heading.
pub open spec fn weekday_name(weekday: Weekday) -> Seq<char> {
    match weekday {
        Weekday::Mon => "Понедельник"@,
        Weekday::Tue => "Вторник"@,
        Weekday::Wed => "Среда"@,
        Weekday::Thu => "Четверг"@,
        Weekday::Fri => "Пятница"@,
        Weekday::Sat => "Суббота"@,
        Weekday::Sun => "Воскресенье"@,
    }
}

/// The name of a weekday in the form that follows "for".
pub open spec fn weekday_name_genitive(weekday: Weekday) -> Seq<char> {
    match weekday {
        Weekday::Mon => "понедельника"@,
        Weekday::Tue => "вторника"@,
        Weekday::Wed => "среды"@,
        Weekday::Thu => "четверга"@,
        Weekday::Fri => "пятницы"@,
        Weekday::Sat => "субботы"@,
        Weekday::Sun => "воскресенья"@,
    }
}

/// The line of one lesson.
pub open spec fn lesson_text(lesson: Lesson) -> Seq<char> {
    let numbered = match lesson.num {
        Num::Actual(number) => "<b>#"@ + number@ + "</b>"@,
        Num::Previous => Seq::empty(),
    };
    let placed = match lesson.classroom {
        Some(room) => numbered + " "@ + room@,
        None => numbered,
    };
    let split = match lesson.subgroup {
        Some(subgroup) => placed + " · п/г <b>"@ + decimal(subgroup as nat) + "</b<"@,
        None => placed,
    };
    split + " <b>· "@ + lesson.name@ + "</b>\n"@
}

/// `head` followed by the lines of `lessons`.
pub open spec fn with_lessons(head: Seq<char>, lessons: Seq<Lesson>) -> Seq<char>
    decreases lessons.len(),
{
    if lessons.len() == 0 {
        head
    } else {
        with_lessons(head, lessons.drop_last()) + lesson_text(lessons.last())
    }
}

/// The heading of a group's day.
pub open spec fn group_heading(
    emoji: Seq<char>,
    uid: Seq<char>,
    date: CalendarDayView,
    is_today: bool,
) -> Seq<char> {
    let opened = emoji + " "@ + weekday_name(date.weekday);
    let dated = if is_today {
        opened + ", сегодня, "@ + date.text
    } else {
        opened + ", "@ + date.text
    };
    dated + " [<code>"@ + uid + "</code>]\n\n"@
}

/// The body that shows a group's day.
pub open spec fn group_text(
    emoji: Seq<char>,
    group: Group,
    uid: Seq<char>,
    date: CalendarDayView,
    is_today: bool,
) -> Seq<char> {
    with_lessons(group_heading(emoji, uid, date, is_today), group.lessons@)
}

/// The note that a snapshot has nothing for a group.
pub open spec fn missing_note(name: Seq<char>, uid: Seq<char>) -> Seq<char> {
    "Нет расписания для группы <b>"@ + name + "</b> [<code>"@ + uid + "</code>]"@
}

/// Whether a lesson of the weekly timetable takes place in a week that is
/// even, or is not.
pub open spec fn takes_place(lesson: DefaultLesson, even_week: bool) -> bool {
    match lesson.is_even {
        Some(even) => even == even_week,
        None => true,
    }
}

/// The line of one lesson of the weekly timetable, for a lesson that takes
/// place.
pub open spec fn default_lesson_line(lesson: DefaultLesson) -> Seq<char> {
    let numbered = "<b>#"@ + decimal(lesson.num as nat) + "</b>"@;
    match lesson.classroom {
        None => numbered + "<b> · "@ + lesson.name@ + "</b>"@,
        Some(room) => {
            let placed = numbered + " "@ + room@;
            let split = match lesson.subgroup {
                Some(subgroup) => placed + " · п/г "@ + decimal(subgroup as nat),
                None => placed,
            };
            split + "<b> · "@ + lesson.name@ + "</b>"@ + "\n"@
        },
    }
}

/// The line of one lesson of the weekly timetable; none for a lesson that
/// does not take place in such a week.
pub open spec fn default_lesson_text(lesson: DefaultLesson, even_week: bool) -> Option<Seq<char>> {
    if takes_place(lesson, even_week) {
        Some(default_lesson_line(lesson))
    } else {
        None
    }
}

/// `head` followed by the lines of those of `lessons` that take place.
pub open spec fn with_default_lessons(
    head: Seq<char>,
    lessons: Seq<DefaultLesson>,
    even_week: bool,
) -> Seq<char>
    decreases lessons.len(),
{
    if lessons.len() == 0 {
        head
    } else {
        let earlier = with_default_lessons(head, lessons.drop_last(), even_week);
        match default_lesson_text(lessons.last(), even_week) {
            Some(line) => earlier + line,
            None => earlier,
        }
    }
}

/// The body that shows a group's weekly timetable for a day.
pub open spec fn default_group_text(
    emoji: Seq<char>,
    group: DefaultGroup,
    date: CalendarDayView,
) -> Seq<char> {
    with_default_lessons(
        emoji + " "@ + weekday_name(date.weekday) + ", "@ + date.text
            + " - <b>стандартное</b> расписание <b>"@ + group.name@ + "</b>\n\n"@,
        group.lessons@,
        in_even_week(date),
    )
}

/// The body for what the service answered when asked for a weekly
/// timetable: the timetable, the remark that the group has none for that
/// weekday, or the error.
pub open spec fn default_result_text(
    emoji: Seq<char>,
    fetched: Result<DefaultGroup, ApiError>,
    date: CalendarDayView,
) -> Seq<char> {
    match fetched {
        Ok(group) => default_group_text(emoji, group, date),
        Err(err) => if err.cause@ == not_found_cause() {
            "Стандартное расписание не задано для "@ + weekday_name_genitive(date.weekday) + " 😒"@
        } else {
            readable_text(BotError::ApiError(err.cause, err.desc))
        },
    }
}

/// The body for a group: its day where the snapshot has one, and else the
/// note that it has none, followed by the weekly timetable.
pub open spec fn group_or_default_text(
    emoji: Seq<char>,
    snapshot: Snapshot,
    name: Seq<char>,
    date: CalendarDayView,
    today: int,
    fetched: Result<DefaultGroup, ApiError>,
) -> Seq<char> {
    match group_index(snapshot.groups@, name) {
        Some(at) => group_text(
            emoji,
            snapshot.groups@[at],
            snapshot.uid@,
            snapshot.date@,
            snapshot.date@.timestamp == today,
        ),
        None => missing_note(name, snapshot.uid@) + "\n\n"@ + default_result_text(
            emoji,
            fetched,
            date,
        ),
    }
}

/// `head` followed by the lines of those of `lessons` that `teacher`
/// gives, each with the group's name before it.
pub open spec fn with_teacher_lessons(
    head: Seq<char>,
    group: Seq<char>,
    lessons: Seq<Lesson>,
    teacher: Seq<char>,
) -> Seq<char>
    decreases lessons.len(),
{
    if lessons.len() == 0 {
        head
    } else {
        let earlier = with_teacher_lessons(head, group, lessons.drop_last(), teacher);
        if lessons.last().teacher is Some && lessons.last().teacher->0@ == teacher {
            earlier + "<b>"@ + group + "</b> · "@ + lesson_text(lessons.last())
        } else {
            earlier
        }
    }
}

/// `head` followed by the lessons that `teacher` gives in `groups`.
pub open spec fn with_teacher_groups(head: Seq<char>, groups: Seq<Group>, teacher: Seq<char>) -> Seq<
    char,
>
    decreases groups.len(),
{
    if groups.len() == 0 {
        head
    } else {
        with_teacher_lessons(
            with_teacher_groups(head, groups.drop_last(), teacher),
            groups.last().name@,
            groups.last().lessons@,
            teacher,
        )
    }
}

/// The body that shows a teacher's day.
pub open spec fn teacher_text(emoji: Seq<char>, snapshot: Snapshot, teacher: Seq<char>) -> Seq<
    char,
> {
    with_teacher_groups(
        emoji + " <b>"@ + weekday_name(snapshot.date.weekday) + "</b> ("@ + snapshot.date.text@
            + ") для <b>"@ + teacher + "</b> [<code>"@ + snapshot.uid@ + "</code>]\n\n"@,
        snapshot.groups@,
        teacher,
    )
}

/// The picture with the given number; the last one for a number beyond the
/// list.
pub fn emoji(index: usize) -> (picture: &'static str)
    ensures
        picture@ == emoji_text(index as int),
        index < EMOJI_COUNT ==> is_emoji(picture@),
{
    let picture = if index == 0 {
        "🥭"
    } else if index == 1 {
        "🥩"
    } else if index == 2 {
        "🥝"
    } else if index == 3 {
        "🌵"
    } else if index == 4 {
        "🥞"
    } else if index == 5 {
        "🧀"
    } else if index == 6 {
        "🍖"
    } else if index == 7 {
        "🍌"
    } else if index == 8 {
        "🍍"
    } else if index == 9 {
        "🥓"
    } else if index == 10 {
        "🧃"
    } else if index == 11 {
        "🍒"
    } else if index == 12 {
        "🍓"
    } else if index == 13 {
        "🍇"
    } else if index == 14 {
        "🥕"
    } else if index == 15 {
        "🐷"
    } else if index == 16 {
        "🍺"
    } else if index == 17 {
        "🍪"
    } else if index == 18 {
        "🍁"
    } else if index == 19 {
        "🍉"
    } else {
        "🍋"
    };
    proof {
        if index < EMOJI_COUNT {
            assert(0 <= index < EMOJI_COUNT && picture@ == emoji_text(index as int));
        }
    }
    picture
}

/// One of the pictures, picked at random.
pub fn random_emoji() -> (picture: &'static str)
    ensures
        is_emoji(picture@),
{
    emoji(random_below(EMOJI_COUNT))
}

/// The names of the weekday of a date.
pub trait NaiveDateExt {
    /// The weekday as a heading.
    fn weekday_str_basic(&self) -> &str;

    /// The weekday in the form that follows "for".
    fn weekday_str(&self) -> &str;
}

impl NaiveDateExt for Weekday {
    fn weekday_str_basic(&self) -> (name: &str)
        ensures
            name@ == weekday_name(*self),
    {
        match self {
            Weekday::Mon => "Понедельник",
            Weekday::Tue => "Вторник",
            Weekday::Wed => "Среда",
            Weekday::Thu => "Четверг",
            Weekday::Fri => "Пятница",
            Weekday::Sat => "Суббота",
            Weekday::Sun => "Воскресенье",
        }
    }

    fn weekday_str(&self) -> (name: &str)
        ensures
            name@ == weekday_name_genitive(*self),
    {
        match self {
            Weekday::Mon => "понедельника",
            Weekday::Tue => "вторника",
            Weekday::Wed => "среды",
            Weekday::Thu => "четверга",
            Weekday::Fri => "пятницы",
            Weekday::Sat => "субботы",
            Weekday::Sun => "воскресенья",
        }
    }
}

impl NaiveDateExt for CalendarDay {
    fn weekday_str_basic(&self) -> (name: &str)
        ensures
            name@ == weekday_name(self.weekday),
    {
        self.weekday.weekday_str_basic()
    }

    fn weekday_str(&self) -> (name: &str)
        ensures
            name@ == weekday_name_genitive(self.weekday),
    {
        self.weekday.weekday_str()
    }
}

/// Writes the line of one lesson.
pub fn format_lesson(lesson: &Lesson) -> (line: String)
    ensures
        line@ == lesson_text(*lesson),
{
    let mut line = String::new();
    match &lesson.num {
        Num::Actual(number) => {
            line.append("<b>#");
            line.append(number.as_str());
            line.append("</b>");
            assert(line@ =~= "<b>#"@ + number@ + "</b>"@);
        },
        Num::Previous => {},
    }
    match &lesson.classroom {
        Some(room) => {
            line.append(" ");
            line.append(room.as_str());
        },
        None => {},
    }
    match lesson.subgroup {
        Some(subgroup) => {
            let digits = decimal_text(subgroup as u64);
            line.append(" · п/г <b>");
            line.append(digits.as_str());
            line.append("</b<");
        },
        None => {},
    }
    line.append(" <b>· ");
    line.append(lesson.name.as_str());
    line.append("</b>\n");
    line
}

/// Writes the body that shows a group's day: a heading with the picture,
/// the weekday, the date and the snapshot's identifier, and a line for
/// each lesson. The heading says so where the day is today.
pub fn format_group(
    emoji: &str,
    group: &Group,
    snapshot_uid: &String,
    date: &CalendarDay,
    today: i64,
) -> (body: String)
    ensures
        body@ == group_text(emoji@, *group, snapshot_uid@, date@, date.timestamp == today),
{
    let mut body = String::from_str(emoji);
    body.append(" ");
    body.append(date.weekday_str_basic());
    if date.same_moment(today) {
        body.append(", сегодня, ");
    } else {
        body.append(", ");
    }
    body.append(date.text.as_str());
    body.append(" [<code>");
    body.append(snapshot_uid.as_str());
    body.append("</code>]\n\n");
    let ghost head = body@;
    let mut i: usize = 0;
    while i < group.lessons.len()
        invariant
            i <= group.lessons@.len(),
            body@ == with_lessons(head, group.lessons@.take(i as int)),
        decreases group.lessons@.len() - i,
    {
        let line = format_lesson(&group.lessons[i]);
        proof {
            let longer = group.lessons@.take(i as int + 1);
            assert(longer.drop_last() =~= group.lessons@.take(i as int));
            assert(longer.last() == group.lessons@[i as int]);
        }
        body.append(line.as_str());
        i = i + 1;
    }
    proof {
        assert(group.lessons@.take(i as int) =~= group.lessons@);
    }
    body
}

/// Writes the line of one lesson of the weekly timetable; none for a
/// lesson that does not take place in such a week.
pub fn format_default_lesson(lesson: &DefaultLesson, is_even_week: bool) -> (line: Option<String>)
    ensures
        match line {
            Some(text) => default_lesson_text(*lesson, is_even_week) == Some(text@),
            None => default_lesson_text(*lesson, is_even_week) is None,
        },
{
    match lesson.is_even {
        Some(even) => {
            if even != is_even_week {
                return None;
            }
        },
        None => {},
    }
    let digits = decimal_text(lesson.num as u64);
    let mut line = String::from_str("<b>#");
    line.append(digits.as_str());
    line.append("</b>");
    match &lesson.classroom {
        None => {
            line.append("<b> · ");
            line.append(lesson.name.as_str());
            line.append("</b>");
            Some(line)
        },
        Some(room) => {
            line.append(" ");
            line.append(room.as_str());
            match lesson.subgroup {
                Some(subgroup) => {
                    let part = decimal_text(subgroup as u64);
                    line.append(" · п/г ");
                    line.append(part.as_str());
                },
                None => {},
            }
            line.append("<b> · ");
            line.append(lesson.name.as_str());
            line.append("</b>");
            line.append("\n");
            Some(line)
        },
    }
}

/// A weekly timetable that can be written as a message body.
pub trait DefaultFormatter {
    /// The body for the day `date`, opened by `emoji`.
    fn format(self, emoji: &str, date: &CalendarDay) -> String;
}

impl DefaultFormatter for DefaultGroup {
    fn format(self, emoji: &str, date: &CalendarDay) -> (body: String)
        ensures
            body@ == default_group_text(emoji@, self, date@),
    {
        let mut body = String::from_str(emoji);
        body.append(" ");
        body.append(date.weekday_str_basic());
        body.append(", ");
        body.append(date.text.as_str());
        body.append(" - <b>стандартное</b> расписание <b>");
        body.append(self.name.as_str());
        body.append("</b>\n\n");
        let ghost head = body@;
        let even_week = date.is_even_week();
        let mut i: usize = 0;
        while i < self.lessons.len()
            invariant
                i <= self.lessons@.len(),
                even_week == in_even_week(date@),
                body@ == with_default_lessons(head, self.lessons@.take(i as int), even_week),
            decreases self.lessons@.len() - i,
        {
            proof {
                let longer = self.lessons@.take(i as int + 1);
                assert(longer.drop_last() =~= self.lessons@.take(i as int));
                assert(longer.last() == self.lessons@[i as int]);
            }
            match format_default_lesson(&self.lessons[i], even_week) {
                Some(line) => {
                    body.append(line.as_str());
                },
                None => {},
            }
            i = i + 1;
        }
        proof {
            assert(self.lessons@.take(i as int) =~= self.lessons@);
        }
        body
    }
}

impl DefaultFormatter for Result<DefaultGroup, ApiError> {
    fn format(self, emoji: &str, date: &CalendarDay) -> (body: String)
        ensures
            body@ == default_result_text(emoji@, self, date@),
    {
        match self {
            Ok(group) => group.format(emoji, date),
            Err(err) => {
                let not_found = String::from_str("default_not_found");
                if err.cause == not_found {
                    let mut body = String::from_str("Стандартное расписание не задано для ");
                    body.append(date.weekday_str());
                    body.append(" 😒");
                    body
                } else {
                    BotError::ApiError(err.cause, err.desc).readable()
                }
            },
        }
    }
}

/// A snapshot that can be written as message bodies.
pub trait SnapshotFormatter {
    /// The body that shows the day of the group `name`, opened by `emoji`;
    /// as an error, the note that the snapshot has nothing for the group.
    fn format_group(&self, emoji: &str, name: &String, today: i64) -> Result<String, String>;

    /// The body that shows the lessons that `teacher` gives.
    fn format_teacher(&self, emoji: &str, teacher: &String) -> String;
}

/// A snapshot that can fall back on the weekly timetable.
pub trait SnapshotFormatterExt {
    /// The body for the group `name`: its day where the snapshot has one,
    /// and else the note that it has none, followed by what the service
    /// answered when asked for the weekly timetable of `date`.
    fn format_or_default(
        &self,
        emoji: &str,
        name: &String,
        date: &CalendarDay,
        today: i64,
        fetched: Result<DefaultGroup, ApiError>,
    ) -> String;
}

impl SnapshotFormatter for Snapshot {
    fn format_group(&self, emoji: &str, name: &String, today: i64) -> (body: Result<
        String,
        String,
    >)
        ensures
            match body {
                Ok(text) => group_index(self.groups@, name@) matches Some(at) && text@
                    == group_text(
                    emoji@,
                    self.groups@[at],
                    self.uid@,
                    self.date@,
                    self.date.timestamp == today,
                ),
                Err(note) => group_index(self.groups@, name@) is None && note@ == missing_note(
                    name@,
                    self.uid@,
                ),
            },
    {
        match self.group(name) {
            Some(group) => Ok(format_group(emoji, group, &self.uid, &self.date, today)),
            None => {
                let mut note = String::from_str("Нет расписания для группы <b>");
                note.append(name.as_str());
                note.append("</b> [<code>");
                note.append(self.uid.as_str());
                note.append("</code>]");
                Err(note)
            },
        }
    }

    fn format_teacher(&self, emoji: &str, teacher: &String) -> (body: String)
        ensures
            body@ == teacher_text(emoji@, *self, teacher@),
    {
        let mut body = String::from_str(emoji);
        body.append(" <b>");
        body.append(self.date.weekday_str_basic());
        body.append("</b> (");
        body.append(self.date.text.as_str());
        body.append(") для <b>");
        body.append(teacher.as_str());
        body.append("</b> [<code>");
        body.append(self.uid.as_str());
        body.append("</code>]\n\n");
        let ghost head = body@;
        let mut g: usize = 0;
        while g < self.groups.len()
            invariant
                g <= self.groups@.len(),
                body@ == with_teacher_groups(head, self.groups@.take(g as int), teacher@),
            decreases self.groups@.len() - g,
        {
            let group = &self.groups[g];
            let ghost start = body@;
            proof {
                let longer = self.groups@.take(g as int + 1);
                assert(longer.drop_last() =~= self.groups@.take(g as int));
                assert(longer.last() == self.groups@[g as int]);
            }
            let mut i: usize = 0;
            while i < group.lessons.len()
                invariant
                    i <= group.lessons@.len(),
                    body@ == with_teacher_lessons(
                        start,
                        group.name@,
                        group.lessons@.take(i as int),
                        teacher@,
                    ),
                decreases group.lessons@.len() - i,
            {
                let lesson = &group.lessons[i];
                proof {
                    let longer = group.lessons@.take(i as int + 1);
                    assert(longer.drop_last() =~= group.lessons@.take(i as int));
                    assert(longer.last() == group.lessons@[i as int]);
                }
                let gives = match &lesson.teacher {
                    Some(who) => *who == *teacher,
                    None => false,
                };
                if gives {
                    let line = format_lesson(lesson);
                    body.append("<b>");
                    body.append(group.name.as_str());
                    body.append("</b> · ");
                    body.append(line.as_str());
                }
                i = i + 1;
            }
            proof {
                assert(group.lessons@.take(i as int) =~= group.lessons@);
            }
            g = g + 1;
        }
        proof {
            assert(self.groups@.take(g as int) =~= self.groups@);
        }
        body
    }
}

impl SnapshotFormatterExt for Snapshot {
    fn format_or_default(
        &self,
        emoji: &str,
        name: &String,
        date: &CalendarDay,
        today: i64,
        fetched: Result<DefaultGroup, ApiError>,
    ) -> (body: String)
        ensures
            body@ == group_or_default_text(emoji@, *self, name@, date@, today as int, fetched),
    {
        match self.format_group(emoji, name, today) {
            Ok(text) => text,
            Err(note) => {
                let default = fetched.format(emoji, date);
                let mut body = note;
                body.append("\n\n");
                body.append(default.as_str());
                body
            },
        }
    }
}

} // verus!
