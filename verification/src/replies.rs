//! What the bot answers to the commands of a chat: the texts, and the
//! decisions that come before a text can be written.

use crate::calendar::{
    day_at, get_next_day, midnight_of, moment_text, moment_text_at, next_school_day_at, CalendarDay,
    CalendarDayView,
};
use crate::callbacks::{Callback, CallbackKind};
use crate::error::BotError;
use crate::settings::Settings;
use crate::text::{
    decimal, decimal_text, parse_signed, parse_unsigned, parsed_signed, parsed_unsigned,
    signed_decimal, signed_decimal_text,
};
use crate::timetable::Fetch;
use vstd::prelude::*;
use vstd::string::{StrSliceExecFns, StringExecFns};

verus! {

/// What a chat without a group is told when it asks for a timetable.
pub open spec fn no_group_text() -> Seq<char> {
    "Ты не указал группу"@
}

/// What a chat without a group is told when it asks for the timetable of
/// a date.
pub open spec fn no_group_for_date_text() -> Seq<char> {
    "Группа не указана"@
}

/// What a chat without a teacher's name is told when it asks for the
/// teacher's lessons.
pub open spec fn no_teacher_text() -> Seq<char> {
    "Имя не указано"@
}

/// What the developer is told about a broadcast without a text.
pub open spec fn empty_broadcast_text() -> Seq<char> {
    "Сообщение пустое"@
}

/// The greeting for a chat that starts the bot.
pub open spec fn greeting_text(username: Seq<char>) -> Seq<char> {
    "Привет, <b>"@ + username
        + "</b>! 🎉\nНа данный момент это что-то типо беты.\nЖелаешь помочь? В /about есть ссылка на гитхаб.\n\nПо всем вопросам/багам/предложениям пиши <a href=\"https://t.me/pashokitsme\">ему</a>.\n\nКак пользоваться ботом, информация о нём, ссылки - всё так же: /about"@
}

/// Writes the greeting for a chat that starts the bot.
pub fn start(username: &String) -> (text: String)
    ensures
        text@ == greeting_text(username@),
{
    let mut text = String::from_str("Привет, <b>");
    text.append(username.as_str());
    text.append(
        "</b>! 🎉\nНа данный момент это что-то типо беты.\nЖелаешь помочь? В /about есть ссылка на гитхаб.\n\nПо всем вопросам/багам/предложениям пиши <a href=\"https://t.me/pashokitsme\">ему</a>.\n\nКак пользоваться ботом, информация о нём, ссылки - всё так же: /about",
    );
    text
}

/// The day that a horizon stands for on the day on which `today` falls.
pub open spec fn day_of_horizon(fetch: Fetch, today: int) -> Option<CalendarDayView> {
    match fetch {
        Fetch::Today => day_at(today),
        Fetch::Next => next_school_day_at(today),
    }
}

/// The day whose timetable a chat asks for: today, or the day of the next
/// lessons. `None` where the calendar does not reach that far.
pub fn day_for(fetch: Fetch, today: i64) -> (day: Option<CalendarDay>)
    ensures
        match day {
            Some(d) => day_of_horizon(fetch, today as int) == Some(d@),
            None => day_of_horizon(fetch, today as int) is None,
        },
{
    match fetch {
        Fetch::Today => CalendarDay::at(today),
        Fetch::Next => get_next_day(today),
    }
}

/// The group whose timetable the chat gets; where the chat has none, the
/// text that says so.
pub fn reply_timetable(settings: &Settings) -> (group: Result<&String, String>)
    ensures
        match group {
            Ok(name) => settings.group == Some(*name),
            Err(text) => settings.group is None && text@ == no_group_text(),
        },
{
    match &settings.group {
        Some(name) => Ok(name),
        None => Err(String::from_str("Ты не указал группу")),
    }
}

/// The group whose timetable of a date the chat gets; where the chat has
/// none, the text that says so.
pub fn dated_group(settings: &Settings) -> (group: Result<&String, String>)
    ensures
        match group {
            Ok(name) => settings.group == Some(*name),
            Err(text) => settings.group is None && text@ == no_group_for_date_text(),
        },
{
    match &settings.group {
        Some(name) => Ok(name),
        None => Err(String::from_str("Группа не указана")),
    }
}

/// The teacher whose lessons the chat gets; where the chat has set no
/// name, the text that says so.
pub fn reply_teacher_timetable(settings: &Settings) -> (teacher: Result<&String, String>)
    ensures
        match teacher {
            Ok(name) => settings.teacher == Some(*name),
            Err(text) => settings.teacher is None && text@ == no_teacher_text(),
        },
{
    match &settings.teacher {
        Some(name) => Ok(name),
        None => Err(String::from_str("Имя не указано")),
    }
}

/// The position of the first dot of `text` at or after `from`; the length
/// of the text where there is none.
pub open spec fn dot_from(text: Seq<char>, from: int) -> int
    decreases text.len() - from,
{
    if from >= text.len() {
        text.len() as int
    } else if text[from] == '.' {
        from
    } else {
        dot_from(text, from + 1)
    }
}

/// The year, the month and the day that a text of the form
/// day.month.year names. The three numbers are the first three pieces
/// between dots; what follows a third dot is not read.
pub open spec fn parsed_date(text: Seq<char>) -> Option<(int, int, int)> {
    let first = dot_from(text, 0);
    if first >= text.len() {
        None
    } else {
        let second = dot_from(text, first + 1);
        if second >= text.len() {
            None
        } else {
            let third = dot_from(text, second + 1);
            match (
                parsed_unsigned(text.subrange(0, first), u32::MAX as int),
                parsed_unsigned(text.subrange(first + 1, second), u32::MAX as int),
                parsed_signed(text.subrange(second + 1, third), i32::MIN as int, i32::MAX as int),
            ) {
                (Some(day), Some(month), Some(year)) => Some((year, month, day)),
                _ => None,
            }
        }
    }
}

/// Finds the first dot of `text` at or after `from`.
fn find_dot(text: &str, from: usize, length: usize) -> (at: usize)
    requires
        from <= length,
        length == text@.len(),
    ensures
        at == dot_from(text@, from as int),
        from <= at <= length,
{
    let mut i: usize = from;
    while i < length
        invariant
            from <= i <= length,
            length == text@.len(),
            dot_from(text@, from as int) == dot_from(text@, i as int),
        decreases length - i,
    {
        if text.get_char(i) == '.' {
            return i;
        }
        i = i + 1;
    }
    i
}

/// Whether `day` is the day that `text` names: the text has the form
/// day.month.year, and the calendar has that day.
pub open spec fn is_date_of(day: CalendarDay, text: Seq<char>) -> bool {
    match parsed_date(text) {
        Some((year, month, date)) => midnight_of(year, month, date) == Some(day@.timestamp)
            && day.wf(),
        None => false,
    }
}

/// Whether `text` names no day: it has not the form day.month.year, or
/// the calendar has no such day.
pub open spec fn names_no_date(text: Seq<char>) -> bool {
    match parsed_date(text) {
        Some((year, month, date)) => match midnight_of(year, month, date) {
            Some(timestamp) => day_at(timestamp) is None,
            None => true,
        },
        None => true,
    }
}

/// Reads a date of the form day.month.year.
pub fn parse_date(rawdate: &str) -> (day: Option<CalendarDay>)
    ensures
        match day {
            Some(d) => is_date_of(d, rawdate@),
            None => names_no_date(rawdate@),
        },
{
    let length: usize = rawdate.unicode_len();
    let first: usize = find_dot(rawdate, 0, length);
    if first >= length {
        return None;
    }
    let second: usize = find_dot(rawdate, first + 1, length);
    if second >= length {
        return None;
    }
    let third: usize = find_dot(rawdate, second + 1, length);
    let date = match parse_unsigned(rawdate, 0, first, 0xffff_ffff) {
        Some(date) => date,
        None => { return None; },
    };
    let month = match parse_unsigned(rawdate, first + 1, second, 0xffff_ffff) {
        Some(month) => month,
        None => { return None; },
    };
    let year = match parse_signed(rawdate, second + 1, third) {
        Some(year) => year,
        None => { return None; },
    };
    CalendarDay::from_ymd(year, month as u32, date as u32)
}

/// The error for a date that could not be read.
pub open spec fn is_bad_date_error(error: BotError) -> bool {
    &&& error matches BotError::InvalidCommandUsage { command, help, example }
    &&& command@ == "/date"@
    &&& help@ == "/date [дата в формате d.m.Y]"@
    &&& example@ == "/date 11.02.2023"@
}

/// The day whose timetable a chat asks for by date; a text that names no
/// day is a wrong use of the command.
pub fn reply_dated_snapshot(rawdate: &str) -> (day: Result<CalendarDay, BotError>)
    ensures
        match day {
            Ok(d) => is_date_of(d, rawdate@),
            Err(error) => names_no_date(rawdate@) && is_bad_date_error(error),
        },
{
    match parse_date(rawdate) {
        Some(day) => Ok(day),
        None => Err(
            BotError::invalid_command("/date", "/date [дата в формате d.m.Y]", "/date 11.02.2023"),
        ),
    }
}

/// The button that makes `group` the chat's group.
pub open spec fn is_group_button(button: Callback<String>, group: Seq<char>) -> bool {
    &&& button.text@ == group
    &&& button.kind matches CallbackKind::SelectGroup(chosen)
    &&& chosen@ == group
}

/// Whether `rows` lays out one button per group, two to a row; a group
/// that is left over at the end gets none.
pub open spec fn is_group_rows(
    rows: Seq<(Callback<String>, Callback<String>)>,
    groups: Seq<String>,
) -> bool {
    &&& rows.len() == groups.len() / 2
    &&& forall|i: int|
        0 <= i < rows.len() ==> is_group_button((#[trigger] rows[i]).0, groups[2 * i]@)
            && is_group_button(rows[i].1, groups[2 * i + 1]@)
}

/// Lays out the buttons from which a chat chooses its group.
pub fn reply_select_group(groups: &Vec<String>) -> (rows: Vec<(Callback<String>, Callback<String>)>)
    ensures
        is_group_rows(rows@, groups@),
{
    let mut rows: Vec<(Callback<String>, Callback<String>)> = Vec::new();
    let mut i: usize = 0;
    while i + 1 < groups.len()
        invariant
            i == 2 * rows@.len(),
            i <= groups@.len(),
            forall|k: int|
                0 <= k < rows@.len() ==> is_group_button((#[trigger] rows@[k]).0, groups@[2 * k]@)
                    && is_group_button(rows@[k].1, groups@[2 * k + 1]@),
        decreases groups@.len() - i,
    {
        let left = Callback::new(groups[i].clone(), CallbackKind::SelectGroup(groups[i].clone()));
        let right = Callback::new(
            groups[i + 1].clone(),
            CallbackKind::SelectGroup(groups[i + 1].clone()),
        );
        rows.push((left, right));
        i = i + 2;
    }
    rows
}

/// The line of one chat in the list of all chats; none where the calendar
/// has no date for the moment at which the chat joined.
pub open spec fn user_line(user: Settings) -> Option<Seq<char>> {
    match moment_text_at(user.joined as int) {
        Some(joined) => {
            let mark = if user.is_notifications_enabled {
                "[+] "@
            } else {
                "[-] "@
            };
            let group = match user.group {
                Some(name) => name@,
                None => "-"@,
            };
            Some(
                mark + " "@ + group + " [<a href=\"tg://user?id="@ + signed_decimal(user.id as int)
                    + "\">#"@ + signed_decimal(user.id as int) + "</a>] с "@ + joined + "\n"@,
            )
        },
        None => None,
    }
}

/// `head` followed by the lines of `users`; none where one of them has no
/// line.
pub open spec fn with_user_lines(head: Seq<char>, users: Seq<Settings>) -> Option<Seq<char>>
    decreases users.len(),
{
    if users.len() == 0 {
        Some(head)
    } else {
        match (with_user_lines(head, users.drop_last()), user_line(users.last())) {
            (Some(earlier), Some(line)) => Some(earlier + line),
            _ => None,
        }
    }
}

/// The list of all chats: how many there are, and a line for each.
pub open spec fn user_list_text(users: Seq<Settings>) -> Option<Seq<char>> {
    with_user_lines("Всего: <b>"@ + decimal(users.len()) + "</b>\n\n"@, users)
}

/// Writes the line of one chat in the list of all chats.
fn format_user(user: &Settings) -> (line: Option<String>)
    ensures
        match line {
            Some(text) => user_line(*user) == Some(text@),
            None => user_line(*user) is None,
        },
{
    let joined = match moment_text(user.joined) {
        Some(joined) => joined,
        None => { return None; },
    };
    let id = signed_decimal_text(user.id);
    let mut line = if user.is_notifications_enabled {
        String::from_str("[+] ")
    } else {
        String::from_str("[-] ")
    };
    line.append(" ");
    match &user.group {
        Some(name) => {
            line.append(name.as_str());
        },
        None => {
            line.append("-");
        },
    }
    line.append(" [<a href=\"tg://user?id=");
    line.append(id.as_str());
    line.append("\">#");
    line.append(id.as_str());
    line.append("</a>] с ");
    line.append(joined.as_str());
    line.append("\n");
    Some(line)
}

/// Writes the list of all chats for the developer; none where the
/// calendar has no date for the moment at which one of them joined.
pub fn dev_reply_user_list(users: &Vec<Settings>) -> (body: Option<String>)
    ensures
        match body {
            Some(text) => user_list_text(users@) == Some(text@),
            None => user_list_text(users@) is None,
        },
{
    let count = decimal_text(users.len() as u64);
    let mut body = String::from_str("Всего: <b>");
    body.append(count.as_str());
    body.append("</b>\n\n");
    let ghost head = body@;
    let mut i: usize = 0;
    while i < users.len()
        invariant
            i <= users@.len(),
            head == "Всего: <b>"@ + decimal(users@.len()) + "</b>\n\n"@,
            with_user_lines(head, users@.take(i as int)) == Some(body@),
        decreases users@.len() - i,
    {
        proof {
            let longer = users@.take(i as int + 1);
            assert(longer.drop_last() =~= users@.take(i as int));
            assert(longer.last() == users@[i as int]);
        }
        match format_user(&users[i]) {
            Some(line) => {
                body.append(line.as_str());
            },
            None => {
                proof {
                    assert(with_user_lines(head, users@.take(i as int + 1)) is None);
                    lemma_user_lines_fail(head, users@, i as int + 1);
                }
                return None;
            },
        }
        i = i + 1;
    }
    proof {
        assert(users@.take(i as int) =~= users@);
    }
    Some(body)
}

/// Where the lines of some of the first chats cannot be written, the list
/// cannot be written.
pub proof fn lemma_user_lines_fail(head: Seq<char>, users: Seq<Settings>, upto: int)
    requires
        0 <= upto <= users.len(),
        with_user_lines(head, users.take(upto)) is None,
    ensures
        with_user_lines(head, users) is None,
    decreases users.len(),
{
    if upto < users.len() {
        assert(users.drop_last().take(upto) =~= users.take(upto));
        lemma_user_lines_fail(head, users.drop_last(), upto);
    } else {
        assert(users.take(upto) =~= users);
    }
}

/// The first step of a broadcast.
#[derive(Debug)]
pub enum BroadcastPreview {
    /// There is nothing to send: tell the developer so.
    Refuse(String),
    /// Show the developer this preview, with a button to remove it.
    Preview(String),
}

/// The second step of a broadcast, once the preview has been sent.
#[derive(Debug)]
pub enum BroadcastConfirmation {
    /// The preview could not be sent: show the developer why, with a
    /// button to remove the message.
    Report(String),
    /// Ask the developer to confirm: show the text with a button to remove
    /// it and a button to send it.
    Ask { body: String, cancel: CallbackKind, confirm: CallbackKind },
}

/// The preview of a broadcast.
pub open spec fn preview_text(body: Seq<char>) -> Seq<char> {
    "Превью:\n"@ + body
}

/// Decides how a broadcast begins: an empty text is refused, any other is
/// shown to the developer first.
pub fn dev_send_broadcast_agreement(body: &String) -> (step: BroadcastPreview)
    ensures
        match step {
            BroadcastPreview::Refuse(text) => body@.len() == 0 && text@ == empty_broadcast_text(),
            BroadcastPreview::Preview(text) => body@.len() > 0 && text@ == preview_text(body@),
        },
{
    if body.as_str().is_empty() {
        BroadcastPreview::Refuse(String::from_str("Сообщение пустое"))
    } else {
        let mut text = String::from_str("Превью:\n");
        text.append(body.as_str());
        BroadcastPreview::Preview(text)
    }
}

/// Decides how a broadcast goes on after its preview: a preview that
/// could not be sent ends it with the reason, one that could asks for the
/// confirmation.
pub fn confirm_broadcast(body: &String, preview: Result<(), String>) -> (step:
    BroadcastConfirmation)
    ensures
        match preview {
            Err(reason) => step == BroadcastConfirmation::Report(reason),
            Ok(_) => {
                &&& step matches BroadcastConfirmation::Ask { body: text, cancel, confirm }
                &&& text@ == body@
                &&& cancel == CallbackKind::Del
                &&& confirm == CallbackKind::SendBroadcast
            },
        },
{
    match preview {
        Err(reason) => BroadcastConfirmation::Report(reason),
        Ok(_) => BroadcastConfirmation::Ask {
            body: body.clone(),
            cancel: CallbackKind::Del,
            confirm: CallbackKind::SendBroadcast,
        },
    }
}

} // verus!
