use maiq_bot::api::{answer_kind, latest, poll, snapshot, AnswerKind, STATUS_OK};
use maiq_bot::calendar::{get_next_day, moment_text, CalendarDay, Weekday};
use maiq_bot::callbacks::{Callback, CallbackAction, CallbackKind};
use maiq_bot::commands::{failure_reply, is_developer, Command, DevCommand, Request};
use maiq_bot::dialogues::State;
use maiq_bot::env::{
    check, check_env_vars, parse_var, API_HOST, DB_URL, DEFAULT_DB, DEV_ID, TELOXIDE_TOKEN,
};
use maiq_bot::error::{ApiError, BotError, ReadableError};
use maiq_bot::replies::{
    confirm_broadcast, dated_group, day_for, dev_reply_user_list, dev_send_broadcast_agreement, parse_date,
    reply_dated_snapshot, reply_select_group, reply_teacher_timetable, reply_timetable, start,
    BroadcastConfirmation, BroadcastPreview,
};
use maiq_bot::settings::Settings;
use maiq_bot::text::{decimal_text, parse_digits, parse_signed, parse_unsigned, signed_decimal_text};
use maiq_bot::timetable::Fetch;

const SATURDAY: i64 = 1_676_073_600;
const SUNDAY: i64 = 1_676_160_000;
const MONDAY: i64 = 1_676_246_400;
const FRIDAY: i64 = 1_675_987_200;

fn text(s: &str) -> String {
    s.to_string()
}

#[test]
fn calendar_day_of_the_epoch() {
    let day = CalendarDay::at(0).unwrap();
    assert_eq!(day.timestamp, 0);
    assert_eq!(day.weekday, Weekday::Thu);
    assert_eq!(day.iso_week, 1);
    assert_eq!(day.text, "01.01.1970");
}

#[test]
fn calendar_day_within_a_day_and_before_the_epoch() {
    let day = CalendarDay::at(SATURDAY + 86_399).unwrap();
    assert_eq!(day.weekday, Weekday::Sat);
    assert_eq!(day.text, "11.02.2023");
    assert_eq!(day.iso_week, 6);
    let before = CalendarDay::at(-1).unwrap();
    assert_eq!(before.weekday, Weekday::Wed);
    assert_eq!(before.text, "31.12.1969");
    assert_eq!(before.iso_week, 1);
}

#[test]
fn calendar_has_every_weekday() {
    let expected = [
        Weekday::Mon,
        Weekday::Tue,
        Weekday::Wed,
        Weekday::Thu,
        Weekday::Fri,
        Weekday::Sat,
        Weekday::Sun,
    ];
    for (offset, weekday) in expected.iter().enumerate() {
        let day = CalendarDay::at(MONDAY + 86_400 * offset as i64).unwrap();
        assert_eq!(day.weekday, *weekday);
    }
}

#[test]
fn calendar_does_not_reach_the_far_ends() {
    assert!(CalendarDay::at(i64::MAX).is_none());
    assert!(CalendarDay::at(i64::MIN).is_none());
    assert!(get_next_day(i64::MAX).is_none());
    assert!(get_next_day(i64::MAX - 2 * 86_400).is_none());
    assert!(moment_text(i64::MAX).is_none());
}

#[test]
fn calendar_day_from_year_month_day() {
    let day = CalendarDay::from_ymd(2023, 2, 11).unwrap();
    assert_eq!(day.timestamp, SATURDAY);
    assert_eq!(day.weekday, Weekday::Sat);
    assert_eq!(day.text, "11.02.2023");
    assert!(CalendarDay::from_ymd(2023, 2, 29).is_none());
    assert!(CalendarDay::from_ymd(2024, 2, 29).is_some());
    assert!(CalendarDay::from_ymd(2023, 13, 1).is_none());
    assert!(CalendarDay::from_ymd(2023, 0, 1).is_none());
}

#[test]
fn next_day_skips_the_sunday() {
    assert_eq!(get_next_day(FRIDAY).unwrap().text, "11.02.2023");
    let after_saturday = get_next_day(SATURDAY).unwrap();
    assert_eq!(after_saturday.weekday, Weekday::Mon);
    assert_eq!(after_saturday.timestamp, MONDAY);
    assert_eq!(get_next_day(SUNDAY).unwrap().timestamp, MONDAY);
    assert_eq!(get_next_day(MONDAY).unwrap().weekday, Weekday::Tue);
}

#[test]
fn weekday_follows_the_days_since_the_epoch() {
    let order = [
        Weekday::Mon,
        Weekday::Tue,
        Weekday::Wed,
        Weekday::Thu,
        Weekday::Fri,
        Weekday::Sat,
        Weekday::Sun,
    ];
    let mut samples: Vec<i64> = vec![0, -1, 1, 86_399, 86_400, -86_400, -86_401, SATURDAY, MONDAY];
    let mut step: i64 = 1;
    while step < 9_000_000_000_000 {
        for sign in [-1i64, 1] {
            for nudge in [-86_401i64, -1, 0, 1, 86_399] {
                samples.push(sign * step + nudge);
            }
        }
        step = step * 3 + 7;
    }
    for days in -3_000..3_000i64 {
        samples.push(days * 86_400 * 997 + 43_200);
    }
    let mut dated = 0;
    for timestamp in samples {
        if let Some(day) = CalendarDay::at(timestamp) {
            let index = (timestamp.div_euclid(86_400) + 3).rem_euclid(7) as usize;
            assert_eq!(day.weekday, order[index], "at {}", timestamp);
            dated += 1;
        }
    }
    assert!(dated > 6_000);
    let mut low: i64 = 0;
    let mut high: i64 = i64::MAX;
    while high - low > 1 {
        let middle = low + (high - low) / 2;
        if CalendarDay::at(middle).is_some() {
            low = middle;
        } else {
            high = middle;
        }
    }
    for timestamp in [low, low - 86_400, -low, -low - 86_400 * 365] {
        if let Some(day) = CalendarDay::at(timestamp) {
            let index = (timestamp.div_euclid(86_400) + 3).rem_euclid(7) as usize;
            assert_eq!(day.weekday, order[index], "at {}", timestamp);
        }
    }
    assert!(CalendarDay::at(low).is_some());
}

#[test]
fn group_name_is_judged_on_its_own() {
    assert!(Settings::check_group_name(&text("Ир3-21")).is_ok());
    assert!(Settings::check_group_name(&text("abcdefghij")).is_ok());
    for bad in ["", "abcdefghijk", "Группа"] {
        match Settings::check_group_name(&text(bad)) {
            Err(BotError::InvalidCommandUsage { command, help, example }) => {
                assert_eq!(command, "/set_group");
                assert_eq!(help, "/set_group [группа: длина &lt; 10]");
                assert_eq!(example, "/set_group Ир3-21");
            }
            _ => panic!("{:?} is no name for a group", bad),
        }
    }
}

#[test]
fn day_for_a_horizon() {
    assert_eq!(day_for(Fetch::Today, SATURDAY).unwrap().text, "11.02.2023");
    assert_eq!(day_for(Fetch::Next, SATURDAY).unwrap().text, "13.02.2023");
    assert!(day_for(Fetch::Today, i64::MIN).is_none());
}

#[test]
fn moment_as_text() {
    assert_eq!(moment_text(0), Some(text("01/01/1970 00:00:00")));
    assert_eq!(moment_text(SATURDAY * 1000 + 3_723_004), Some(text("11/02/2023 01:02:03")));
}

#[test]
fn decimal_text_of_numbers() {
    assert_eq!(decimal_text(0), "0");
    assert_eq!(decimal_text(7), "7");
    assert_eq!(decimal_text(10), "10");
    assert_eq!(decimal_text(1234567890), "1234567890");
    assert_eq!(decimal_text(u64::MAX), "18446744073709551615");
    assert_eq!(signed_decimal_text(0), "0");
    assert_eq!(signed_decimal_text(-1), "-1");
    assert_eq!(signed_decimal_text(i64::MAX), "9223372036854775807");
    assert_eq!(signed_decimal_text(i64::MIN), "-9223372036854775808");
}

#[test]
fn digits_are_read_within_bounds() {
    assert_eq!(parse_digits("2023", 0, 4, 9999), Some(2023));
    assert_eq!(parse_digits("x2023y", 1, 5, 9999), Some(2023));
    assert_eq!(parse_digits("2023", 0, 4, 2022), None);
    assert_eq!(parse_digits("2023", 0, 4, 2023), Some(2023));
    assert_eq!(parse_digits("2023", 2, 2, 9999), None);
    assert_eq!(parse_digits("20a3", 0, 4, 9999), None);
    assert_eq!(parse_digits("0007", 0, 4, 9), Some(7));
    assert_eq!(parse_digits("٣", 0, 1, 9), None);
    assert_eq!(parse_digits("18446744073709551615", 0, 20, u64::MAX), Some(u64::MAX));
    assert_eq!(parse_digits("18446744073709551616", 0, 20, u64::MAX), None);
    assert_eq!(parse_digits("99999999999999999999999", 0, 23, u64::MAX), None);
}

#[test]
fn signs_are_read_as_the_standard_library_reads_them() {
    for sample in ["0", "+5", "-5", "+", "-", "", "2147483647", "2147483648", "-2147483648", "-2147483649", "++1", "+-1", " 1", "1 ", "-0", "007"] {
        let length = sample.chars().count();
        assert_eq!(parse_signed(sample, 0, length), sample.parse::<i32>().ok(), "{:?}", sample);
        assert_eq!(
            parse_unsigned(sample, 0, length, u32::MAX as u64),
            sample.parse::<u32>().ok().map(|v| v as u64),
            "{:?}",
            sample
        );
    }
    assert_eq!(parse_unsigned("4294967295", 0, 10, u32::MAX as u64), Some(4294967295));
    assert_eq!(parse_unsigned("4294967296", 0, 10, u32::MAX as u64), None);
}

#[test]
fn variable_as_a_number() {
    assert_eq!(parse_var(Some(&text("12345"))), Some(12345));
    assert_eq!(parse_var(Some(&text("+12"))), Some(12));
    assert_eq!(parse_var(Some(&text("18446744073709551615"))), Some(u64::MAX));
    assert_eq!(parse_var(Some(&text("18446744073709551616"))), None);
    assert_eq!(parse_var(Some(&text(""))), None);
    assert_eq!(parse_var(Some(&text("-1"))), None);
    assert_eq!(parse_var(Some(&text("12a"))), None);
    assert_eq!(parse_var(None), None);
}

#[test]
fn variables_are_checked_for_presence() {
    let set = text("x");
    assert!(check(Some(&set)));
    assert!(check(Some(&text(""))));
    assert!(!check(None));
    assert!(check_env_vars(Some(&set), Some(&set), Some(&set), Some(&set)));
    assert!(!check_env_vars(None, Some(&set), Some(&set), Some(&set)));
    assert!(!check_env_vars(Some(&set), None, Some(&set), Some(&set)));
    assert!(!check_env_vars(Some(&set), Some(&set), None, Some(&set)));
    assert!(!check_env_vars(Some(&set), Some(&set), Some(&set), None));
    assert!(!check_env_vars(None, None, None, None));
}

#[test]
fn variable_names() {
    assert_eq!(TELOXIDE_TOKEN, "TELOXIDE_TOKEN");
    assert_eq!(DEV_ID, "DEV_ID");
    assert_eq!(API_HOST, "API_HOST");
    assert_eq!(DB_URL, "DATABASE_CONNECTION_URL");
    assert_eq!(DEFAULT_DB, "DEFAULT_DATABASE_NAME");
}

#[test]
fn error_texts_for_the_chat() {
    let usage = BotError::invalid_command("/date", "/date [d.m.Y]", "/date 11.02.2023");
    assert_eq!(
        usage.readable(),
        "Неправильное использование команды <code>/date</code>\nИспользование: /date [d.m.Y]\nПример: <code>/date 11.02.2023</code>"
    );
    assert_eq!(
        BotError::ApiError(text("db"), text("down")).readable(),
        "Ошибка API 😓\nПричина: db.\nОписание: down"
    );
    assert_eq!(BotError::MongoError(text("m")).readable(), "Ошибка MongoDB 😓.\nСообщение: m");
    assert_eq!(
        BotError::TeloxideApiError(text("a")).readable(),
        "Ошибка Teloxide API 😓.\nСообщение: a"
    );
    assert_eq!(
        BotError::TeloxideRequestError(text("r")).readable(),
        "Ошибка Teloxide Request 😓.\nСообщение: r"
    );
    assert_eq!(
        BotError::TeloxideInMemStorageError(text("s")).readable(),
        "Ошибка InMemStorage 😓.\nСообщение: s"
    );
}

#[test]
fn error_texts_for_the_log() {
    let usage = BotError::invalid_command("/date", "h", "e");
    assert_eq!(usage.message(), "/date: invalid command usage");
    assert_eq!(BotError::ApiError(text("db"), text("down")).message(), "api-error: db: down");
    assert_eq!(BotError::MongoError(text("m")).message(), "mongo-db error: m");
    assert_eq!(BotError::TeloxideApiError(text("a")).message(), "teloxide-api error: a");
    assert_eq!(BotError::TeloxideRequestError(text("r")).message(), "teloxide-request error: r");
    assert_eq!(BotError::TeloxideInMemStorageError(text("s")).message(), "storage-error: s");
}

#[test]
fn api_error_becomes_a_bot_error() {
    let error = BotError::from(ApiError { cause: text("c"), desc: text("d") });
    match error {
        BotError::ApiError(cause, desc) => {
            assert_eq!(cause, "c");
            assert_eq!(desc, "d");
        }
        _ => panic!("an error of the service stays one"),
    }
}

#[test]
fn new_settings_have_nothing_set() {
    let settings = Settings::new(42, 1_000);
    assert_eq!(settings.id, 42);
    assert_eq!(settings.group, None);
    assert_eq!(settings.teacher, None);
    assert!(!settings.is_notifications_enabled);
    assert_eq!(settings.joined, 1_000);
    assert_eq!(Settings::new(u64::MAX, 0).id, -1);
    assert_eq!(Settings::new(i64::MAX as u64, 0).id, i64::MAX);
    assert_eq!(Settings::new(i64::MAX as u64 + 1, 0).id, i64::MIN);
}

#[test]
fn toggling_flips_the_switch() {
    let mut settings = Settings::new(1, 0);
    assert_eq!(settings.toggle_notifications(), "true");
    assert!(settings.is_notifications_enabled);
    assert_eq!(settings.toggle_notifications(), "false");
    assert!(!settings.is_notifications_enabled);
}

#[test]
fn teacher_is_set_and_removed() {
    let mut settings = Settings::new(1, 0);
    assert_eq!(settings.set_teacher(&text("Иванов И.И.")), "Имя: Иванов И.И.");
    assert_eq!(settings.teacher, Some(text("Иванов И.И.")));
    assert_eq!(settings.set_teacher(&text("")), "Имя удалено");
    assert_eq!(settings.teacher, None);
}

#[test]
fn group_is_set_when_the_name_will_do() {
    let mut settings = Settings::new(1, 0);
    let reply = settings.set_group(&text("Ир3-21")).unwrap();
    assert_eq!(reply, "Теперь твоя группа: <code>Ир3-21</code>");
    assert_eq!(settings.group, Some(text("Ир3-21")));
    assert!(settings.is_notifications_enabled);
    assert!(settings.set_group(&text("abcdefghij")).is_ok());
    assert_eq!(settings.group, Some(text("abcdefghij")));
}

#[test]
fn group_is_refused_when_empty_or_too_long() {
    let mut settings = Settings::new(1, 0);
    for bad in ["", "abcdefghijk", "Группа"] {
        match settings.set_group(&text(bad)) {
            Err(BotError::InvalidCommandUsage { command, help, example }) => {
                assert_eq!(command, "/set_group");
                assert_eq!(help, "/set_group [группа: длина &lt; 10]");
                assert_eq!(example, "/set_group Ир3-21");
            }
            _ => panic!("{:?} is no name for a group", bad),
        }
        assert_eq!(settings.group, None);
        assert!(!settings.is_notifications_enabled);
    }
}

#[test]
fn group_is_selected_by_button() {
    let mut settings = Settings::new(1, 0);
    settings.teacher = Some(text("T"));
    assert_eq!(
        settings.select_group(&text("Очень длинная группа")),
        "Теперь твоя группа: <code>Очень длинная группа</code>"
    );
    assert_eq!(settings.group, Some(text("Очень длинная группа")));
    assert!(settings.is_notifications_enabled);
    assert_eq!(settings.teacher, Some(text("T")));
}

#[test]
fn greeting_names_the_chat() {
    assert_eq!(
        start(&text("Паша")),
        "Привет, <b>Паша</b>! 🎉\nНа данный момент это что-то типо беты.\nЖелаешь помочь? В /about есть ссылка на гитхаб.\n\nПо всем вопросам/багам/предложениям пиши <a href=\"https://t.me/pashokitsme\">ему</a>.\n\nКак пользоваться ботом, информация о нём, ссылки - всё так же: /about"
    );
}

#[test]
fn timetable_needs_a_group_and_a_teacher_a_name() {
    let mut settings = Settings::new(1, 0);
    assert_eq!(reply_timetable(&settings), Err(text("Ты не указал группу")));
    assert_eq!(reply_teacher_timetable(&settings), Err(text("Имя не указано")));
    assert_eq!(dated_group(&settings), Err(text("Группа не указана")));
    settings.group = Some(text("G1"));
    assert_eq!(dated_group(&settings), Ok(&text("G1")));
    settings.teacher = Some(text("Иванов"));
    assert_eq!(reply_timetable(&settings), Ok(&text("G1")));
    assert_eq!(reply_teacher_timetable(&settings), Ok(&text("Иванов")));
}

#[test]
fn dates_are_read() {
    assert_eq!(parse_date("11.02.2023").unwrap().timestamp, SATURDAY);
    assert_eq!(parse_date("11.2.2023").unwrap().text, "11.02.2023");
    assert_eq!(parse_date("+11.+2.+2023").unwrap().text, "11.02.2023");
    assert_eq!(parse_date("11.02.2023.99").unwrap().text, "11.02.2023");
    assert_eq!(parse_date("1.1.1970").unwrap().timestamp, 0);
    assert_eq!(parse_date("31.12.-1").unwrap().weekday, Weekday::Fri);
    for bad in ["", "11", "11.02", "11.02.", ".02.2023", "11..2023", "29.02.2023", "0.1.2023", "1.13.2023", "a.b.c", "11,02,2023", "11.02.2023 ", "-1.02.2023", "11.02.99999999999"] {
        assert!(parse_date(bad).is_none(), "{:?}", bad);
    }
}

#[test]
fn dated_request_is_a_day_or_a_wrong_use() {
    assert_eq!(reply_dated_snapshot("13.02.2023").unwrap().weekday, Weekday::Mon);
    match reply_dated_snapshot("yesterday") {
        Err(BotError::InvalidCommandUsage { command, help, example }) => {
            assert_eq!(command, "/date");
            assert_eq!(help, "/date [дата в формате d.m.Y]");
            assert_eq!(example, "/date 11.02.2023");
        }
        _ => panic!("no date was given"),
    }
}

#[test]
fn group_buttons_come_in_pairs() {
    let groups: Vec<String> = ["A", "B", "C", "D", "E"].iter().map(|g| g.to_string()).collect();
    let rows = reply_select_group(&groups);
    assert_eq!(rows.len(), 2);
    let names: Vec<(&str, &str)> =
        rows.iter().map(|(l, r)| (l.text.as_str(), r.text.as_str())).collect();
    assert_eq!(names, vec![("A", "B"), ("C", "D")]);
    assert!(matches!(&rows[1].0.kind, CallbackKind::SelectGroup(g) if g == "C"));
    assert!(matches!(&rows[1].1.kind, CallbackKind::SelectGroup(g) if g == "D"));
    assert!(reply_select_group(&vec![text("A")]).is_empty());
    assert!(reply_select_group(&vec![]).is_empty());
}

#[test]
fn user_list_for_the_developer() {
    let mut first = Settings::new(5, SATURDAY * 1000);
    first.group = Some(text("G1"));
    first.is_notifications_enabled = true;
    let mut second = Settings::new(0, 0);
    second.id = -7;
    assert_eq!(
        dev_reply_user_list(&vec![first, second]),
        Some(text(
            "Всего: <b>2</b>\n\n[+]  G1 [<a href=\"tg://user?id=5\">#5</a>] с 11/02/2023 00:00:00\n[-]  - [<a href=\"tg://user?id=-7\">#-7</a>] с 01/01/1970 00:00:00\n"
        ))
    );
    assert_eq!(dev_reply_user_list(&vec![]), Some(text("Всего: <b>0</b>\n\n")));
    assert_eq!(dev_reply_user_list(&vec![Settings::new(1, i64::MAX)]), None);
}

#[test]
fn broadcast_is_previewed_and_confirmed() {
    match dev_send_broadcast_agreement(&text("")) {
        BroadcastPreview::Refuse(reply) => assert_eq!(reply, "Сообщение пустое"),
        BroadcastPreview::Preview(_) => panic!("there is nothing to preview"),
    }
    match dev_send_broadcast_agreement(&text("Завтра выходной")) {
        BroadcastPreview::Preview(preview) => assert_eq!(preview, "Превью:\nЗавтра выходной"),
        BroadcastPreview::Refuse(_) => panic!("the text is not empty"),
    }
    match confirm_broadcast(&text("Завтра выходной"), Ok(())) {
        BroadcastConfirmation::Ask { body, cancel, confirm } => {
            assert_eq!(body, "Завтра выходной");
            assert!(matches!(cancel, CallbackKind::Del));
            assert!(matches!(confirm, CallbackKind::SendBroadcast));
        }
        BroadcastConfirmation::Report(_) => panic!("the preview was sent"),
    }
    match confirm_broadcast(&text("<b"), Err(text("can't parse entities"))) {
        BroadcastConfirmation::Report(reason) => assert_eq!(reason, "can't parse entities"),
        BroadcastConfirmation::Ask { .. } => panic!("the preview failed"),
    }
}

#[test]
fn commands_ask_for_their_requests() {
    assert!(matches!(Command::Start.dispatch(), Request::Greet));
    assert!(matches!(Command::About.dispatch(), Request::ShowAbout));
    assert!(matches!(Command::Links.dispatch(), Request::ShowLinks));
    assert!(matches!(Command::ToggleNotifications.dispatch(), Request::ToggleNotifications));
    assert!(matches!(Command::SelectGroup.dispatch(), Request::OfferGroups));
    assert!(matches!(Command::Today.dispatch(), Request::ShowTimetable(Fetch::Today)));
    assert!(matches!(Command::Next.dispatch(), Request::ShowTimetable(Fetch::Next)));
    assert!(matches!(Command::DefaultToday.dispatch(), Request::ShowDefault(Fetch::Today)));
    assert!(matches!(Command::DefaultNext.dispatch(), Request::ShowDefault(Fetch::Next)));
    assert!(matches!(Command::TeacherToday.dispatch(), Request::ShowTeacherTimetable(Fetch::Today)));
    assert!(matches!(Command::TeacherNext.dispatch(), Request::ShowTeacherTimetable(Fetch::Next)));
    assert!(matches!(Command::Date(text("1.1.2023")).dispatch(), Request::ShowDate(d) if d == "1.1.2023"));
    assert!(matches!(Command::SetTeacher(text("И")).dispatch(), Request::SetTeacher(n) if n == "И"));
    assert!(matches!(DevCommand::DevNotifiables.dispatch(), Request::ShowNotifiables));
    assert!(matches!(DevCommand::DevUserList.dispatch(), Request::ShowUsers));
    assert!(matches!(DevCommand::Broadcast(text("b")).dispatch(), Request::PreviewBroadcast(b) if b == "b"));
}

#[test]
fn developer_commands_are_for_the_developer() {
    assert!(is_developer(7, 7));
    assert!(!is_developer(8, 7));
    assert!(is_developer(0, 0));
}

#[test]
fn failed_command_is_answered_with_the_error() {
    assert_eq!(failure_reply(&Ok(())), None);
    let failed = Err(BotError::MongoError(text("down")));
    assert_eq!(failure_reply(&failed), Some(text("Ошибка MongoDB 😓.\nСообщение: down")));
}

#[test]
fn buttons_ask_for_their_actions() {
    assert!(matches!(CallbackKind::Okay.dispatch(1, 9), CallbackAction::Answer));
    assert!(matches!(CallbackKind::Del.dispatch(1, 9), CallbackAction::DeleteMessage));
    assert!(matches!(CallbackKind::SendBroadcast.dispatch(9, 9), CallbackAction::Broadcast));
    assert!(matches!(CallbackKind::SendBroadcast.dispatch(1, 9), CallbackAction::Ignore));
    assert!(matches!(
        CallbackKind::Unknown.dispatch(1, 9),
        CallbackAction::Alert(t) if t == "Я не знаю, что делать с этой кнопкой 🤕"
    ));
    assert!(matches!(
        CallbackKind::SelectGroup(text("G")).dispatch(1, 9),
        CallbackAction::SelectGroup(g) if g == "G"
    ));
    assert!(matches!(CallbackKind::or_unknown(None), CallbackKind::Unknown));
    assert!(matches!(CallbackKind::or_unknown(Some(CallbackKind::Del)), CallbackKind::Del));
    let button = Callback::new("X", CallbackKind::Del);
    assert_eq!(button.text, "X");
    assert!(matches!(button.kind, CallbackKind::Del));
}

#[test]
fn addresses_of_the_service() {
    let host = text("https://api.example");
    assert_eq!(latest(&host, Fetch::Today), "https://api.example/latest/today");
    assert_eq!(latest(&host, Fetch::Next), "https://api.example/latest/next");
    assert_eq!(snapshot(&host, &text("g5q98alka3")), "https://api.example/snapshot/g5q98alka3");
    assert_eq!(poll(&host), "https://api.example/poll");
    assert_eq!(maiq_bot::api::default(&host, &text("Ир3-21"), Weekday::Mon), "https://api.example/default/Mon/Ир3-21");
    let days = [
        (Weekday::Tue, "Tue"),
        (Weekday::Wed, "Wed"),
        (Weekday::Thu, "Thu"),
        (Weekday::Fri, "Fri"),
        (Weekday::Sat, "Sat"),
        (Weekday::Sun, "Sun"),
    ];
    for (day, name) in days {
        assert_eq!(maiq_bot::api::default(&text(""), &text("G"), day), format!("/default/{}/G", name));
    }
}

#[test]
fn answers_are_read_by_their_status() {
    assert_eq!(STATUS_OK, 200);
    assert_eq!(answer_kind(200), AnswerKind::Payload);
    for status in [0, 199, 201, 204, 301, 404, 500, u16::MAX] {
        assert_eq!(answer_kind(status), AnswerKind::Failure);
    }
}

#[test]
fn transport_error_names_its_cause() {
    let error = ApiError::transport(text("connection reset"));
    assert_eq!(error.cause, "reqwest");
    assert_eq!(error.desc, "connection reset");
}

#[test]
fn known_settings_are_kept_and_unknown_chats_get_new_ones() {
    let mut known = Settings::new(5, 10);
    known.group = Some(text("G1"));
    let (kept, is_new) = Settings::found_or_new(Some(known.clone()), 5, 99);
    assert!(!is_new);
    assert_eq!(kept.group, Some(text("G1")));
    assert_eq!(kept.joined, 10);
    let (fresh, is_new) = Settings::found_or_new(None, 6, 99);
    assert!(is_new);
    assert_eq!(fresh.id, 6);
    assert_eq!(fresh.joined, 99);
    assert_eq!(fresh.group, None);
    assert!(!fresh.is_notifications_enabled);
}

#[test]
fn dialogue_begins_at_the_start() {
    assert!(matches!(State::default(), State::Start));
    assert_eq!(maiq_bot::dialogues::start(), "Привет. Введи свою группу");
    let named = State::GroupName { group: text("G1") };
    assert!(matches!(named.clone(), State::GroupName { group } if group == "G1"));
}
