use maiq_bot::changes::{kind_of, ChangeKind, ChangeSet, PollResult};
use maiq_bot::error::ApiError;
use maiq_bot::names::NameMap;
use maiq_bot::poller::{
    mode, plan_horizon, wait, Clock, PollAction, Poller, PollerMode, MAX_WAIT_MILLIS,
    MIN_WAIT_MILLIS, RETRY_MILLIS,
};

fn change_set(uid: Option<&str>, pairs: &[(&str, &str)]) -> ChangeSet {
    let mut groups = NameMap::new();
    for (name, version) in pairs {
        groups.insert(name.to_string(), version.to_string());
    }
    ChangeSet { uid: uid.map(|u| u.to_string()), groups }
}

fn poll(next_update: i64, today: ChangeSet, next: ChangeSet) -> PollResult {
    PollResult { next_update, today, next }
}

#[test]
fn wait_is_clamped_from_below_for_a_time_in_the_past() {
    assert_eq!(wait(1_000, 5_000_000), 10_000);
    assert_eq!(wait(5_000_000, 5_000_000), 10_000);
    assert_eq!(wait(5_009_999, 5_000_000), 10_000);
    assert_eq!(wait(i64::MIN, i64::MAX), MIN_WAIT_MILLIS);
}

#[test]
fn wait_is_clamped_from_above_for_a_time_far_ahead() {
    let now: i64 = 1_676_073_600_000;
    assert_eq!(wait(now + 86_400_001, now), 86_400_000);
    assert_eq!(wait(now + 10 * 86_400_000, now), 86_400_000);
    assert_eq!(wait(i64::MAX, i64::MIN), MAX_WAIT_MILLIS);
}

#[test]
fn wait_within_the_bounds_is_the_time_left() {
    let now: i64 = 1_676_073_600_000;
    assert_eq!(wait(now + 10_000, now), 10_000);
    assert_eq!(wait(now + 10_001, now), 10_001);
    assert_eq!(wait(now + 3_600_000, now), 3_600_000);
    assert_eq!(wait(now + 86_400_000, now), 86_400_000);
}

#[test]
fn mode_follows_the_hour() {
    assert_eq!(mode(0), PollerMode::Quiescent);
    assert_eq!(mode(21_599), PollerMode::Quiescent);
    assert_eq!(mode(21_600), PollerMode::Active);
    assert_eq!(mode(86_399), PollerMode::Active);
}

#[test]
fn sleep_at_night_lasts_until_six() {
    let poller = Poller::starting_with(poll(0, change_set(None, &[]), change_set(None, &[])));
    let clock = Clock { now_millis: 1_676_073_600_000, second_of_day: 0 };
    assert_eq!(poller.sleep_before_poll(clock), 21_600_000);
    let clock = Clock { now_millis: 1_676_073_600_000, second_of_day: 21_599 };
    assert_eq!(poller.sleep_before_poll(clock), 1_000);
    let clock = Clock { now_millis: 1_676_073_600_000, second_of_day: 3_600 };
    assert_eq!(poller.sleep_before_poll(clock), 18_000_000);
}

#[test]
fn sleep_by_day_waits_for_the_next_update() {
    let now: i64 = 1_676_073_600_000;
    let poller =
        Poller::starting_with(poll(now + 60_000, change_set(None, &[]), change_set(None, &[])));
    let clock = Clock { now_millis: now, second_of_day: 21_600 };
    assert_eq!(poller.sleep_before_poll(clock), 60_000);
    let late = Clock { now_millis: now + 120_000, second_of_day: 50_000 };
    assert_eq!(poller.sleep_before_poll(late), 10_000);
    let early = Clock { now_millis: now - 2 * 86_400_000, second_of_day: 50_000 };
    assert_eq!(poller.sleep_before_poll(early), 86_400_000);
}

#[test]
fn a_poller_without_a_poll_does_not_wait_by_day() {
    let poller = Poller::new();
    assert!(poller.last_poll().is_none());
    let clock = Clock { now_millis: 1_676_073_600_000, second_of_day: 40_000 };
    assert_eq!(poller.sleep_before_poll(clock), 0);
}

#[test]
fn failed_poll_asks_for_a_retry_and_keeps_the_baseline() {
    let first = poll(77, change_set(Some("t1"), &[("M1", "u1")]), change_set(None, &[]));
    let mut poller = Poller::starting_with(first);
    let failure = ApiError { cause: "reqwest".to_string(), desc: "timeout".to_string() };
    match poller.on_poll(Err(failure)) {
        PollAction::Retry { millis } => {
            assert_eq!(millis, 10_000);
            assert_eq!(millis, RETRY_MILLIS);
        }
        PollAction::Announce { .. } => panic!("a failed poll announces nothing"),
    }
    let kept = poller.last_poll().unwrap();
    assert_eq!(kept.next_update, 77);
    assert_eq!(kept.today.uid, Some("t1".to_string()));
    assert_eq!(kept.today.groups.get(&"M1".to_string()), Some(&"u1".to_string()));
}

#[test]
fn successful_poll_plans_changed_horizons_and_becomes_the_baseline() {
    let first = poll(1, change_set(Some("t1"), &[("M1", "u1")]), change_set(Some("n1"), &[("M1", "v1")]));
    let mut poller = Poller::starting_with(first);
    let second = poll(
        2,
        change_set(Some("t2"), &[("M1", "u2"), ("M2", "u3")]),
        change_set(Some("n1"), &[("M1", "v1")]),
    );
    match poller.on_poll(Ok(second)) {
        PollAction::Announce { today, next } => {
            let today = today.expect("today has news");
            assert_eq!(today.uid, "t2");
            assert_eq!(kind_of(&today.changes, &"M1".to_string()), ChangeKind::Updated);
            assert_eq!(kind_of(&today.changes, &"M2".to_string()), ChangeKind::New);
            assert!(next.is_none());
        }
        PollAction::Retry { .. } => panic!("a successful poll is not retried"),
    }
    let kept = poller.last_poll().unwrap();
    assert_eq!(kept.next_update, 2);
    assert_eq!(kept.today.uid, Some("t2".to_string()));

    let third = poll(
        3,
        change_set(Some("t2"), &[("M1", "u2"), ("M2", "u3")]),
        change_set(Some("n1"), &[("M1", "v1")]),
    );
    match poller.on_poll(Ok(third)) {
        PollAction::Announce { today, next } => {
            assert!(today.is_none());
            assert!(next.is_none());
        }
        PollAction::Retry { .. } => panic!("a successful poll is not retried"),
    }
    assert_eq!(poller.last_poll().unwrap().next_update, 3);
}

#[test]
fn first_poll_announces_every_group_of_a_horizon_with_a_snapshot() {
    let mut poller = Poller::new();
    let first = poll(5, change_set(Some("t1"), &[("A", "1"), ("B", "2")]), change_set(None, &[("A", "1")]));
    match poller.on_poll(Ok(first)) {
        PollAction::Announce { today, next } => {
            let today = today.expect("every group is new");
            assert_eq!(today.changes.len(), 2);
            assert_eq!(kind_of(&today.changes, &"A".to_string()), ChangeKind::New);
            assert_eq!(kind_of(&today.changes, &"B".to_string()), ChangeKind::New);
            assert!(next.is_none());
        }
        PollAction::Retry { .. } => panic!("a successful poll is not retried"),
    }
}

#[test]
fn horizon_without_uid_is_never_planned() {
    let current = change_set(None, &[("A", "2")]);
    let previous = change_set(None, &[("A", "1")]);
    assert!(plan_horizon(&current, Some(&previous)).is_none());
    assert!(plan_horizon(&current, None).is_none());
    let with_uid = change_set(Some("s"), &[("A", "2")]);
    let plan = plan_horizon(&with_uid, Some(&previous)).expect("A was updated");
    assert_eq!(plan.uid, "s");
    assert_eq!(kind_of(&plan.changes, &"A".to_string()), ChangeKind::Updated);
    let same = change_set(Some("s"), &[("A", "1")]);
    assert!(plan_horizon(&same, Some(&previous)).is_none());
}
