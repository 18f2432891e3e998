use maiq_bot::fanout::{send_to_all, Fanout, FanoutStep, BATCH_SIZE, PAUSE_MILLIS};

#[test]
fn fanout_sends_to_each_chat_in_order() {
    let mut fanout = send_to_all(&"hello".to_string(), &vec![10, 20, 30]);
    assert_eq!(fanout.body(), "hello");
    assert_eq!(fanout.remaining(), 3);
    assert_eq!(fanout.next_step(), FanoutStep::Send { recipient: 10 });
    assert_eq!(fanout.next_step(), FanoutStep::Send { recipient: 20 });
    assert_eq!(fanout.dispatched(), 2);
    assert!(!fanout.is_finished());
    assert_eq!(fanout.next_step(), FanoutStep::Send { recipient: 30 });
    assert!(fanout.is_finished());
    assert_eq!(fanout.next_step(), FanoutStep::Finished);
    assert_eq!(fanout.next_step(), FanoutStep::Finished);
    assert_eq!(fanout.remaining(), 0);
}

#[test]
fn fanout_to_nobody_is_finished_at_once() {
    let mut fanout = send_to_all(&"hello".to_string(), &vec![]);
    assert!(fanout.is_finished());
    assert_eq!(fanout.next_step(), FanoutStep::Finished);
    assert!(fanout.failures().is_empty());
}

#[test]
fn failed_send_does_not_stop_the_others() {
    let mut fanout = send_to_all(&"news".to_string(), &vec![1, 2, 3]);
    let mut sent: Vec<i64> = Vec::new();
    loop {
        match fanout.next_step() {
            FanoutStep::Send { recipient } => {
                sent.push(recipient);
                fanout.report(recipient, recipient != 1);
            }
            FanoutStep::Pause { .. } => panic!("three sends need no rest"),
            FanoutStep::Finished => break,
        }
    }
    assert_eq!(sent, vec![1, 2, 3]);
    assert_eq!(fanout.failures(), &vec![1]);
    assert_eq!(fanout.dispatched(), 3);
}

#[test]
fn every_send_may_fail_and_all_are_attempted() {
    let ids: Vec<i64> = (1..=5).collect();
    let mut fanout = Fanout::new("x".to_string(), ids.clone());
    let mut attempts = 0;
    loop {
        match fanout.next_step() {
            FanoutStep::Send { recipient } => {
                attempts += 1;
                fanout.report(recipient, false);
            }
            FanoutStep::Pause { .. } => {}
            FanoutStep::Finished => break,
        }
    }
    assert_eq!(attempts, 5);
    assert_eq!(fanout.failures(), &ids);
}

#[test]
fn fanout_rests_after_each_full_batch() {
    assert_eq!(BATCH_SIZE, 25);
    assert_eq!(PAUSE_MILLIS, 1000);
    let ids: Vec<i64> = (0..60).collect();
    let mut fanout = send_to_all(&"m".to_string(), &ids);
    let mut steps: Vec<FanoutStep> = Vec::new();
    loop {
        let step = fanout.next_step();
        if step == FanoutStep::Finished {
            break;
        }
        steps.push(step);
    }
    assert_eq!(steps.len(), 62);
    for (position, step) in steps.iter().enumerate() {
        match position {
            25 | 51 => assert_eq!(*step, FanoutStep::Pause { millis: 1000 }),
            p if p < 25 => assert_eq!(*step, FanoutStep::Send { recipient: p as i64 }),
            p if p < 51 => assert_eq!(*step, FanoutStep::Send { recipient: p as i64 - 1 }),
            p => assert_eq!(*step, FanoutStep::Send { recipient: p as i64 - 2 }),
        }
    }
}

#[test]
fn fanout_of_exactly_one_batch_does_not_rest_at_the_end() {
    let ids: Vec<i64> = (0..25).collect();
    let mut fanout = send_to_all(&"m".to_string(), &ids);
    let mut sends = 0;
    loop {
        match fanout.next_step() {
            FanoutStep::Send { .. } => sends += 1,
            FanoutStep::Pause { .. } => panic!("nobody is waiting after the last send"),
            FanoutStep::Finished => break,
        }
    }
    assert_eq!(sends, 25);
}

#[test]
fn report_of_success_leaves_no_trace() {
    let mut fanout = send_to_all(&"m".to_string(), &vec![7, 8]);
    assert_eq!(fanout.next_step(), FanoutStep::Send { recipient: 7 });
    fanout.report(7, true);
    assert!(fanout.failures().is_empty());
    assert_eq!(fanout.next_step(), FanoutStep::Send { recipient: 8 });
    fanout.report(8, false);
    assert_eq!(fanout.failures(), &vec![8]);
}
