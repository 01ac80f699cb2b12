use mrecv::address::{Ipv4Address, SocketAddress};
use mrecv::clock::{Instant, RunTime};
use mrecv::receiver::{
    elapsed_line, handle_exit, process_timeout, Exit, LoopState, Received, Subscription,
    TimeoutCheck, RECEIVE_BUFFER_SIZE,
};

const START: Instant = Instant { secs: 1_700_000_000, nanos: 250_000_000 };

fn after(seconds: i64, nanos: u32) -> Instant {
    let total = START.nanos as u64 + nanos as u64;
    Instant {
        secs: START.secs + seconds + (total / 1_000_000_000) as i64,
        nanos: (total % 1_000_000_000) as u32,
    }
}

fn group() -> Ipv4Address {
    Ipv4Address::new(239, 5, 5, 5)
}

fn loopback() -> Ipv4Address {
    Ipv4Address::new(127, 0, 0, 1)
}

fn subscription(timeout: i64) -> Subscription {
    Subscription::new(group(), 5000, loopback(), timeout, START)
}

fn packet(size: usize) -> Received {
    Received::Packet { sender: SocketAddress { ip: loopback(), port: 40000 }, size }
}

#[test]
fn new_subscription_is_running_and_empty() {
    let sub = subscription(2);
    assert_eq!(sub.address, group());
    assert_eq!(sub.port, 5000);
    assert_eq!(sub.local_ip, loopback());
    assert_eq!(sub.timeout, 2);
    assert_eq!(sub.start_time, START);
    assert_eq!(sub.message_count, 0);
    assert_eq!(sub.state, LoopState::Running);
    assert_eq!(RECEIVE_BUFFER_SIZE, 2048);
}

#[test]
fn startup_line_names_subscriber_and_destination() {
    assert_eq!(subscription(0).startup_line(), "subscriber=127.0.0.1 destination=239.5.5.5:5000");
    let other = Subscription::new(
        Ipv4Address::new(224, 0, 0, 251),
        65535,
        Ipv4Address::new(192, 168, 10, 200),
        0,
        START,
    );
    assert_eq!(other.startup_line(), "subscriber=192.168.10.200 destination=224.0.0.251:65535");
}

#[test]
fn exit_status_depends_on_the_count() {
    let two_seconds = RunTime { nanos: 2_000_000_000 };
    assert_eq!(handle_exit(two_seconds, 0).code, 1);
    assert_eq!(handle_exit(two_seconds, 1).code, 0);
    assert_eq!(handle_exit(two_seconds, 2).code, 0);
    assert_eq!(handle_exit(two_seconds, u64::MAX).code, 0);
}

#[test]
fn summary_line_tells_seconds_and_messages() {
    assert_eq!(
        handle_exit(RunTime { nanos: 2_000_000_001 }, 0),
        Exit { summary: "Exiting after 2 seconds and 0 messages.".to_string(), code: 1 }
    );
    assert_eq!(
        handle_exit(RunTime { nanos: 61_999_999_999 }, 1234).summary,
        "Exiting after 61 seconds and 1234 messages."
    );
    assert_eq!(
        handle_exit(RunTime { nanos: -3_000_000_000 }, u64::MAX).summary,
        "Exiting after -3 seconds and 18446744073709551615 messages."
    );
}

#[test]
fn elapsed_line_is_the_whole_seconds() {
    assert_eq!(elapsed_line(RunTime { nanos: 0 }), "0");
    assert_eq!(elapsed_line(RunTime { nanos: 1_999_999_999 }), "1");
    assert_eq!(elapsed_line(RunTime { nanos: 2_000_000_000 }), "2");
    assert_eq!(elapsed_line(RunTime { nanos: -1_500_000_000 }), "-1");
    assert_eq!(elapsed_line(RunTime { nanos: -500_000_000 }), "0");
}

#[test]
fn no_budget_means_no_check() {
    assert_eq!(process_timeout(0, START, after(1_000_000, 0), 0), TimeoutCheck::Idle);
    assert_eq!(process_timeout(-1, START, after(1_000_000, 0), 5), TimeoutCheck::Idle);
    assert_eq!(process_timeout(i64::MIN, START, after(0, 0), 5), TimeoutCheck::Idle);
}

#[test]
fn budget_lasts_until_more_time_has_run() {
    assert_eq!(
        process_timeout(2, START, after(0, 0), 0),
        TimeoutCheck::Within { run_time: RunTime { nanos: 0 } }
    );
    assert_eq!(
        process_timeout(2, START, after(1, 999_999_999), 0),
        TimeoutCheck::Within { run_time: RunTime { nanos: 1_999_999_999 } }
    );
    assert_eq!(
        process_timeout(2, START, after(2, 0), 0),
        TimeoutCheck::Within { run_time: RunTime { nanos: 2_000_000_000 } }
    );
    assert_eq!(
        process_timeout(2, START, after(2, 1), 0),
        TimeoutCheck::Expired {
            run_time: RunTime { nanos: 2_000_000_001 },
            exit: Exit { summary: "Exiting after 2 seconds and 0 messages.".to_string(), code: 1 },
        }
    );
    assert_eq!(
        process_timeout(2, START, after(3, 0), 7),
        TimeoutCheck::Expired {
            run_time: RunTime { nanos: 3_000_000_000 },
            exit: Exit { summary: "Exiting after 3 seconds and 7 messages.".to_string(), code: 0 },
        }
    );
}

#[test]
fn clock_running_backwards_does_not_use_up_the_budget() {
    let earlier = Instant { secs: START.secs - 10, nanos: 0 };
    assert_eq!(
        process_timeout(1, START, earlier, 0),
        TimeoutCheck::Within { run_time: RunTime { nanos: -10_250_000_000 } }
    );
}

#[test]
fn largest_budget_is_checked_without_overflow() {
    let first = Instant { secs: i64::MIN, nanos: 0 };
    let last = Instant { secs: i64::MAX, nanos: 999_999_999 };
    assert!(matches!(process_timeout(i64::MAX, first, last, 1), TimeoutCheck::Expired { .. }));
    assert!(matches!(process_timeout(i64::MAX, last, first, 1), TimeoutCheck::Within { .. }));
    assert!(matches!(process_timeout(i64::MAX, START, last, 1), TimeoutCheck::Within { .. }));
}

#[test]
fn check_moves_to_exiting_at_the_first_overrun() {
    let mut sub = subscription(2);
    let polls = [after(0, 10), after(1, 0), after(2, 0), after(2, 1), after(2, 2), after(9, 0)];
    let mut states = Vec::new();
    for now in polls {
        sub.check_timeout(now);
        states.push(sub.state);
    }
    assert_eq!(
        states,
        vec![
            LoopState::Running,
            LoopState::Running,
            LoopState::Running,
            LoopState::Exiting,
            LoopState::Exiting,
            LoopState::Exiting,
        ]
    );
}

#[test]
fn check_changes_only_the_state() {
    let mut sub = subscription(2);
    sub.record("t", packet(3));
    let before = sub;
    assert!(matches!(sub.check_timeout(after(1, 0)), TimeoutCheck::Within { .. }));
    assert_eq!(sub, before);
    assert!(matches!(sub.check_timeout(after(5, 0)), TimeoutCheck::Expired { .. }));
    assert_eq!(sub, Subscription { state: LoopState::Exiting, ..before });
}

#[test]
fn exiting_is_final() {
    let mut sub = subscription(1);
    assert!(matches!(sub.check_timeout(after(5, 0)), TimeoutCheck::Expired { .. }));
    let ended = sub;
    assert_eq!(sub.check_timeout(after(6, 0)), TimeoutCheck::Idle);
    assert_eq!(sub.check_timeout(after(0, 0)), TimeoutCheck::Idle);
    assert_eq!(sub.record("t", packet(10)), None);
    assert_eq!(sub.record("t", Received::Nothing), None);
    assert_eq!(sub.receive(packet(10)), None);
    assert_eq!(sub.poll_timeout(), TimeoutCheck::Idle);
    assert_eq!(sub, ended);
}

#[test]
fn without_budget_the_loop_goes_on() {
    let mut sub = subscription(0);
    for seconds in [0, 1, 100, 1_000_000, i64::MAX - START.secs - 1] {
        assert_eq!(sub.check_timeout(after(seconds, 0)), TimeoutCheck::Idle);
        assert_eq!(sub.state, LoopState::Running);
    }
    assert_eq!(sub.poll_timeout(), TimeoutCheck::Idle);
    assert_eq!(sub, subscription(0));
}

#[test]
fn datagram_is_counted_and_shown() {
    let mut sub = subscription(0);
    let line = sub.record("2024-05-01 12:00:00.5 +02:00", packet(10));
    assert_eq!(
        line,
        Some(
            "2024-05-01 12:00:00.5 +02:00 source=127.0.0.1:40000 destination=239.5.5.5:5000 size=10"
                .to_string()
        )
    );
    assert_eq!(sub.message_count, 1);
    let line = sub.record(
        "later",
        Received::Packet {
            sender: SocketAddress { ip: Ipv4Address::new(10, 20, 30, 40), port: 9 },
            size: 2048,
        },
    );
    assert_eq!(
        line,
        Some("later source=10.20.30.40:9 destination=239.5.5.5:5000 size=2048".to_string())
    );
    assert_eq!(sub.message_count, 2);
    assert_eq!(sub, Subscription { message_count: 2, ..subscription(0) });
}

#[test]
fn empty_datagram_counts_too() {
    let mut sub = subscription(0);
    let line = sub.record("now", packet(0));
    assert_eq!(
        line,
        Some("now source=127.0.0.1:40000 destination=239.5.5.5:5000 size=0".to_string())
    );
    assert_eq!(sub.message_count, 1);
}

#[test]
fn failed_receive_changes_nothing() {
    let mut sub = subscription(3);
    for _ in 0..1000 {
        assert_eq!(sub.record("now", Received::Nothing), None);
        assert_eq!(sub.receive(Received::Nothing), None);
    }
    assert_eq!(sub, subscription(3));
}

#[test]
fn count_goes_up_to_the_last_number() {
    let mut sub = Subscription { message_count: u64::MAX - 1, ..subscription(0) };
    assert!(sub.record("now", packet(1)).is_some());
    assert_eq!(sub.message_count, u64::MAX);
    assert_eq!(sub.record("now", Received::Nothing), None);
    assert_eq!(sub.message_count, u64::MAX);
}

#[test]
fn silent_group_times_out_with_failure() {
    let mut sub = subscription(2);
    assert_eq!(sub.startup_line(), "subscriber=127.0.0.1 destination=239.5.5.5:5000");
    let mut shown: Vec<String> = Vec::new();
    let mut ended: Option<Exit> = None;
    let mut turn: u32 = 0;
    while ended.is_none() {
        let now = after((turn / 4) as i64, (turn % 4) * 250_000_000 + 1);
        match sub.check_timeout(now) {
            TimeoutCheck::Idle => panic!("the budget is set"),
            TimeoutCheck::Within { run_time } => {
                shown.push(elapsed_line(run_time));
                assert_eq!(sub.record("now", Received::Nothing), None);
            }
            TimeoutCheck::Expired { run_time, exit } => {
                shown.push(elapsed_line(run_time));
                ended = Some(exit);
            }
        }
        turn += 1;
    }
    assert_eq!(turn, 9);
    assert_eq!(shown, vec!["0", "0", "0", "0", "1", "1", "1", "1", "2"]);
    let exit = ended.unwrap();
    assert_eq!(exit.summary, "Exiting after 2 seconds and 0 messages.");
    assert_eq!(exit.code, 1);
    assert_eq!(sub.state, LoopState::Exiting);
    assert_eq!(sub.message_count, 0);
}

#[test]
fn one_datagram_in_time_ends_with_success() {
    let mut sub = subscription(2);
    let mut lines: Vec<String> = Vec::new();
    let mut ended: Option<Exit> = None;
    let mut turn: u32 = 0;
    while ended.is_none() {
        let now = after((turn / 2) as i64, (turn % 2) * 500_000_000 + 1);
        match sub.check_timeout(now) {
            TimeoutCheck::Expired { exit, .. } => ended = Some(exit),
            _ => {
                let received = if turn == 1 {
                    Received::Packet {
                        sender: SocketAddress { ip: loopback(), port: 51000 },
                        size: 10,
                    }
                } else {
                    Received::Nothing
                };
                if let Some(line) = sub.record("2024-05-01 12:00:00 +00:00", received) {
                    lines.push(line);
                }
            }
        }
        turn += 1;
    }
    assert_eq!(
        lines,
        vec![
            "2024-05-01 12:00:00 +00:00 source=127.0.0.1:51000 destination=239.5.5.5:5000 size=10"
                .to_string()
        ]
    );
    assert!(lines[0].ends_with(" size=10"));
    let exit = ended.unwrap();
    assert_eq!(exit.code, 0);
    assert_eq!(exit.summary, "Exiting after 2 seconds and 1 messages.");
    assert_eq!(sub.message_count, 1);
    assert_eq!(sub.state, LoopState::Exiting);
}

#[test]
fn subscription_started_by_the_clock_is_fresh() {
    let sub = Subscription::start(group(), 5000, loopback(), 2);
    assert_eq!(sub.address, group());
    assert_eq!(sub.port, 5000);
    assert_eq!(sub.local_ip, loopback());
    assert_eq!(sub.timeout, 2);
    assert_eq!(sub.message_count, 0);
    assert_eq!(sub.state, LoopState::Running);
    assert!(sub.start_time.secs > 1_500_000_000);
}

#[test]
fn poll_by_the_clock_stays_within_a_long_budget() {
    let mut sub = Subscription::start(group(), 5000, loopback(), 3600);
    let before = sub;
    match sub.poll_timeout() {
        TimeoutCheck::Within { run_time } => {
            assert!(!run_time.exceeds(3600));
        }
        other => panic!("unexpected {:?}", other),
    }
    assert_eq!(sub, before);
}

#[test]
fn poll_by_the_clock_ends_a_spent_budget() {
    let long_ago = Instant { secs: 1_000_000_000, nanos: 0 };
    let mut sub = Subscription::new(group(), 5000, loopback(), 5, long_ago);
    sub.record("t", packet(1));
    match sub.poll_timeout() {
        TimeoutCheck::Expired { run_time, exit } => {
            assert!(run_time.exceeds(5));
            assert_eq!(exit.code, 0);
            assert_eq!(
                exit.summary,
                format!("Exiting after {} seconds and 1 messages.", run_time.num_seconds())
            );
        }
        other => panic!("unexpected {:?}", other),
    }
    assert_eq!(sub.state, LoopState::Exiting);
    assert_eq!(sub.message_count, 1);
}

#[test]
fn receive_stamps_the_line_with_the_local_time() {
    let mut sub = subscription(0);
    let line = sub.receive(packet(10)).unwrap();
    let tail = " source=127.0.0.1:40000 destination=239.5.5.5:5000 size=10";
    assert!(line.ends_with(tail));
    let stamp = &line[..line.len() - tail.len()];
    assert!(stamp.len() >= 19, "{}", stamp);
    assert!(stamp.starts_with("20"), "{}", stamp);
    assert_eq!(sub.message_count, 1);
    assert_eq!(sub.state, LoopState::Running);
}
