//! The receive loop of one subscription: the check of the time budget, the
//! count of what was received, the lines that are shown, and the way the
//! loop ends.
//!
//! The loop has two states, running and exiting, and exiting is final. One
//! turn of the loop checks the time budget and then, if the loop is still
//! running, looks once for a datagram. The program makes the receive call
//! and prints; everything that is decided is decided here.

use vstd::prelude::*;
use vstd::string::StringExecFns;
use crate::address::{Ipv4Address, SocketAddress};
use crate::clock::{read_clock, whole_seconds, Instant, RunTime, NANOS_PER_SECOND};
use crate::error::{EXIT_FAILURE, EXIT_OK};
use crate::text::{append_decimal, append_signed_decimal, decimal, signed_decimal};

verus! {

/// The size of the buffer that a datagram is received into.
pub const RECEIVE_BUFFER_SIZE: usize = 2048;

/// The state of the receive loop.
#[derive(Clone, Copy, Debug, PartialEq, Eq, Structural)]
pub enum LoopState {
    Running,
    Exiting,
}

/// What one receive attempt brought.
#[derive(Clone, Copy, Debug, PartialEq, Eq, Structural)]
pub enum Received {
    /// No datagram: none was waiting, or the call failed in another way.
    Nothing,
    /// A datagram of `size` bytes from `sender`.
    Packet { sender: SocketAddress, size: usize },
}

/// One turn of the loop as seen from outside: the instant at which the time
/// budget is checked, and what the receive attempt brings if one is made.
#[derive(Clone, Copy, Debug, PartialEq, Eq, Structural)]
pub struct Poll {
    pub now: Instant,
    pub received: Received,
}

/// The end of the loop: the summary line and the status of the process.
#[derive(Clone, Debug, PartialEq, Eq)]
pub struct Exit {
    pub summary: String,
    pub code: i32,
}

/// The result of checking the time budget.
#[derive(Clone, Debug, PartialEq, Eq)]
pub enum TimeoutCheck {
    /// Nothing was checked: no budget is set, or the loop has ended before.
    Idle,
    /// The budget is not used up. The time run so far is shown.
    Within { run_time: RunTime },
    /// The budget is used up. The time run is shown, then the loop ends.
    Expired { run_time: RunTime, exit: Exit },
}

/// The subscription to one multicast group, as the loop carries it along.
/// The socket is not part of it: that stays with the program.
#[derive(Clone, Copy, Debug, PartialEq, Eq, Structural)]
pub struct Subscription {
    /// The address of the group.
    pub address: Ipv4Address,
    /// The port that the group's traffic is sent to.
    pub port: u16,
    /// The address of the local interface that receives.
    pub local_ip: Ipv4Address,
    /// The time budget in seconds; zero or less for none.
    pub timeout: i64,
    /// When the subscription began.
    pub start_time: Instant,
    /// The number of datagrams received so far.
    pub message_count: u64,
    /// Whether the loop is running or has ended.
    pub state: LoopState,
}

/// The status with which the process ends when the time budget is used up:
/// failure where nothing was received.
pub open spec fn exit_status(message_count: u64) -> i32 {
    if message_count == 0 {
        EXIT_FAILURE
    } else {
        EXIT_OK
    }
}

/// The line shown at every check of a time budget: the whole seconds run.
pub open spec fn elapsed_text(run_time: int) -> Seq<char> {
    signed_decimal(whole_seconds(run_time))
}

/// The line shown when the loop ends.
pub open spec fn summary_text(run_time: int, message_count: u64) -> Seq<char> {
    "Exiting after "@ + signed_decimal(whole_seconds(run_time)) + " seconds and "@ + decimal(
        message_count as nat,
    ) + " messages."@
}

/// The line shown when the subscription begins.
pub open spec fn startup_text(local_ip: Ipv4Address, address: Ipv4Address, port: u16) -> Seq<
    char,
> {
    "subscriber="@ + local_ip.dotted() + " destination="@ + address.dotted() + ":"@ + decimal(
        port as nat,
    )
}

/// The part of a datagram's line that follows the time stamp.
pub open spec fn packet_text(
    sender: SocketAddress,
    address: Ipv4Address,
    port: u16,
    size: usize,
) -> Seq<char> {
    " source="@ + sender.text() + " destination="@ + address.dotted() + ":"@ + decimal(
        port as nat,
    ) + " size="@ + decimal(size as nat)
}

/// Whether `check` is the right result of checking a budget of `timeout`
/// seconds at `now`, for a subscription that began at `start_time` and has
/// received `message_count` datagrams.
pub open spec fn timeout_check_is(
    timeout: i64,
    start_time: Instant,
    now: Instant,
    message_count: u64,
    check: TimeoutCheck,
) -> bool {
    let run = now.nanos_since_epoch() - start_time.nanos_since_epoch();
    if timeout <= 0 {
        check is Idle
    } else if run > timeout * NANOS_PER_SECOND {
        &&& check matches TimeoutCheck::Expired { run_time, exit }
        &&& run_time@ == run
        &&& exit.summary@ == summary_text(run, message_count)
        &&& exit.code == exit_status(message_count)
    } else {
        &&& check matches TimeoutCheck::Within { run_time }
        &&& run_time@ == run
    }
}

impl Subscription {
    /// The time run from the start of the subscription to `now`, in
    /// nanoseconds.
    pub open spec fn run_time_at(self, now: Instant) -> int {
        now.nanos_since_epoch() - self.start_time.nanos_since_epoch()
    }

    /// Whether the time budget is used up at `now`: a budget is set and more
    /// time than that has run.
    pub open spec fn expired_at(self, now: Instant) -> bool {
        self.timeout > 0 && self.run_time_at(now) > self.timeout * NANOS_PER_SECOND
    }

    /// The subscription after the time budget was checked at `now`.
    pub open spec fn after_check(self, now: Instant) -> Subscription {
        if self.state is Running && self.expired_at(now) {
            Subscription { state: LoopState::Exiting, ..self }
        } else {
            self
        }
    }

    /// Whether the clock is consulted at a check of the time budget: a
    /// budget is set and the loop is running.
    pub open spec fn watches_clock(self) -> bool {
        self.state is Running && self.timeout > 0
    }

    /// Whether a receive attempt that brings `received` is counted.
    pub open spec fn counts(self, received: Received) -> bool {
        self.state is Running && received is Packet
    }

    /// The subscription after a receive attempt.
    pub open spec fn after_receive(self, received: Received) -> Subscription
        recommends
            self.counts(received) ==> self.message_count < u64::MAX,
    {
        if self.counts(received) {
            Subscription { message_count: (self.message_count + 1) as u64, ..self }
        } else {
            self
        }
    }

    /// The subscription after one turn of the loop.
    pub open spec fn after_poll(self, poll: Poll) -> Subscription {
        self.after_check(poll.now).after_receive(poll.received)
    }

    /// The subscription after a run of turns.
    pub open spec fn after_polls(self, polls: Seq<Poll>) -> Subscription
        decreases polls.len(),
    {
        if polls.len() == 0 {
            self
        } else {
            self.after_polls(polls.drop_last()).after_poll(polls.last())
        }
    }

    /// Whether `check` is the right result of checking the time budget of
    /// this subscription at `now`.
    pub open spec fn check_is(self, now: Instant, check: TimeoutCheck) -> bool {
        if self.state is Running {
            timeout_check_is(self.timeout, self.start_time, now, self.message_count, check)
        } else {
            check is Idle
        }
    }

    /// Whether `line` is what is shown for a receive attempt that brings
    /// `received` and is stamped `stamp`: a line for a datagram that is
    /// counted, and nothing else.
    pub open spec fn line_is(
        self,
        stamp: Seq<char>,
        received: Received,
        line: Option<String>,
    ) -> bool {
        match received {
            Received::Packet { sender, size } if self.state is Running => {
                &&& line matches Some(text)
                &&& text@ == stamp + packet_text(sender, self.address, self.port, size)
            },
            _ => line is None,
        }
    }

    /// A subscription that begins at `start_time`, running, with nothing
    /// received.
    pub fn new(
        address: Ipv4Address,
        port: u16,
        local_ip: Ipv4Address,
        timeout: i64,
        start_time: Instant,
    ) -> (subscription: Subscription)
        ensures
            subscription == (Subscription {
                address,
                port,
                local_ip,
                timeout,
                start_time,
                message_count: 0,
                state: LoopState::Running,
            }),
    {
        Subscription {
            address,
            port,
            local_ip,
            timeout,
            start_time,
            message_count: 0,
            state: LoopState::Running,
        }
    }

    /// A subscription that begins now, by the local clock.
    pub fn start(
        address: Ipv4Address,
        port: u16,
        local_ip: Ipv4Address,
        timeout: i64,
    ) -> (subscription: Subscription)
        ensures
            subscription.address == address,
            subscription.port == port,
            subscription.local_ip == local_ip,
            subscription.timeout == timeout,
            subscription.message_count == 0,
            subscription.state is Running,
    {
        let reading = read_clock();
        Subscription::new(address, port, local_ip, timeout, reading.instant)
    }

    /// The line to show when the subscription begins.
    pub fn startup_line(&self) -> (line: String)
        ensures
            line@ == startup_text(self.local_ip, self.address, self.port),
    {
        let mut line = String::new();
        line.append("subscriber=");
        self.local_ip.append_to(&mut line);
        line.append(" destination=");
        self.address.append_to(&mut line);
        line.append(":");
        append_decimal(&mut line, self.port as u128);
        line
    }

    /// Checks the time budget at `now`. Where it is used up, the loop ends:
    /// the state becomes exiting, and the result holds the summary and the
    /// status of the process. Nothing else changes.
    pub fn check_timeout(&mut self, now: Instant) -> (check: TimeoutCheck)
        ensures
            *final(self) == old(self).after_check(now),
            old(self).check_is(now, check),
    {
        match self.state {
            LoopState::Exiting => TimeoutCheck::Idle,
            LoopState::Running => {
                let check = process_timeout(
                    self.timeout,
                    self.start_time,
                    now,
                    self.message_count,
                );
                if let TimeoutCheck::Expired { .. } = &check {
                    self.state = LoopState::Exiting;
                }
                check
            },
        }
    }

    /// Checks the time budget against the local clock. The clock is read
    /// only where a budget is set and the loop is running.
    pub fn poll_timeout(&mut self) -> (check: TimeoutCheck)
        ensures
            !old(self).watches_clock() ==> check is Idle && *final(self) == *old(self),
            old(self).watches_clock() ==> exists|now: Instant|
                *final(self) == #[trigger] old(self).after_check(now) && old(self).check_is(
                    now,
                    check,
                ),
    {
        if self.timeout > 0 && self.state == LoopState::Running {
            let reading = read_clock();
            self.check_timeout(reading.instant)
        } else {
            TimeoutCheck::Idle
        }
    }

    /// Takes note of a receive attempt that was made at the time written in
    /// `stamp`. A datagram is counted and a line for it is returned, while
    /// the loop is running; otherwise nothing changes and nothing is shown.
    pub fn record(&mut self, stamp: &str, received: Received) -> (line: Option<String>)
        requires
            old(self).counts(received) ==> old(self).message_count < u64::MAX,
        ensures
            *final(self) == old(self).after_receive(received),
            old(self).line_is(stamp@, received, line),
    {
        match (self.state, received) {
            (LoopState::Running, Received::Packet { sender, size }) => {
                self.message_count = self.message_count + 1;
                let mut line = String::new();
                line.append(stamp);
                line.append(" source=");
                sender.append_to(&mut line);
                line.append(" destination=");
                self.address.append_to(&mut line);
                line.append(":");
                append_decimal(&mut line, self.port as u128);
                line.append(" size=");
                append_decimal(&mut line, size as u128);
                assert(line@ =~= stamp@ + packet_text(sender, self.address, self.port, size));
                Some(line)
            },
            _ => None,
        }
    }

    /// Takes note of a receive attempt, stamping a datagram with the local
    /// time at which it is taken note of.
    pub fn receive(&mut self, received: Received) -> (line: Option<String>)
        requires
            old(self).counts(received) ==> old(self).message_count < u64::MAX,
        ensures
            *final(self) == old(self).after_receive(received),
            exists|stamp: Seq<char>| #[trigger] old(self).line_is(stamp, received, line),
    {
        match (self.state, received) {
            (LoopState::Running, Received::Packet { .. }) => {
                let reading = read_clock();
                self.record(reading.local_text.as_str(), received)
            },
            _ => {
                assert(old(self).line_is(Seq::<char>::empty(), received, None));
                None
            },
        }
    }
}

/// The line to show at a check of the time budget: the whole seconds that
/// have run.
pub fn elapsed_line(run_time: RunTime) -> (line: String)
    ensures
        line@ == elapsed_text(run_time@),
{
    let mut line = String::new();
    append_signed_decimal(&mut line, run_time.num_seconds());
    line
}

/// Ends the loop after `run_time`: the summary line, and status 1 where no
/// datagram was received, status 0 where at least one was.
pub fn handle_exit(run_time: RunTime, message_count: u64) -> (exit: Exit)
    ensures
        exit.summary@ == summary_text(run_time@, message_count),
        exit.code == exit_status(message_count),
        message_count == 0 ==> exit.code == 1,
        message_count >= 1 ==> exit.code == 0,
{
    let mut summary = String::new();
    summary.append("Exiting after ");
    append_signed_decimal(&mut summary, run_time.num_seconds());
    summary.append(" seconds and ");
    append_decimal(&mut summary, message_count as u128);
    summary.append(" messages.");
    let code: i32 = if message_count == 0 {
        EXIT_FAILURE
    } else {
        EXIT_OK
    };
    Exit { summary, code }
}

/// Checks a time budget of `timeout` seconds at `now`, for a subscription
/// that began at `start_time`. No budget is set where `timeout` is zero or
/// less. A set budget is used up as soon as more than `timeout` seconds have
/// run, and not at exactly `timeout` seconds.
pub fn process_timeout(
    timeout: i64,
    start_time: Instant,
    now: Instant,
    message_count: u64,
) -> (check: TimeoutCheck)
    ensures
        timeout_check_is(timeout, start_time, now, message_count, check),
{
    if timeout > 0 {
        let run_time = RunTime::between(start_time, now);
        if run_time.exceeds(timeout) {
            let exit = handle_exit(run_time, message_count);
            TimeoutCheck::Expired { run_time, exit }
        } else {
            TimeoutCheck::Within { run_time }
        }
    } else {
        TimeoutCheck::Idle
    }
}

/// When the time budget is used up, the status of the process is 1 where
/// nothing was received and 0 where at least one datagram was, and the
/// summary tells the count as it stands.
pub proof fn lemma_exit_code_policy(sub: Subscription, now: Instant, check: TimeoutCheck)
    requires
        sub.state is Running,
        sub.expired_at(now),
        sub.check_is(now, check),
    ensures
        check is Expired,
        sub.message_count == 0 ==> check->Expired_exit.code == 1,
        sub.message_count >= 1 ==> check->Expired_exit.code == 0,
        check->Expired_exit.summary@ == summary_text(sub.run_time_at(now), sub.message_count),
        sub.after_check(now).state is Exiting,
        sub.after_check(now).message_count == sub.message_count,
{
}

/// The number of turns in a run that bring a datagram.
pub open spec fn packets_in(polls: Seq<Poll>) -> nat
    decreases polls.len(),
{
    if polls.len() == 0 {
        0
    } else {
        packets_in(polls.drop_last()) + if polls.last().received is Packet {
            1nat
        } else {
            0nat
        }
    }
}

/// No turn of the loop changes what the subscription was set up with: the
/// group, the port, the local address, the time budget and the start.
pub proof fn lemma_polls_keep_settings(sub: Subscription, polls: Seq<Poll>)
    ensures
        sub.after_polls(polls).address == sub.address,
        sub.after_polls(polls).port == sub.port,
        sub.after_polls(polls).local_ip == sub.local_ip,
        sub.after_polls(polls).timeout == sub.timeout,
        sub.after_polls(polls).start_time == sub.start_time,
    decreases polls.len(),
{
    if polls.len() > 0 {
        lemma_polls_keep_settings(sub, polls.drop_last());
    }
}

/// Exiting is final: once the loop has ended, no turn changes anything.
pub proof fn lemma_exiting_is_final(sub: Subscription, polls: Seq<Poll>)
    requires
        sub.state is Exiting,
    ensures
        sub.after_polls(polls) == sub,
    decreases polls.len(),
{
    if polls.len() > 0 {
        lemma_exiting_is_final(sub, polls.drop_last());
    }
}

/// A loop that was running has ended after a run of turns exactly where
/// the time budget was used up at the check of one of them.
pub proof fn lemma_exiting_iff_some_check_expired(sub: Subscription, polls: Seq<Poll>)
    requires
        sub.state is Running,
    ensures
        sub.after_polls(polls).state is Exiting <==> exists|j: int|
            0 <= j < polls.len() && sub.expired_at(#[trigger] polls[j].now),
    decreases polls.len(),
{
    if polls.len() > 0 {
        let earlier = polls.drop_last();
        lemma_exiting_iff_some_check_expired(sub, earlier);
        lemma_polls_keep_settings(sub, earlier);
        let before = sub.after_polls(earlier);
        if sub.after_polls(polls).state is Exiting {
            if before.state is Exiting {
                let j = choose|j: int|
                    0 <= j < earlier.len() && sub.expired_at(#[trigger] earlier[j].now);
                assert(polls[j] == earlier[j]);
            } else {
                assert(before.expired_at(polls.last().now));
                assert(sub.expired_at(polls[polls.len() - 1].now));
            }
        }
        if exists|j: int| 0 <= j < polls.len() && sub.expired_at(#[trigger] polls[j].now) {
            let j = choose|j: int| 0 <= j < polls.len() && sub.expired_at(#[trigger] polls[j].now);
            if j < earlier.len() {
                assert(earlier[j] == polls[j]);
            }
        }
    }
}

/// The loop ends at the first turn at whose check more time than the budget
/// has run, and not before: after each of the turns up to that one the loop
/// is running, and after that turn, and after every later one, it has
/// ended.
pub proof fn lemma_exits_at_first_overrun(sub: Subscription, polls: Seq<Poll>, first: int)
    requires
        sub.state is Running,
        0 <= first < polls.len(),
        forall|j: int| 0 <= j < first ==> !sub.expired_at(#[trigger] polls[j].now),
        sub.expired_at(polls[first].now),
    ensures
        forall|k: int|
            0 <= k <= first ==> (#[trigger] sub.after_polls(polls.take(k))).state is Running,
        forall|k: int|
            first < k <= polls.len() ==> (#[trigger] sub.after_polls(polls.take(k))).state
                is Exiting,
{
    assert forall|k: int| 0 <= k <= first implies (#[trigger] sub.after_polls(
        polls.take(k),
    )).state is Running by {
        lemma_exiting_iff_some_check_expired(sub, polls.take(k));
        assert forall|j: int| 0 <= j < polls.take(k).len() implies !sub.expired_at(
            #[trigger] polls.take(k)[j].now,
        ) by {
            assert(polls.take(k)[j] == polls[j]);
        }
    }
    assert forall|k: int| first < k <= polls.len() implies (#[trigger] sub.after_polls(
        polls.take(k),
    )).state is Exiting by {
        lemma_exiting_iff_some_check_expired(sub, polls.take(k));
        assert(polls.take(k)[first] == polls[first]);
    }
}

/// Without a time budget the loop never ends by itself.
pub proof fn lemma_no_budget_never_exits(sub: Subscription, polls: Seq<Poll>)
    requires
        sub.state is Running,
        sub.timeout <= 0,
    ensures
        sub.after_polls(polls).state is Running,
{
    lemma_exiting_iff_some_check_expired(sub, polls);
}

/// While the time budget lasts, every datagram is counted once.
pub proof fn lemma_count_while_running(sub: Subscription, polls: Seq<Poll>)
    requires
        sub.state is Running,
        forall|j: int| 0 <= j < polls.len() ==> !sub.expired_at(#[trigger] polls[j].now),
        sub.message_count + packets_in(polls) <= u64::MAX,
    ensures
        sub.after_polls(polls).state is Running,
        sub.after_polls(polls).message_count == sub.message_count + packets_in(polls),
    decreases polls.len(),
{
    if polls.len() > 0 {
        let earlier = polls.drop_last();
        assert forall|j: int| 0 <= j < earlier.len() implies !sub.expired_at(
            #[trigger] earlier[j].now,
        ) by {
            assert(earlier[j] == polls[j]);
        }
        lemma_count_while_running(sub, earlier);
        lemma_polls_keep_settings(sub, earlier);
        assert(!sub.expired_at(polls[polls.len() - 1].now));
    }
}

/// When the loop ends, it has counted the datagrams of the turns before the
/// one at which it ends, and the status of the process is 1 where there
/// were none and 0 where there was at least one. At the turn at which it
/// ends no receive attempt is made.
pub proof fn lemma_count_at_exit(sub: Subscription, polls: Seq<Poll>, first: int)
    requires
        sub.state is Running,
        0 <= first < polls.len(),
        forall|j: int| 0 <= j < first ==> !sub.expired_at(#[trigger] polls[j].now),
        sub.expired_at(polls[first].now),
        sub.message_count + packets_in(polls.take(first)) <= u64::MAX,
    ensures
        sub.after_polls(polls).state is Exiting,
        sub.after_polls(polls).message_count == sub.message_count + packets_in(polls.take(first)),
        exit_status(sub.after_polls(polls).message_count) == if sub.message_count + packets_in(
            polls.take(first),
        ) == 0 {
            1i32
        } else {
            0i32
        },
{
    let before = polls.take(first);
    assert forall|j: int| 0 <= j < before.len() implies !sub.expired_at(
        #[trigger] before[j].now,
    ) by {
        assert(before[j] == polls[j]);
    }
    lemma_count_while_running(sub, before);
    lemma_polls_keep_settings(sub, before);
    let upto = polls.take(first + 1);
    assert(upto.drop_last() =~= before);
    assert(upto.last() == polls[first]);
    let ended = sub.after_polls(upto);
    assert(ended == sub.after_polls(before).after_poll(polls[first]));
    assert(ended.state is Exiting);
    lemma_after_polls_split(sub, polls, first + 1);
    lemma_exiting_is_final(ended, polls.skip(first + 1));
}

/// A run of turns can be taken in two parts.
pub proof fn lemma_after_polls_split(sub: Subscription, polls: Seq<Poll>, k: int)
    requires
        0 <= k <= polls.len(),
    ensures
        sub.after_polls(polls) == sub.after_polls(polls.take(k)).after_polls(polls.skip(k)),
    decreases polls.len(),
{
    if k == polls.len() {
        assert(polls.take(k) =~= polls);
        assert(polls.skip(k).len() == 0);
    } else {
        let earlier = polls.drop_last();
        lemma_after_polls_split(sub, earlier, k);
        assert(earlier.take(k) =~= polls.take(k));
        assert(polls.skip(k).drop_last() =~= earlier.skip(k));
        assert(polls.skip(k).last() == polls.last());
    }
}

} // verus!
