//! Stress testing the link to the main microcontroller.

use crate::main_board::MainBoard;
use crate::message::{acked, is_acked, Interface, JetsonToMcu, Reply, RequestedValue};
use vstd::prelude::*;

verus! {

/// The number of rounds.
pub const TEST_COUNT: u32 = 2;

/// How long a round lasts where no duration is given, in nanoseconds.
pub const ENDLESS_ROUND_NS: u128 = 3_000_000_000;

/// How far a round has come.
#[derive(Debug, Clone, Copy, PartialEq, Eq, Structural)]
pub enum StressStage {
    /// The round starts.
    Start,
    /// The clock tells whether the round is over.
    Check { started: u128, until: u128 },
    /// A request is sent.
    Request { started: u128, until: u128 },
    /// The round is over, and reported.
    Report { started: u128 },
    /// There are no more rounds.
    Finished,
}

/// What a stress test needs done before it can go on.
#[derive(Debug, Clone, Copy, PartialEq, Eq, Structural)]
pub enum StressAction {
    /// Read the clock twice, and start the round.
    StartRound,
    /// Read the clock.
    ReadClock,
    /// Send a message to the main microcontroller and hand in the reply.
    Send { over: Interface, payload: JetsonToMcu },
    /// Read the clock, and report the round.
    Report,
    /// Nothing: the test is over.
    Finished,
}

/// A stress test: rounds in which one request is sent after the other, with a
/// report after each. Without a duration the rounds go on for ever. Times are
/// nanoseconds on one monotonic clock.
#[derive(Debug, Clone, Copy, PartialEq, Eq, Structural)]
pub struct StressTest {
    pub board: MainBoard,
    /// The rounds go on for ever.
    pub endless: bool,
    /// How long a round lasts.
    pub round_ns: u128,
    pub stage: StressStage,
    pub test_idx: u32,
    pub success_count: u32,
    pub error_count: u32,
}

/// The interface that a round is reported under.
#[derive(Debug, Clone, Copy, PartialEq, Eq, Structural)]
pub enum RoundLabel {
    IsoTp,
    CanFd,
}

/// The report of a round.
#[derive(Debug, Clone, Copy, PartialEq, Eq, Structural)]
pub struct StressReport {
    pub label: RoundLabel,
    /// The number of requests.
    pub tx_count: u32,
    /// The requests per second.
    pub per_second: u32,
    pub success_percent: u32,
    pub error_percent: u32,
}

/// The round after a round.
pub open spec fn next_round(test_idx: u32, endless: bool) -> u32 {
    if endless {
        ((test_idx + 1) % 2) as u32
    } else {
        (test_idx + 1) as u32
    }
}

/// What happens to a stress test.
pub enum StressEvent {
    /// A round starts: it counts from `started`, and lasts its time from `now`.
    Start { started: u128, now: u128 },
    /// The clock was read.
    Time { now: u128 },
    /// The reply to a request came in.
    Reply(Reply),
    /// A round was reported.
    Report,
}

impl MainBoard {
    /// Starts a stress test that lasts for a while in all, shared by its two
    /// rounds, or for ever.
    pub fn stress_test(&self, duration: Option<u128>) -> (r: StressTest)
        ensures
            r == (StressTest {
                board: *self,
                endless: duration is None,
                round_ns: match duration {
                    Some(d) => d / 2,
                    None => ENDLESS_ROUND_NS,
                },
                stage: StressStage::Start,
                test_idx: 0,
                success_count: 0,
                error_count: 0,
            }),
            r.valid(),
    {
        let (endless, round_ns): (bool, u128) = match duration {
            Some(d) => (false, d / 2),
            None => (true, ENDLESS_ROUND_NS),
        };
        StressTest {
            board: *self,
            endless,
            round_ns,
            stage: StressStage::Start,
            test_idx: 0,
            success_count: 0,
            error_count: 0,
        }
    }
}

impl StressTest {
    /// The test is at its end exactly if its rounds are over, and does not
    /// come to it where they go on for ever.
    pub open spec fn valid(self) -> bool {
        &&& self.test_idx <= TEST_COUNT
        &&& self.endless ==> self.test_idx < TEST_COUNT
        &&& self.stage == StressStage::Finished <==> self.test_idx == TEST_COUNT
    }

    /// The number of requests of the round.
    pub open spec fn tx_count(self) -> int {
        self.success_count + self.error_count
    }

    /// The whole milliseconds from the start of the round until now; of these
    /// only the lowest 32 bits count.
    pub open spec fn elapsed_ms(self, now: u128) -> int {
        match self.stage {
            StressStage::Report { started } => if now < started {
                0
            } else {
                ((now - started) / 1_000_000) % 0x1_0000_0000
            },
            _ => 0,
        }
    }

    /// The round can be reported: a request was sent, and the rate can be computed.
    pub open spec fn reportable(self, now: u128) -> bool {
        &&& self.stage is Report
        &&& self.tx_count() > 0
        &&& self.tx_count() * 1000 <= u32::MAX
        &&& self.elapsed_ms(now) != 0
    }

    /// The same test at another stage.
    pub open spec fn at(self, stage: StressStage) -> StressTest {
        StressTest { stage, ..self }
    }

    /// The event is one that the test waits for, and can take in.
    pub open spec fn awaits(self, event: StressEvent) -> bool {
        match event {
            StressEvent::Start { now, .. } => self.stage == StressStage::Start && now
                + self.round_ns <= u128::MAX,
            StressEvent::Time { .. } => self.stage is Check,
            StressEvent::Reply(_) => self.stage is Request && self.tx_count() < u32::MAX,
            StressEvent::Report => self.stage is Report,
        }
    }

    /// The test after an event.
    pub open spec fn after(self, event: StressEvent) -> StressTest {
        match (event, self.stage) {
            (StressEvent::Start { started, now }, _) => self.at(
                StressStage::Check { started, until: (now + self.round_ns) as u128 },
            ),
            (StressEvent::Time { now }, StressStage::Check { started, until }) => self.at(
                if now > until {
                    StressStage::Report { started }
                } else {
                    StressStage::Request { started, until }
                },
            ),
            (StressEvent::Reply(reply), StressStage::Request { started, until }) => StressTest {
                stage: StressStage::Check { started, until },
                success_count: if acked(reply) {
                    (self.success_count + 1) as u32
                } else {
                    self.success_count
                },
                error_count: if acked(reply) {
                    self.error_count
                } else {
                    (self.error_count + 1) as u32
                },
                ..self
            },
            (StressEvent::Report, _) => StressTest {
                stage: if next_round(self.test_idx, self.endless) < TEST_COUNT {
                    StressStage::Start
                } else {
                    StressStage::Finished
                },
                test_idx: next_round(self.test_idx, self.endless),
                success_count: 0,
                error_count: 0,
                ..self
            },
            _ => self,
        }
    }

    /// What is to be done next.
    pub fn action(&self) -> (r: StressAction)
        ensures
            r == (match self.stage {
                StressStage::Start => StressAction::StartRound,
                StressStage::Check { .. } => StressAction::ReadClock,
                StressStage::Request { .. } => StressAction::Send {
                    over: self.board.preferred(),
                    payload: JetsonToMcu::ValueGet { value: RequestedValue::FirmwareVersions },
                },
                StressStage::Report { .. } => StressAction::Report,
                StressStage::Finished => StressAction::Finished,
            }),
    {
        match self.stage {
            StressStage::Start => StressAction::StartRound,
            StressStage::Check { .. } => StressAction::ReadClock,
            StressStage::Request { .. } => StressAction::Send {
                over: self.board.interface(),
                payload: JetsonToMcu::ValueGet { value: RequestedValue::FirmwareVersions },
            },
            StressStage::Report { .. } => StressAction::Report,
            StressStage::Finished => StressAction::Finished,
        }
    }

    /// Starts a round: it counts from `started`, and lasts its time from `now`.
    pub fn on_start(self, started: u128, now: u128) -> (r: StressTest)
        requires
            self.valid(),
            self.awaits(StressEvent::Start { started, now }),
        ensures
            r == self.after(StressEvent::Start { started, now }),
            r.valid(),
    {
        let mut test = self;
        test.stage = StressStage::Check { started, until: now + self.round_ns };
        test
    }

    /// Takes the time: another request is sent unless the round is over.
    pub fn on_time(self, now: u128) -> (r: StressTest)
        requires
            self.valid(),
            self.awaits(StressEvent::Time { now }),
        ensures
            r == self.after(StressEvent::Time { now }),
            r.valid(),
    {
        let mut test = self;
        if let StressStage::Check { started, until } = self.stage {
            test.stage = if now > until {
                StressStage::Report { started }
            } else {
                StressStage::Request { started, until }
            };
        }
        test
    }

    /// Counts the reply to a request.
    pub fn on_reply(self, reply: &Reply) -> (r: StressTest)
        requires
            self.valid(),
            self.awaits(StressEvent::Reply(*reply)),
        ensures
            r == self.after(StressEvent::Reply(*reply)),
            r.valid(),
    {
        let mut test = self;
        if is_acked(reply) {
            test.success_count = test.success_count + 1;
        } else {
            test.error_count = test.error_count + 1;
        }
        if let StressStage::Request { started, until } = self.stage {
            test.stage = StressStage::Check { started, until };
        }
        test
    }

    /// Whether one more reply can be counted.
    pub fn can_count(&self) -> (r: bool)
        ensures
            r == (self.tx_count() < u32::MAX),
    {
        (self.success_count as u64 + self.error_count as u64) < u32::MAX as u64
    }

    fn elapsed(&self, now: u128) -> (r: u32)
        ensures
            r == self.elapsed_ms(now),
    {
        match self.stage {
            StressStage::Report { started } => if now < started {
                0
            } else {
                ((now - started) / 1_000_000 % 0x1_0000_0000) as u32
            },
            _ => 0,
        }
    }

    /// Whether the round can be reported now.
    pub fn is_reportable(&self, now: u128) -> (r: bool)
        ensures
            r == self.reportable(now),
    {
        let tx_count: u64 = self.success_count as u64 + self.error_count as u64;
        let over: bool = match self.stage {
            StressStage::Report { .. } => true,
            _ => false,
        };
        over && tx_count > 0 && tx_count * 1000 <= u32::MAX as u64 && self.elapsed(now) != 0
    }

    /// The report of the round that is over now.
    pub fn report(&self, now: u128) -> (r: StressReport)
        requires
            self.reportable(now),
        ensures
            r.label == if self.test_idx == 0 {
                RoundLabel::IsoTp
            } else {
                RoundLabel::CanFd
            },
            r.tx_count == self.tx_count(),
            r.per_second == (self.tx_count() * 1000) / self.elapsed_ms(now),
            r.success_percent == (self.success_count * 100) / self.tx_count(),
            r.success_percent + r.error_percent == 100,
    {
        let tx_count: u32 = self.success_count + self.error_count;
        let elapsed: u32 = self.elapsed(now);
        let success_percent: u32 = self.success_count * 100 / tx_count;
        proof {
            vstd::arithmetic::div_mod::lemma_div_is_ordered(
                self.success_count * 100,
                100 * tx_count,
                tx_count as int,
            );
            vstd::arithmetic::div_mod::lemma_div_multiples_vanish(100, tx_count as int);
        }
        StressReport {
            label: if self.test_idx == 0 {
                RoundLabel::IsoTp
            } else {
                RoundLabel::CanFd
            },
            tx_count,
            per_second: tx_count * 1000 / elapsed,
            success_percent,
            error_percent: 100 - success_percent,
        }
    }

    /// The round was reported: the next one starts, with counters at zero, if
    /// there is one.
    pub fn on_report(self) -> (r: StressTest)
        requires
            self.valid(),
            self.awaits(StressEvent::Report),
        ensures
            r == self.after(StressEvent::Report),
            r.valid(),
    {
        let mut test = self;
        test.success_count = 0;
        test.error_count = 0;
        test.test_idx = test.test_idx + 1;
        if test.endless {
            test.test_idx = test.test_idx % TEST_COUNT;
        }
        test.stage = if test.test_idx < TEST_COUNT {
            StressStage::Start
        } else {
            StressStage::Finished
        };
        test
    }
}

/// The test at an index goes over into the next one by the event.
pub open spec fn goes_on(tests: Seq<StressTest>, events: Seq<StressEvent>, i: int) -> bool {
    &&& tests[i].awaits(events[i])
    &&& tests[i + 1] == tests[i].after(events[i])
}

/// The tests are one stress test, from each event to the next.
pub open spec fn goes_through(tests: Seq<StressTest>, events: Seq<StressEvent>) -> bool {
    &&& tests.len() == events.len() + 1
    &&& forall|i: int| 0 <= i < events.len() ==> #[trigger] goes_on(tests, events, i)
}

proof fn lemma_goes_through_before(tests: Seq<StressTest>, events: Seq<StressEvent>)
    requires
        goes_through(tests, events),
        events.len() > 0,
    ensures
        goes_through(tests.drop_last(), events.drop_last()),
        goes_on(tests, events, events.len() - 1),
{
    let before = tests.drop_last();
    let prior = events.drop_last();
    assert forall|i: int| 0 <= i < prior.len() implies #[trigger] goes_on(before, prior, i) by {
        assert(goes_on(tests, events, i));
    }
}

/// How many rounds the events report.
pub open spec fn rounds_in(events: Seq<StressEvent>) -> nat
    decreases events.len(),
{
    if events.len() == 0 {
        0
    } else {
        rounds_in(events.drop_last()) + if events.last() is Report {
            1nat
        } else {
            0
        }
    }
}

/// A test without a duration goes on for ever; one with a duration is over
/// once two rounds were reported, and not before.
pub proof fn law_only_a_given_duration_ends_the_test(
    tests: Seq<StressTest>,
    events: Seq<StressEvent>,
)
    requires
        goes_through(tests, events),
        tests[0].valid(),
        tests[0].stage == StressStage::Start,
        tests[0].test_idx == 0,
    ensures
        tests.last().valid(),
        tests.last().endless == tests[0].endless,
        tests[0].endless ==> tests.last().stage != StressStage::Finished,
        !tests[0].endless ==> tests.last().test_idx == rounds_in(events),
        tests[0].endless ==> tests.last().test_idx == rounds_in(events) % 2,
        !tests[0].endless ==> (tests.last().stage == StressStage::Finished <==> rounds_in(events)
            == TEST_COUNT),
    decreases events.len(),
{
    if events.len() > 0 {
        lemma_goes_through_before(tests, events);
        law_only_a_given_duration_ends_the_test(tests.drop_last(), events.drop_last());
    }
}

/// The replies among the events, in order.
pub open spec fn replies_in(events: Seq<StressEvent>) -> Seq<Reply>
    decreases events.len(),
{
    if events.len() == 0 {
        Seq::empty()
    } else {
        match events.last() {
            StressEvent::Reply(reply) => replies_in(events.drop_last()).push(reply),
            _ => replies_in(events.drop_last()),
        }
    }
}

/// Within a round every reply is counted, once, and as a success exactly if
/// it acknowledges the request with success.
pub proof fn law_every_reply_is_counted_once(tests: Seq<StressTest>, events: Seq<StressEvent>)
    requires
        goes_through(tests, events),
        tests[0].success_count == 0,
        tests[0].error_count == 0,
        rounds_in(events) == 0,
    ensures
        tests.last().tx_count() == replies_in(events).len(),
        tests.last().success_count == replies_in(events).filter(
            |reply: Reply| acked(reply),
        ).len(),
    decreases events.len(),
{
    reveal(Seq::filter);
    if events.len() > 0 {
        let prior = events.drop_last();
        lemma_goes_through_before(tests, events);
        law_every_reply_is_counted_once(tests.drop_last(), prior);
        if let StressEvent::Reply(reply) = events.last() {
            assert(replies_in(events).drop_last() =~= replies_in(prior));
        }
    }
}

/// The report of a round holds what happened between its start and now: how
/// many requests there were, how many of them per second on average, and how
/// many of a hundred were a success, both rounded down.
pub proof fn law_report_tells_the_average(
    test: StressTest,
    started: u128,
    now: u128,
    report: StressReport,
)
    requires
        test.stage == (StressStage::Report { started }),
        started <= now,
        0 < (now - started) / 1_000_000 < 0x1_0000_0000,
        test.success_count + test.error_count > 0,
        call_ensures(StressTest::report, (&test, now), report),
    ensures
        ({
            let ms = (now - started) / 1_000_000;
            let requests = test.success_count + test.error_count;
            &&& report.tx_count == requests
            &&& report.per_second == requests * 1000 / ms
            &&& report.per_second * ms <= requests * 1000 < (report.per_second + 1) * ms
            &&& report.success_percent * requests <= test.success_count * 100 < (
            report.success_percent + 1) * requests
            &&& report.success_percent + report.error_percent == 100
            &&& report.label == RoundLabel::IsoTp <==> test.test_idx == 0
        }),
{
    let ms = (now - started) / 1_000_000;
    let requests = test.success_count + test.error_count;
    let sent = requests * 1000;
    let hundred = test.success_count * 100;
    assert(ms % 0x1_0000_0000 == ms);
    assert(report.per_second == sent / ms);
    vstd::arithmetic::div_mod::lemma_fundamental_div_mod(sent, ms);
    vstd::arithmetic::div_mod::lemma_mod_bound(sent, ms);
    assert(report.per_second * ms <= sent < (report.per_second + 1) * ms) by (nonlinear_arith)
        requires
            sent == ms * (sent / ms) + sent % ms,
            0 <= sent % ms < ms,
            report.per_second == sent / ms,
    ;
    vstd::arithmetic::div_mod::lemma_fundamental_div_mod(hundred, requests);
    vstd::arithmetic::div_mod::lemma_mod_bound(hundred, requests);
    assert(report.success_percent * requests <= hundred < (report.success_percent + 1) * requests)
        by (nonlinear_arith)
        requires
            hundred == requests * (hundred / requests) + hundred % requests,
            0 <= hundred % requests < requests,
            report.success_percent == hundred / requests,
    ;
}

/// The time of a round counts modulo 2^32 milliseconds: two looks at the clock
/// that are so far apart give the same report.
pub proof fn law_time_wraps_around(
    test: StressTest,
    started: u128,
    now: u128,
    later: u128,
    report: StressReport,
    later_report: StressReport,
)
    requires
        test.stage == (StressStage::Report { started }),
        started <= now,
        later == now + 0x1_0000_0000 * 1_000_000,
        call_ensures(StressTest::report, (&test, now), report),
        call_ensures(StressTest::report, (&test, later), later_report),
    ensures
        report.per_second == later_report.per_second,
{
    let ns = now - started;
    assert((ns + 0x1_0000_0000 * 1_000_000) / 1_000_000 == ns / 1_000_000 + 0x1_0000_0000);
    assert((ns / 1_000_000 + 0x1_0000_0000) % 0x1_0000_0000 == (ns / 1_000_000) % 0x1_0000_0000);
}

/// Which rounds can be reported: those that are over, with at least one
/// request, so few that a thousand times their number stays within 32 bits,
/// and at least a millisecond after their start, modulo 2^32.
pub proof fn law_which_rounds_are_reported(test: StressTest, now: u128, r: bool, counts: bool)
    requires
        call_ensures(StressTest::is_reportable, (&test, now), r),
        call_ensures(StressTest::can_count, (&test,), counts),
    ensures
        r <==> (test.stage matches StressStage::Report { started } && {
            &&& now >= started
            &&& ((now - started) / 1_000_000) % 0x1_0000_0000 > 0
            &&& 0 < test.success_count + test.error_count <= 4_294_967
        }),
        counts <==> test.success_count + test.error_count < 0xffff_ffff,
{
}

/// A round lasts for half of the duration, and for three seconds where there
/// is none: after that long a look at the clock ends it, and none before does.
/// It is timed from where it started.
pub proof fn law_round_lasts_for_its_share(
    board: MainBoard,
    duration: u128,
    timed: StressTest,
    endless: StressTest,
    test: StressTest,
    started: u128,
    now: u128,
    running: StressTest,
    later: u128,
    after: StressTest,
)
    requires
        call_ensures(MainBoard::stress_test, (&board, Some(duration)), timed),
        call_ensures(MainBoard::stress_test, (&board, None::<u128>), endless),
        now + test.round_ns <= u128::MAX,
        call_ensures(StressTest::on_start, (test, started, now), running),
        call_ensures(StressTest::on_time, (running, later), after),
    ensures
        timed.round_ns <= duration - timed.round_ns <= timed.round_ns + 1,
        !timed.endless,
        endless.round_ns == 3_000_000_000,
        endless.endless,
        timed.board == board && endless.board == board,
        timed.stage == StressStage::Start && endless.stage == StressStage::Start,
        timed.test_idx == 0 && endless.test_idx == 0,
        timed.success_count + timed.error_count == 0,
        endless.success_count + endless.error_count == 0,
        later > now + test.round_ns ==> after == (StressTest {
            stage: StressStage::Report { started },
            ..test
        }),
        later <= now + test.round_ns ==> after.stage is Request && after == (StressTest {
            stage: after.stage,
            ..test
        }),
{
}

/// A reply adds one to one of the two counters: to that of successes exactly
/// if it is one. The round goes on with the same times.
pub proof fn law_reply_adds_one(
    test: StressTest,
    started: u128,
    until: u128,
    reply: Reply,
    after: StressTest,
)
    requires
        test.stage == (StressStage::Request { started, until }),
        test.success_count + test.error_count < u32::MAX,
        call_ensures(StressTest::on_reply, (test, &reply), after),
    ensures
        after.success_count + after.error_count == test.success_count + test.error_count + 1,
        (reply matches Ok(ack) && ack is Success) ==> after.success_count == test.success_count + 1,
        !(reply matches Ok(ack) && ack is Success) ==> after.error_count == test.error_count + 1,
        after == (StressTest {
            stage: StressStage::Check { started, until },
            success_count: after.success_count,
            error_count: after.error_count,
            ..test
        }),
{
}

/// Every request of a stress test is the same, over the interface of the board.
pub proof fn law_requests_are_all_the_same(test: StressTest, action: StressAction)
    requires
        call_ensures(StressTest::action, (&test,), action),
    ensures
        action is Send <==> test.stage is Request,
        action matches StressAction::Send { over, payload } ==> {
            &&& over == Interface::CanFd <==> test.board.canfd
            &&& payload == (JetsonToMcu::ValueGet { value: RequestedValue::FirmwareVersions })
        },
        action is ReadClock <==> test.stage is Check,
        action is StartRound <==> test.stage is Start,
        action is Report <==> test.stage is Report,
        action is Finished <==> test.stage is Finished,
{
}

/// A round that was reported leaves nothing behind: the counters of the next
/// one are at zero, and its length is the same.
pub proof fn law_rounds_start_afresh(test: StressTest, after: StressTest)
    requires
        test.valid(),
        test.stage is Report,
        call_ensures(StressTest::on_report, (test,), after),
    ensures
        after.success_count == 0,
        after.error_count == 0,
        after.round_ns == test.round_ns,
        after.board == test.board,
        after.endless == test.endless,
        after.test_idx != test.test_idx,
        after.stage == StressStage::Start || after.stage == StressStage::Finished,
        after.stage == StressStage::Finished <==> !test.endless && test.test_idx == 1,
{
}

} // verus!
