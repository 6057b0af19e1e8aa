//! Dumping what the main microcontroller sends.

use crate::main_board::MainBoard;
use crate::message::{McuPayload, McuToJetson};
use vstd::prelude::*;

verus! {

/// How long to wait when the message queue is empty, in milliseconds.
pub const DUMP_PAUSE_MS: u64 = 200;

/// How far a dump has come.
#[derive(Debug, Clone, Copy, PartialEq, Eq, Structural)]
pub enum DumpStage {
    /// The clock tells whether the dump is over.
    Check,
    /// The messages in the queue are printed.
    Drain,
    /// The queue is empty.
    Pause,
    Finished,
}

/// What a dump needs done before it can go on.
#[derive(Debug, Clone, Copy, PartialEq, Eq, Structural)]
pub enum DumpAction {
    /// Read the clock.
    ReadClock,
    /// Take what the message queue holds, without waiting.
    Receive,
    /// Wait for this many milliseconds.
    Sleep { ms: u64 },
    /// Nothing: the dump is over.
    Finished,
}

/// Something to print.
#[derive(Debug, PartialEq, Eq)]
pub enum Print {
    /// The text of a log message.
    Log(String),
    /// The whole content of a message, in `Debug` form.
    Message(String),
}

/// A dump of the messages. Times are nanoseconds on one monotonic clock.
#[derive(Debug, Clone, Copy, PartialEq, Eq)]
pub struct Dump {
    /// When the dump ends; without it, never.
    pub until: Option<u128>,
    pub logs_only: bool,
    pub stage: DumpStage,
}

/// What is printed of what the message queue yielded.
pub open spec fn dumped(logs_only: bool, received: Option<McuPayload>) -> Option<Print> {
    match received {
        Some(McuPayload::FromMain { message, text }) => if !logs_only {
            Some(Print::Message(text))
        } else {
            match message {
                McuToJetson::Log { log } => Some(Print::Log(log)),
                _ => None,
            }
        },
        _ => None,
    }
}

/// The stage after what the message queue yielded. What is not from the main
/// board counts as the end of what there is for now.
pub open spec fn drained(received: Option<McuPayload>) -> DumpStage {
    match received {
        Some(McuPayload::FromMain { .. }) => DumpStage::Drain,
        _ => DumpStage::Pause,
    }
}

impl MainBoard {
    /// Starts to dump the messages from now on, for a while or for ever.
    pub fn dump(&self, now: u128, duration: Option<u128>, logs_only: bool) -> (r: Dump)
        requires
            duration matches Some(d) ==> now + d <= u128::MAX,
        ensures
            r == (Dump {
                until: match duration {
                    Some(d) => Some((now + d) as u128),
                    None => None,
                },
                logs_only,
                stage: DumpStage::Check,
            }),
    {
        let until: Option<u128> = match duration {
            Some(d) => Some(now + d),
            None => None,
        };
        Dump { until, logs_only, stage: DumpStage::Check }
    }
}

impl Dump {
    /// The dump is over at this time.
    pub open spec fn over(self, now: u128) -> bool {
        self.until matches Some(until) && now > until
    }

    /// The same dump at another stage.
    pub open spec fn at(self, stage: DumpStage) -> Dump {
        Dump { stage, ..self }
    }

    /// What is to be done next.
    pub fn action(&self) -> (r: DumpAction)
        ensures
            r == (match self.stage {
                DumpStage::Check => DumpAction::ReadClock,
                DumpStage::Drain => DumpAction::Receive,
                DumpStage::Pause => DumpAction::Sleep { ms: DUMP_PAUSE_MS },
                DumpStage::Finished => DumpAction::Finished,
            }),
    {
        match self.stage {
            DumpStage::Check => DumpAction::ReadClock,
            DumpStage::Drain => DumpAction::Receive,
            DumpStage::Pause => DumpAction::Sleep { ms: DUMP_PAUSE_MS },
            DumpStage::Finished => DumpAction::Finished,
        }
    }

    /// Takes the time: the dump ends, or goes on with what is in the queue.
    pub fn on_time(self, now: u128) -> (r: Dump)
        requires
            self.stage == DumpStage::Check,
        ensures
            r == self.at(
                if self.over(now) {
                    DumpStage::Finished
                } else {
                    DumpStage::Drain
                },
            ),
    {
        let over = match self.until {
            Some(until) => now > until,
            None => false,
        };
        let mut dump = self;
        dump.stage = if over {
            DumpStage::Finished
        } else {
            DumpStage::Drain
        };
        dump
    }

    /// Takes what the message queue yields: a message, or `None` where it is
    /// empty or closed. Returns what there is to print.
    pub fn on_message(self, received: Option<McuPayload>) -> (r: (Dump, Option<Print>))
        requires
            self.stage == DumpStage::Drain,
        ensures
            r.0 == self.at(drained(received)),
            r.1 == dumped(self.logs_only, received),
    {
        let mut dump = self;
        let print = match received {
            Some(McuPayload::FromMain { message, text }) => if self.logs_only {
                match message {
                    McuToJetson::Log { log } => Some(Print::Log(log)),
                    _ => None,
                }
            } else {
                Some(Print::Message(text))
            },
            _ => {
                dump.stage = DumpStage::Pause;
                None
            },
        };
        (dump, print)
    }

    /// The wait is over.
    pub fn on_wake(self) -> (r: Dump)
        requires
            self.stage == DumpStage::Pause,
        ensures
            r == self.at(DumpStage::Check),
    {
        let mut dump = self;
        dump.stage = DumpStage::Check;
        dump
    }
}

/// What is printed of what the queue yields, in order, up to the first pause.
pub open spec fn printed(logs_only: bool, queue: Seq<Option<McuPayload>>) -> Seq<Print>
    decreases queue.len(),
{
    if queue.len() == 0 || drained(queue[0]) == DumpStage::Pause {
        Seq::empty()
    } else {
        match dumped(logs_only, queue[0]) {
            Some(print) => seq![print] + printed(logs_only, queue.drop_first()),
            None => printed(logs_only, queue.drop_first()),
        }
    }
}

/// The messages of the main board that the queue yields up to the first pause.
pub open spec fn drawn(queue: Seq<Option<McuPayload>>) -> Seq<McuPayload>
    decreases queue.len(),
{
    if queue.len() == 0 {
        Seq::empty()
    } else {
        match queue[0] {
            Some(payload) => if payload is FromMain {
                seq![payload] + drawn(queue.drop_first())
            } else {
                Seq::empty()
            },
            None => Seq::empty(),
        }
    }
}

/// A dump of logs prints the text of every log message up to the first pause,
/// in order, and nothing else.
pub proof fn law_log_dump_prints_logs_only(queue: Seq<Option<McuPayload>>)
    ensures
        printed(true, queue) == drawn(queue).filter(
            |p: McuPayload| p->FromMain_message is Log,
        ).map_values(|p: McuPayload| Print::Log(p->FromMain_message->log)),
    decreases queue.len(),
{
    let is_log = |p: McuPayload| p->FromMain_message is Log;
    let text = |p: McuPayload| Print::Log(p->FromMain_message->log);
    if queue.len() > 0 {
        let rest = queue.drop_first();
        law_log_dump_prints_logs_only(rest);
        if queue[0] is Some && queue[0]->0 is FromMain {
            let first = seq![queue[0]->0];
            reveal_with_fuel(Seq::filter, 2);
            assert(first.drop_last() =~= Seq::empty());
            Seq::filter_distributes_over_add(first, drawn(rest), is_log);
            assert(printed(true, queue) =~= (first.filter(is_log) + drawn(rest).filter(
                is_log,
            )).map_values(text));
        } else {
            reveal(Seq::filter);
        }
    } else {
        reveal(Seq::filter);
    }
}

/// A dump of everything prints the whole content of each message of the main
/// board up to the first pause, of whatever kind, in order and none left out.
pub proof fn law_full_dump_prints_every_message(queue: Seq<Option<McuPayload>>)
    ensures
        printed(false, queue) == drawn(queue).map_values(
            |p: McuPayload| Print::Message(p->FromMain_text),
        ),
    decreases queue.len(),
{
    if queue.len() > 0 {
        law_full_dump_prints_every_message(queue.drop_first());
    }
}

/// A dump is over at the first look at the clock after its duration, and not
/// before; without a duration it never is.
pub proof fn law_dump_lasts_for_its_duration(
    board: MainBoard,
    now: u128,
    duration: Option<u128>,
    logs_only: bool,
    dump: Dump,
    later: u128,
    after: Dump,
)
    requires
        call_ensures(MainBoard::dump, (&board, now, duration, logs_only), dump),
        duration matches Some(d) ==> now + d <= u128::MAX,
        call_ensures(Dump::on_time, (dump, later), after),
    ensures
        dump.stage == DumpStage::Check,
        after.stage == DumpStage::Finished <==> (duration matches Some(d) && later > now + d),
        after.stage != DumpStage::Finished ==> after.stage == DumpStage::Drain,
        after.logs_only == logs_only,
        after.until == dump.until,
{
}

/// A message of the main board is printed whole, or if only logs are wanted,
/// printed exactly if it is one, by its text; the next message follows at
/// once. Anything else prints nothing and makes the dump pause.
pub proof fn law_each_message_is_printed_as_it_is(
    dump: Dump,
    message: McuToJetson,
    text: String,
    drawn: (Dump, Option<Print>),
    other: Option<McuPayload>,
    paused: (Dump, Option<Print>),
)
    requires
        dump.stage == DumpStage::Drain,
        call_ensures(
            Dump::on_message,
            (dump, Some(McuPayload::FromMain { message, text })),
            drawn,
        ),
        other matches Some(payload) ==> !(payload is FromMain),
        call_ensures(Dump::on_message, (dump, other), paused),
    ensures
        !dump.logs_only ==> drawn.1 == Some(Print::Message(text)),
        dump.logs_only ==> match message {
            McuToJetson::Log { log } => drawn.1 == Some(Print::Log(log)),
            _ => drawn.1 is None,
        },
        drawn.0 == dump,
        paused.1 is None,
        paused.0.stage == DumpStage::Pause,
        paused.0.until == dump.until,
        paused.0.logs_only == dump.logs_only,
{
}

/// A pause of 200 milliseconds leads back to the clock, and nothing else about
/// the dump changes.
pub proof fn law_dump_goes_on_after_a_pause(dump: Dump, action: DumpAction, after: Dump)
    requires
        call_ensures(Dump::action, (&dump,), action),
        dump.stage == DumpStage::Pause ==> call_ensures(Dump::on_wake, (dump,), after),
    ensures
        dump.stage == DumpStage::Pause <==> action == (DumpAction::Sleep { ms: 200 }),
        dump.stage == DumpStage::Check <==> action == DumpAction::ReadClock,
        dump.stage == DumpStage::Drain <==> action == DumpAction::Receive,
        dump.stage == DumpStage::Finished <==> action == DumpAction::Finished,
        dump.stage == DumpStage::Pause ==> after == (Dump { stage: DumpStage::Check, ..dump }),
{
}

} // verus!
