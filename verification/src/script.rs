//! Operations that are a fixed sequence of messages and waits, each message
//! to be acknowledged with success before the next step.

use crate::main_board::Action;
use crate::message::{acked, CommonAckError, Interface, JetsonToMcu, Reply};
use crate::text::{decimal, unsigned_text};
use vstd::prelude::*;

verus! {

/// A position for the polarizer wheel.
#[derive(Debug, Clone, Copy, PartialEq, Eq, Structural)]
pub enum PolarizerOpts {
    Home,
    Passthrough,
    Horizontal,
    Vertical,
    /// The angle is in tenths of a degree.
    Angle { angle: u32 },
}

impl PolarizerOpts {
    /// The position in words.
    pub open spec fn words(self) -> Seq<char> {
        match self {
            PolarizerOpts::Home => "Home"@,
            PolarizerOpts::Passthrough => "Passthrough"@,
            PolarizerOpts::Horizontal => "Horizontal"@,
            PolarizerOpts::Vertical => "Vertical"@,
            PolarizerOpts::Angle { angle } => "Angle { angle: "@ + decimal(angle as nat) + " }"@,
        }
    }

    /// The position in words.
    pub fn text(&self) -> (r: String)
        ensures
            r@ == self.words(),
    {
        match self {
            PolarizerOpts::Home => "Home".to_owned(),
            PolarizerOpts::Passthrough => "Passthrough".to_owned(),
            PolarizerOpts::Horizontal => "Horizontal".to_owned(),
            PolarizerOpts::Vertical => "Vertical".to_owned(),
            PolarizerOpts::Angle { angle } => {
                let number = unsigned_text(*angle as u64);
                "Angle { angle: ".to_owned().concat(number.as_str()).concat(" }")
            },
        }
    }
}

/// What a message is sent for.
#[derive(Debug, Clone, Copy, PartialEq, Eq, Structural)]
pub enum Task {
    GimbalHome,
    GimbalPosition,
    GimbalMove,
    Fps,
    OnDuration,
    InfraredLeds,
    EyeTrigger,
    FaceTrigger,
    Polarizer(PolarizerOpts),
    BoosterLedsOn,
    RgbLedsOn,
    BoosterLedsOff,
    RgbLedsOff,
    WifiPower,
    HeatCameraPower,
    Reboot,
}

/// What became of a message that was not acknowledged with success.
#[derive(Debug, PartialEq, Eq)]
pub enum Cause {
    /// It was acknowledged with something else, by its code and in `Debug` and
    /// `Display` form.
    Refused { code: i32, debug: String, display: String },
    /// It was not sent, or not acknowledged, for this error.
    NotSent(String),
}

/// The failure of an operation.
#[derive(Debug, PartialEq, Eq)]
pub struct Failure {
    pub task: Task,
    pub cause: Cause,
}

impl Task {
    /// The gimbal is moved. An acknowledgement is then told in `Display` form,
    /// and otherwise in `Debug` form.
    pub open spec fn is_gimbal(self) -> bool {
        self == Task::GimbalHome || self == Task::GimbalPosition || self == Task::GimbalMove
    }

    /// What went wrong when the message was refused.
    pub open spec fn refused_words(self) -> Seq<char> {
        match self {
            Task::GimbalHome => "Gimbal auto home failed: ack error: "@,
            Task::GimbalPosition => "Gimbal set position failed: ack error: "@,
            Task::GimbalMove => "Gimbal move position failed: ack error: "@,
            Task::Fps => "Error setting FPS: ack: "@,
            Task::OnDuration => "Error setting on-duration: ack: "@,
            Task::InfraredLeds => "Error enabling infrared leds: ack: "@,
            Task::EyeTrigger => "Error enabling eye camera trigger: ack "@,
            Task::FaceTrigger => "Error enabling face camera trigger: ack "@,
            Task::Polarizer(opts) => "Error for command "@ + opts.words() + ": ack "@,
            Task::BoosterLedsOn => "Error enabling booster LEDs: ack "@,
            Task::RgbLedsOn => "Error enabling green LEDs: ack "@,
            Task::BoosterLedsOff => "Error disabling booster LEDs: ack "@,
            Task::RgbLedsOff => "Error disabling RGB LEDs: ack "@,
            Task::WifiPower => "error power cycling wifi: ack "@,
            Task::HeatCameraPower => "error power cycling heat camera (2v8): ack "@,
            Task::Reboot => "Error rebooting main microcontroller: ack error: "@,
        }
    }

    /// What went wrong when the message did not get through. For the gimbal
    /// the error speaks for itself.
    pub open spec fn not_sent_words(self) -> Seq<char> {
        match self {
            Task::GimbalHome => ""@,
            Task::GimbalPosition => ""@,
            Task::GimbalMove => ""@,
            Task::Fps => "Error setting FPS: "@,
            Task::OnDuration => "Error setting on-duration: "@,
            Task::InfraredLeds => "Error enabling infrared leds: "@,
            Task::EyeTrigger => "Error enabling eye camera trigger: "@,
            Task::FaceTrigger => "Error enabling eye camera trigger: "@,
            Task::Polarizer(opts) => "Error for command "@ + opts.words() + ": "@,
            Task::BoosterLedsOn => "Error enabling booster LEDs: "@,
            Task::RgbLedsOn => "Error enabling green LEDs: "@,
            Task::BoosterLedsOff => "Error disabling booster LEDs: "@,
            Task::RgbLedsOff => "Error disabling RGB LEDs: "@,
            Task::WifiPower => "error power cycling wifi: "@,
            Task::HeatCameraPower => "error power cycling heat camera (2v8): "@,
            Task::Reboot => "Error rebooting main microcontroller: "@,
        }
    }

    fn refused_text(&self) -> (r: String)
        ensures
            r@ == self.refused_words(),
    {
        match self {
            Task::GimbalHome => "Gimbal auto home failed: ack error: ".to_owned(),
            Task::GimbalPosition => "Gimbal set position failed: ack error: ".to_owned(),
            Task::GimbalMove => "Gimbal move position failed: ack error: ".to_owned(),
            Task::Fps => "Error setting FPS: ack: ".to_owned(),
            Task::OnDuration => "Error setting on-duration: ack: ".to_owned(),
            Task::InfraredLeds => "Error enabling infrared leds: ack: ".to_owned(),
            Task::EyeTrigger => "Error enabling eye camera trigger: ack ".to_owned(),
            Task::FaceTrigger => "Error enabling face camera trigger: ack ".to_owned(),
            Task::Polarizer(opts) => {
                let command = opts.text();
                "Error for command ".to_owned().concat(command.as_str()).concat(": ack ")
            },
            Task::BoosterLedsOn => "Error enabling booster LEDs: ack ".to_owned(),
            Task::RgbLedsOn => "Error enabling green LEDs: ack ".to_owned(),
            Task::BoosterLedsOff => "Error disabling booster LEDs: ack ".to_owned(),
            Task::RgbLedsOff => "Error disabling RGB LEDs: ack ".to_owned(),
            Task::WifiPower => "error power cycling wifi: ack ".to_owned(),
            Task::HeatCameraPower => "error power cycling heat camera (2v8): ack ".to_owned(),
            Task::Reboot => "Error rebooting main microcontroller: ack error: ".to_owned(),
        }
    }

    fn not_sent_text(&self) -> (r: String)
        ensures
            r@ == self.not_sent_words(),
    {
        match self {
            Task::GimbalHome => "".to_owned(),
            Task::GimbalPosition => "".to_owned(),
            Task::GimbalMove => "".to_owned(),
            Task::Fps => "Error setting FPS: ".to_owned(),
            Task::OnDuration => "Error setting on-duration: ".to_owned(),
            Task::InfraredLeds => "Error enabling infrared leds: ".to_owned(),
            Task::EyeTrigger => "Error enabling eye camera trigger: ".to_owned(),
            Task::FaceTrigger => "Error enabling eye camera trigger: ".to_owned(),
            Task::Polarizer(opts) => {
                let command = opts.text();
                "Error for command ".to_owned().concat(command.as_str()).concat(": ")
            },
            Task::BoosterLedsOn => "Error enabling booster LEDs: ".to_owned(),
            Task::RgbLedsOn => "Error enabling green LEDs: ".to_owned(),
            Task::BoosterLedsOff => "Error disabling booster LEDs: ".to_owned(),
            Task::RgbLedsOff => "Error disabling RGB LEDs: ".to_owned(),
            Task::WifiPower => "error power cycling wifi: ".to_owned(),
            Task::HeatCameraPower => "error power cycling heat camera (2v8): ".to_owned(),
            Task::Reboot => "Error rebooting main microcontroller: ".to_owned(),
        }
    }
}

impl Failure {
    /// The failure in words.
    pub open spec fn words(self) -> Seq<char> {
        match self.cause {
            Cause::Refused { debug, display, .. } => self.task.refused_words()
                + if self.task.is_gimbal() {
                display@
            } else {
                debug@
            },
            Cause::NotSent(error) => self.task.not_sent_words() + error@,
        }
    }

    /// The failure in words.
    pub fn message(&self) -> (r: String)
        ensures
            r@ == self.words(),
    {
        match &self.cause {
            Cause::Refused { code: _, debug, display } => match self.task {
                Task::GimbalHome | Task::GimbalPosition | Task::GimbalMove =>
                    self.task.refused_text().concat(display.as_str()),
                _ => self.task.refused_text().concat(debug.as_str()),
            },
            Cause::NotSent(error) => self.task.not_sent_text().concat(error.as_str()),
        }
    }
}

/// One step of a script.
#[derive(Debug, Clone, Copy, PartialEq, Eq, Structural)]
pub enum Step {
    Send { over: Interface, payload: JetsonToMcu, task: Task },
    Sleep { ms: u64 },
}

/// What a reply means for what the message was sent for.
pub open spec fn judged(task: Task, reply: Reply) -> Result<(), Failure> {
    match reply {
        Ok(CommonAckError::Success) => Ok(()),
        Ok(CommonAckError::Refused { code, debug, display }) => Err(
            Failure { task, cause: Cause::Refused { code, debug, display } },
        ),
        Err(error) => Err(Failure { task, cause: Cause::NotSent(error) }),
    }
}

/// What a reply means for what the message was sent for.
pub fn judge(task: Task, reply: Reply) -> (r: Result<(), Failure>)
    ensures
        r == judged(task, reply),
        r is Ok <==> acked(reply),
{
    match reply {
        Ok(CommonAckError::Success) => Ok(()),
        Ok(CommonAckError::Refused { code, debug, display }) => Err(
            Failure { task, cause: Cause::Refused { code, debug, display } },
        ),
        Err(error) => Err(Failure { task, cause: Cause::NotSent(error) }),
    }
}

/// The steps of an operation that are still to be done.
#[derive(Debug)]
pub struct Script {
    pub steps: Vec<Step>,
}

impl View for Script {
    type V = Seq<Step>;

    open spec fn view(&self) -> Seq<Step> {
        self.steps@
    }
}

/// What is to be done first.
pub open spec fn first_action(steps: Seq<Step>) -> Action {
    if steps.len() == 0 {
        Action::Finished
    } else {
        match steps[0] {
            Step::Send { over, payload, .. } => Action::Send { over, payload },
            Step::Sleep { ms } => Action::Sleep { ms },
        }
    }
}

/// What happens to a script.
pub enum ScriptEvent {
    /// The reply to a message came in.
    Reply(Reply),
    /// A wait is over.
    Wake,
}

/// The event is one that the first of the steps waits for.
pub open spec fn awaited(steps: Seq<Step>, event: ScriptEvent) -> bool {
    &&& steps.len() > 0
    &&& match event {
        ScriptEvent::Reply(_) => steps[0] is Send,
        ScriptEvent::Wake => steps[0] is Sleep,
    }
}

/// The steps that are left after an event. None is left after anything but success.
pub open spec fn left_after(steps: Seq<Step>, event: ScriptEvent) -> Seq<Step> {
    match event {
        ScriptEvent::Reply(reply) => if acked(reply) {
            steps.drop_first()
        } else {
            Seq::empty()
        },
        ScriptEvent::Wake => steps.drop_first(),
    }
}

impl Script {
    /// A script of one message.
    pub fn one(over: Interface, payload: JetsonToMcu, task: Task) -> (r: Script)
        ensures
            r@ == seq![Step::Send { over, payload, task }],
    {
        Script { steps: vec![Step::Send { over, payload, task }] }
    }

    /// What is to be done next.
    pub fn action(&self) -> (r: Action)
        ensures
            r == first_action(self@),
    {
        if self.steps.len() == 0 {
            Action::Finished
        } else {
            match self.steps[0] {
                Step::Send { over, payload, task: _ } => Action::Send { over, payload },
                Step::Sleep { ms } => Action::Sleep { ms },
            }
        }
    }

    /// Takes the reply to the message that was sent. Anything but success is
    /// the failure of the whole: no step is left then.
    pub fn on_reply(&mut self, reply: Reply) -> (r: Result<(), Failure>)
        requires
            awaited(old(self)@, ScriptEvent::Reply(reply)),
        ensures
            r == judged(old(self)@[0]->task, reply),
            final(self)@ == left_after(old(self)@, ScriptEvent::Reply(reply)),
    {
        match self.steps[0] {
            Step::Send { over: _, payload: _, task } => {
                let r = judge(task, reply);
                if r.is_ok() {
                    let _ = self.steps.remove(0);
                    assert(self@ =~= old(self)@.drop_first());
                } else {
                    self.steps.clear();
                }
                r
            },
            Step::Sleep { .. } => Ok(()),
        }
    }

    /// The wait is over.
    pub fn on_wake(&mut self)
        requires
            awaited(old(self)@, ScriptEvent::Wake),
        ensures
            final(self)@ == left_after(old(self)@, ScriptEvent::Wake),
    {
        let _ = self.steps.remove(0);
        assert(self@ =~= old(self)@.drop_first());
    }
}

/// The script at an index goes over into the next one by the event.
pub open spec fn goes_on(scripts: Seq<Script>, events: Seq<ScriptEvent>, i: int) -> bool {
    &&& awaited(scripts[i]@, events[i])
    &&& scripts[i + 1]@ == left_after(scripts[i]@, events[i])
}

/// The scripts are one script, from each event to the next.
pub open spec fn goes_through(scripts: Seq<Script>, events: Seq<ScriptEvent>) -> bool {
    &&& scripts.len() == events.len() + 1
    &&& forall|i: int| 0 <= i < events.len() ==> #[trigger] goes_on(scripts, events, i)
}

/// The event is a reply other than success.
pub open spec fn refuses(event: ScriptEvent) -> bool {
    event matches ScriptEvent::Reply(reply) && !acked(reply)
}

/// The steps of a script are done in order and none is left out, and the
/// first reply other than success is the last thing that happens to it: no
/// step follows.
pub proof fn law_steps_are_done_in_order(scripts: Seq<Script>, events: Seq<ScriptEvent>)
    requires
        goes_through(scripts, events),
    ensures
        events.len() <= scripts[0]@.len(),
        forall|i: int|
            0 <= i < events.len() ==> #[trigger] scripts[i]@ == scripts[0]@.skip(i),
        forall|i: int| 0 <= i < events.len() - 1 ==> !refuses(#[trigger] events[i]),
        scripts.last()@ == if events.len() > 0 && refuses(events.last()) {
            Seq::empty()
        } else {
            scripts[0]@.skip(events.len() as int)
        },
    decreases events.len(),
{
    if events.len() > 0 {
        let last = events.len() - 1;
        let before = scripts.drop_last();
        let prior = events.drop_last();
        assert forall|i: int| 0 <= i < prior.len() implies #[trigger] goes_on(
            before,
            prior,
            i,
        ) by {
            assert(goes_on(scripts, events, i));
        }
        law_steps_are_done_in_order(before, prior);
        assert(goes_on(scripts, events, last));
        assert(before.last() == scripts[last]);
        assert forall|i: int| 0 <= i < last implies !refuses(#[trigger] events[i]) by {
            assert(events[i] == prior[i]);
        }
        assert forall|i: int| 0 <= i < events.len() implies #[trigger] scripts[i]@
            == scripts[0]@.skip(i) by {
            if i < last {
                assert(scripts[i] == before[i]);
            }
        }
        assert(scripts[0]@.skip(last).drop_first() =~= scripts[0]@.skip(last + 1));
    } else {
        assert(scripts[0]@.skip(0) =~= scripts[0]@);
    }
}

/// The messages among the steps, in order.
pub open spec fn sends(steps: Seq<Step>) -> Seq<Step>
    decreases steps.len(),
{
    if steps.len() == 0 {
        Seq::empty()
    } else if steps[0] is Send {
        seq![steps[0]] + sends(steps.drop_first())
    } else {
        sends(steps.drop_first())
    }
}

/// What a script comes to, given the replies to its messages one after the
/// other: the steps left when the replies are used up, or the failure.
pub open spec fn run(steps: Seq<Step>, replies: Seq<Reply>) -> Result<Seq<Step>, Failure>
    decreases steps.len(),
{
    if steps.len() == 0 {
        Ok(steps)
    } else {
        match steps[0] {
            Step::Sleep { .. } => run(steps.drop_first(), replies),
            Step::Send { task, .. } => if replies.len() == 0 {
                Ok(steps)
            } else {
                match judged(task, replies[0]) {
                    Ok(()) => run(steps.drop_first(), replies.drop_first()),
                    Err(failure) => Err(failure),
                }
            },
        }
    }
}

/// A script comes to its end exactly if each of its messages is acknowledged
/// with success.
pub proof fn law_script_succeeds_if_all_is_acknowledged(steps: Seq<Step>, replies: Seq<Reply>)
    requires
        replies.len() == sends(steps).len(),
    ensures
        run(steps, replies) == Ok::<Seq<Step>, Failure>(Seq::empty()) <==> forall|k: int|
            0 <= k < replies.len() ==> acked(#[trigger] replies[k]),
    decreases steps.len(),
{
    if steps.len() == 0 {
        assert(steps =~= Seq::empty());
    } else if steps[0] is Sleep {
        law_script_succeeds_if_all_is_acknowledged(steps.drop_first(), replies);
    } else {
        let rest = replies.drop_first();
        law_script_succeeds_if_all_is_acknowledged(steps.drop_first(), rest);
        if forall|k: int| 0 <= k < replies.len() ==> acked(#[trigger] replies[k]) {
            assert(acked(replies[0]));
            assert forall|k: int| 0 <= k < rest.len() implies acked(#[trigger] rest[k]) by {
                assert(rest[k] == replies[k + 1]);
            }
        }
        if run(steps, replies) == Ok::<Seq<Step>, Failure>(Seq::empty()) {
            assert forall|k: int| 0 <= k < replies.len() implies acked(#[trigger] replies[k]) by {
                if k > 0 {
                    assert(replies[k] == rest[k - 1]);
                }
            }
        }
    }
}

/// A script fails with the first message that is not acknowledged with
/// success, and for its reply; what would follow it plays no part.
pub proof fn law_script_fails_with_the_first_refusal(
    steps: Seq<Step>,
    replies: Seq<Reply>,
    k: int,
)
    requires
        0 <= k < replies.len(),
        k < sends(steps).len(),
        forall|j: int| 0 <= j < k ==> acked(#[trigger] replies[j]),
        !acked(replies[k]),
    ensures
        judged(sends(steps)[k]->task, replies[k]) is Err,
        run(steps, replies) == Err::<Seq<Step>, Failure>(
            judged(sends(steps)[k]->task, replies[k])->Err_0,
        ),
    decreases steps.len(),
{
    if steps[0] is Sleep {
        law_script_fails_with_the_first_refusal(steps.drop_first(), replies, k);
    } else if k > 0 {
        let rest = replies.drop_first();
        assert(acked(replies[0]));
        assert forall|j: int| 0 <= j < k - 1 implies acked(#[trigger] rest[j]) by {
            assert(rest[j] == replies[j + 1]);
        }
        assert(rest[k - 1] == replies[k]);
        law_script_fails_with_the_first_refusal(steps.drop_first(), rest, k - 1);
    }
}

/// What is to be done next is what the first step says, to the letter, and
/// nothing once no step is left.
pub proof fn law_next_action_is_the_first_step(script: Script, action: Action)
    requires
        call_ensures(Script::action, (&script,), action),
    ensures
        script@ == script.steps@,
        action is Finished <==> script@.len() == 0,
        forall|over: Interface, payload: JetsonToMcu, task: Task|
            script@.len() > 0 && script@[0] == (Step::Send { over, payload, task }) ==> action == (
            Action::Send { over, payload }),
        forall|ms: u64|
            script@.len() > 0 && script@[0] == (Step::Sleep { ms }) ==> action == (Action::Sleep {
                ms,
            }),
        !(action is Listen),
{
}

/// A failure tells what came back: for whatever reply other than success, its
/// cause holds each part of that reply, and it names what the message was for.
pub proof fn law_failure_tells_what_came_back(
    task: Task,
    reply: Reply,
    r: Result<(), Failure>,
)
    requires
        call_ensures(judge, (task, reply), r),
    ensures
        r == judged(task, reply),
        r is Ok <==> (reply matches Ok(ack) && ack is Success),
        r matches Err(failure) ==> failure.task == task && match failure.cause {
            Cause::Refused { code, debug, display } => reply == Ok::<CommonAckError, String>(
                CommonAckError::Refused { code, debug, display },
            ),
            Cause::NotSent(error) => reply == Err::<CommonAckError, String>(error),
        },
{
}

/// The words of two failures of one task differ only in what came back, which
/// stands at their end as it came: the gimbal tells an acknowledgement in its
/// one form, and every other task in its other.
pub proof fn law_words_end_with_what_came_back(
    task: Task,
    code: i32,
    debug: String,
    display: String,
    refused: String,
    other_code: i32,
    other_debug: String,
    other_display: String,
    other_refused: String,
    error: String,
    not_sent: String,
    other_error: String,
    other_not_sent: String,
)
    requires
        call_ensures(
            Failure::message,
            (&Failure { task, cause: Cause::Refused { code, debug, display } },),
            refused,
        ),
        call_ensures(
            Failure::message,
            (&Failure {
                task,
                cause: Cause::Refused {
                    code: other_code,
                    debug: other_debug,
                    display: other_display,
                },
            },),
            other_refused,
        ),
        call_ensures(
            Failure::message,
            (&Failure { task, cause: Cause::NotSent(error) },),
            not_sent,
        ),
        call_ensures(
            Failure::message,
            (&Failure { task, cause: Cause::NotSent(other_error) },),
            other_not_sent,
        ),
    ensures
        exists|words: Seq<char>|
            #![trigger words.len()]
            if task is GimbalHome || task is GimbalPosition || task is GimbalMove {
                refused@ == words + display@ && other_refused@ == words + other_display@
            } else {
                refused@ == words + debug@ && other_refused@ == words + other_debug@
            },
        exists|words: Seq<char>|
            #![trigger words.len()]
            not_sent@ == words + error@ && other_not_sent@ == words + other_error@,
        task is GimbalHome || task is GimbalPosition || task is GimbalMove ==> not_sent@ == error@,
{
    reveal_strlit("");
    let refused_words = task.refused_words();
    let not_sent_words = task.not_sent_words();
    assert(refused_words.len() >= 0);
    assert(not_sent_words.len() >= 0);
    assert(not_sent@ == not_sent_words + error@);
    if task is GimbalHome || task is GimbalPosition || task is GimbalMove {
        assert(not_sent_words =~= Seq::empty());
        assert(not_sent_words + error@ =~= error@);
    }
}

/// A polarizer command that fails tells the angle that was asked for.
pub proof fn law_polarizer_failure_tells_the_angle(
    angle: u32,
    number: String,
    code: i32,
    debug: String,
    display: String,
    refused: String,
    error: String,
    not_sent: String,
)
    requires
        call_ensures(unsigned_text, (angle as u64,), number),
        call_ensures(
            Failure::message,
            (&Failure {
                task: Task::Polarizer(PolarizerOpts::Angle { angle }),
                cause: Cause::Refused { code, debug, display },
            },),
            refused,
        ),
        call_ensures(
            Failure::message,
            (&Failure {
                task: Task::Polarizer(PolarizerOpts::Angle { angle }),
                cause: Cause::NotSent(error),
            },),
            not_sent,
        ),
    ensures
        refused@ == "Error for command "@ + ("Angle { angle: "@ + number@ + " }"@) + ": ack "@
            + debug@,
        not_sent@ == "Error for command "@ + ("Angle { angle: "@ + number@ + " }"@) + ": "@
            + error@,
{
}

/// After a reply the script goes on with the step behind the one that was
/// sent if the reply is success, and has no step left for any other reply;
/// after a wait it goes on with the step behind it.
pub proof fn law_only_success_goes_on(
    first: Step,
    rest: Seq<Step>,
    code: i32,
    debug: String,
    display: String,
    error: String,
)
    ensures
        left_after(seq![first] + rest, ScriptEvent::Reply(Ok(CommonAckError::Success))) == rest,
        left_after(
            seq![first] + rest,
            ScriptEvent::Reply(Ok(CommonAckError::Refused { code, debug, display })),
        ).len() == 0,
        left_after(seq![first] + rest, ScriptEvent::Reply(Err(error))).len() == 0,
        left_after(seq![first] + rest, ScriptEvent::Wake) == rest,
{
    assert((seq![first] + rest).drop_first() =~= rest);
}

/// A script takes a reply by the letter: success goes on with the step behind
/// the one that was sent, and anything else fails with what came back and
/// leaves no step.
pub proof fn law_reply_decides_how_a_script_goes_on(
    before: Script,
    reply: Reply,
    r: Result<(), Failure>,
    after: Script,
)
    requires
        before.steps@.len() > 0,
        before.steps@[0] is Send,
        exists|script: &mut Script|
            *script == before && *final(script) == after && #[trigger] call_ensures(
                Script::on_reply,
                (script, reply),
                r,
            ),
    ensures
        match reply {
            Ok(CommonAckError::Success) => r is Ok && after.steps@ == before.steps@.skip(1),
            Ok(CommonAckError::Refused { code, debug, display }) => after.steps@.len() == 0 && r
                == Err::<(), Failure>(
                Failure {
                    task: before.steps@[0]->task,
                    cause: Cause::Refused { code, debug, display },
                },
            ),
            Err(error) => after.steps@.len() == 0 && r == Err::<(), Failure>(
                Failure { task: before.steps@[0]->task, cause: Cause::NotSent(error) },
            ),
        },
{
    assert(before@.drop_first() =~= before.steps@.skip(1));
}

/// After a wait a script goes on with the step behind it.
pub proof fn law_wait_goes_on_with_the_next_step(before: Script, after: Script)
    requires
        before.steps@.len() > 0,
        before.steps@[0] is Sleep,
        exists|script: &mut Script|
            *script == before && *final(script) == after && #[trigger] call_ensures(
                Script::on_wake,
                (script,),
                (),
            ),
    ensures
        after.steps@ == before.steps@.skip(1),
{
    assert(before@.drop_first() =~= before.steps@.skip(1));
}

} // verus!
