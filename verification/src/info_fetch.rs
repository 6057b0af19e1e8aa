//! Asking the main board for its info and listening for the answers.

use crate::board_info::{
    last_where, law_battery_status_is_the_first_full_reading, law_hardware_states_are_kept,
    law_latest_firmware_versions_win, law_latest_hardware_revision_wins,
    law_messages_bring_a_full_battery_status, law_readings_come_from_messages, learn, learn_all,
    read_all, read_battery, readable, settled, states_in, BatteryStatus, BoardFacts,
    MainBoardInfo, OrbRevision,
};
use crate::main_board::{Action, MainBoard};
use crate::message::{
    acked, is_acked, BatteryVoltage, HardwareState, Interface, JetsonToMcu, McuPayload, McuToJetson, Reply,
    RequestedValue, Versions,
};
use vstd::prelude::*;

verus! {

/// How long the answers of the board are waited for, in milliseconds.
pub const LISTEN_TIMEOUT_MS: u64 = 2000;

/// How far the fetching of the board info has come.
#[derive(Debug, Clone, Copy, PartialEq, Eq, Structural)]
pub enum FetchStage {
    /// A message over CAN-FD makes the board send its broadcasts, like those
    /// of the battery, to this host.
    Subscribe,
    AskFirmware,
    AskHardware,
    AskDiag,
    Listen,
    Finished,
}

impl FetchStage {
    /// A reply to a message is awaited.
    pub open spec fn awaits_reply(self) -> bool {
        self != FetchStage::Listen && self != FetchStage::Finished
    }

    /// The stage after the reply, whatever it says.
    pub open spec fn next(self, diag: Option<bool>) -> FetchStage {
        match self {
            FetchStage::Subscribe => FetchStage::AskFirmware,
            FetchStage::AskFirmware => FetchStage::AskHardware,
            FetchStage::AskHardware => if diag == Some(true) {
                FetchStage::AskDiag
            } else {
                FetchStage::Listen
            },
            FetchStage::AskDiag => FetchStage::Listen,
            other => other,
        }
    }

    /// A reply other than success, at this stage, is an error. The versions
    /// have to be asked for; subscription and diagnostic data may fail.
    pub open spec fn must_be_acked(self) -> bool {
        self == FetchStage::AskFirmware || self == FetchStage::AskHardware
    }

    /// What is to be done at this stage.
    pub open spec fn action(self, board: MainBoard) -> Action {
        match self {
            FetchStage::Subscribe => Action::Send {
                over: Interface::CanFd,
                payload: JetsonToMcu::ValueGet { value: RequestedValue::FirmwareVersions },
            },
            FetchStage::AskFirmware => board.sends(
                JetsonToMcu::ValueGet { value: RequestedValue::FirmwareVersions },
            ),
            FetchStage::AskHardware => board.sends(
                JetsonToMcu::ValueGet { value: RequestedValue::HardwareVersions },
            ),
            FetchStage::AskDiag => board.sends(JetsonToMcu::SyncDiagData { interval: 0 }),
            FetchStage::Listen => Action::Listen { timeout_ms: LISTEN_TIMEOUT_MS },
            FetchStage::Finished => Action::Finished,
        }
    }
}

/// The stage after a message: the listening goes on unless everything is known.
pub open spec fn heard(facts: BoardFacts) -> FetchStage {
    if facts.complete() {
        FetchStage::Finished
    } else {
        FetchStage::Listen
    }
}

/// The fetching of the board info: it asks for the versions, and for diagnostic
/// data where wanted, and then listens until it knows everything or the time is
/// up. It does not fail: it has what was heard.
#[derive(Debug)]
pub struct InfoFetch {
    pub board: MainBoard,
    pub diag: Option<bool>,
    pub stage: FetchStage,
    /// A version could not be asked for, or the time was up.
    pub is_err: bool,
    pub info: MainBoardInfo,
    /// The readings of the battery so far.
    pub battery: BatteryStatus,
}

impl MainBoardInfo {
    /// Starts to fetch the info from a board, adding to what is known.
    /// Diagnostic data is asked for where `diag` is `Some(true)`.
    pub fn build(self, board: MainBoard, diag: Option<bool>) -> (r: InfoFetch)
        ensures
            r.board == board,
            r.diag == diag,
            r.stage == FetchStage::Subscribe,
            !r.is_err,
            r.info == self,
            r.battery == BatteryStatus::nothing(),
    {
        InfoFetch {
            board,
            diag,
            stage: FetchStage::Subscribe,
            is_err: false,
            info: self,
            battery: BatteryStatus::new(),
        }
    }
}

impl InfoFetch {
    /// A message from the queue that can be taken in: it comes from the main
    /// board, and is readable.
    pub open spec fn hears(received: Option<McuPayload>) -> bool {
        received matches Some(p) ==> {
            &&& p is FromMain
            &&& readable(p->FromMain_message)
        }
    }

    /// The fetch after a reply: the stage moves on, whatever the reply says.
    pub open spec fn after_reply(self, reply: Reply) -> InfoFetch {
        InfoFetch {
            stage: self.stage.next(self.diag),
            is_err: self.is_err || (self.stage.must_be_acked() && !acked(reply)),
            ..self
        }
    }

    /// The fetch after the time is up: what was heard so far is kept, and so is
    /// each reading of the battery.
    pub open spec fn after_timeout(self) -> InfoFetch {
        InfoFetch {
            stage: FetchStage::Finished,
            is_err: true,
            info: MainBoardInfo {
                battery_status: settled(self.info.battery_status, self.battery),
                ..self.info
            },
            ..self
        }
    }

    /// `r` is the fetch after what the message queue yielded. A message is
    /// learned from and ends the listening if everything is then known; a
    /// closed queue changes nothing, and leaves it to the time to end it.
    pub open spec fn becomes(self, received: Option<McuPayload>, r: InfoFetch) -> bool {
        &&& r.board == self.board
        &&& r.diag == self.diag
        &&& r.is_err == self.is_err
        &&& received is None ==> r == self
        &&& received matches Some(McuPayload::FromMain { message, .. }) ==> {
            &&& r.info@ == learn(self.info@, self.battery, message)
            &&& r.battery == read_battery(self.battery, message)
            &&& r.stage == heard(r.info@)
        }
    }

    /// Whether what the message queue yielded can be taken in.
    pub fn can_hear(received: &Option<McuPayload>) -> (r: bool)
        ensures
            r == Self::hears(*received),
    {
        match received {
            None => true,
            Some(McuPayload::FromMain { message: McuToJetson::BatteryVoltage(v), .. }) => v.is_in_range(),
            Some(McuPayload::FromMain { .. }) => true,
            Some(_) => false,
        }
    }

    /// What is to be done next.
    pub fn action(&self) -> (r: Action)
        ensures
            r == self.stage.action(self.board),
    {
        let firmware = JetsonToMcu::ValueGet { value: RequestedValue::FirmwareVersions };
        let hardware = JetsonToMcu::ValueGet { value: RequestedValue::HardwareVersions };
        match self.stage {
            FetchStage::Subscribe => Action::Send { over: Interface::CanFd, payload: firmware },
            FetchStage::AskFirmware => Action::Send {
                over: self.board.interface(),
                payload: firmware,
            },
            FetchStage::AskHardware => Action::Send {
                over: self.board.interface(),
                payload: hardware,
            },
            FetchStage::AskDiag => Action::Send {
                over: self.board.interface(),
                payload: JetsonToMcu::SyncDiagData { interval: 0 },
            },
            FetchStage::Listen => Action::Listen { timeout_ms: LISTEN_TIMEOUT_MS },
            FetchStage::Finished => Action::Finished,
        }
    }

    /// Takes the reply to the message that was sent.
    pub fn on_reply(self, reply: &Reply) -> (r: InfoFetch)
        requires
            self.stage.awaits_reply(),
        ensures
            r == self.after_reply(*reply),
    {
        let mut fetch = self;
        match fetch.stage {
            FetchStage::Subscribe => {
                fetch.stage = FetchStage::AskFirmware;
            },
            FetchStage::AskFirmware => {
                if !is_acked(reply) {
                    fetch.is_err = true;
                }
                fetch.stage = FetchStage::AskHardware;
            },
            FetchStage::AskHardware => {
                if !is_acked(reply) {
                    fetch.is_err = true;
                }
                fetch.stage = match fetch.diag {
                    Some(true) => FetchStage::AskDiag,
                    _ => FetchStage::Listen,
                };
            },
            _ => {
                fetch.stage = FetchStage::Listen;
            },
        }
        fetch
    }

    /// Takes what the message queue yields: a message, or `None` where the
    /// queue is closed.
    pub fn on_message(self, received: Option<McuPayload>) -> (r: InfoFetch)
        requires
            self.stage == FetchStage::Listen,
            Self::hears(received),
        ensures
            self.becomes(received, r),
    {
        let mut fetch = self;
        match received {
            Some(McuPayload::FromMain { message, .. }) => {
                let mut battery = fetch.battery;
                let complete = fetch.info.hear(&mut battery, message);
                fetch.battery = battery;
                if complete {
                    fetch.stage = FetchStage::Finished;
                }
            },
            _ => {},
        }
        fetch
    }

    /// The time for listening is up: what was heard so far is kept.
    pub fn on_timeout(self) -> (r: InfoFetch)
        requires
            self.stage == FetchStage::Listen,
        ensures
            r == self.after_timeout(),
    {
        let mut fetch = self;
        fetch.stage = FetchStage::Finished;
        fetch.is_err = true;
        if fetch.info.battery_status.is_none() && !fetch.battery.is_nothing() {
            fetch.info.battery_status = Some(fetch.battery);
        }
        fetch
    }

    /// The info that was fetched. A fetch does not fail, whatever stood in its way.
    pub fn result(self) -> (r: Result<MainBoardInfo, MainBoardInfo>)
        requires
            self.stage == FetchStage::Finished,
        ensures
            r == Ok::<MainBoardInfo, MainBoardInfo>(self.info),
    {
        Ok(self.info)
    }
}

/// The info, whichever way it came.
pub fn known(result: Result<MainBoardInfo, MainBoardInfo>) -> (r: MainBoardInfo)
    ensures
        result == Ok::<MainBoardInfo, MainBoardInfo>(r) || result == Err::<
            MainBoardInfo,
            MainBoardInfo,
        >(r),
{
    match result {
        Ok(info) => info,
        Err(info) => info,
    }
}

/// What is known about an orb, as far as the main board tells it.
#[derive(Debug, PartialEq, Eq)]
pub struct OrbInfo {
    pub hw_rev: Option<OrbRevision>,
    pub main_fw_versions: Option<Versions>,
    pub main_battery_status: Option<BatteryStatus>,
    pub hardware_states: Vec<HardwareState>,
}

impl OrbInfo {
    /// Takes over what was fetched from the main board. The hardware states
    /// are added to those of the other boards.
    pub fn take_main_board(&mut self, board_info: MainBoardInfo)
        ensures
            final(self).hw_rev == board_info.hw_version,
            final(self).main_fw_versions == board_info.fw_versions,
            final(self).main_battery_status == board_info.battery_status,
            final(self).hardware_states@ == old(self).hardware_states@
                + board_info.hardware_states@,
    {
        let MainBoardInfo { hw_version, fw_versions, battery_status, hardware_states } = board_info;
        let mut states = hardware_states;
        self.hw_rev = hw_version;
        self.main_fw_versions = fw_versions;
        self.main_battery_status = battery_status;
        self.hardware_states.append(&mut states);
    }
}

impl MainBoard {
    /// Starts to fetch the info that [`OrbInfo::take_main_board`] takes over.
    pub fn fetch_info(&self, diag: bool) -> (r: InfoFetch)
        ensures
            r.board == *self,
            r.diag == Some(diag),
            r.stage == FetchStage::Subscribe,
            !r.is_err,
            r.info@ == BoardFacts::nothing(),
            r.battery == BatteryStatus::nothing(),
    {
        MainBoardInfo::new().build(*self, Some(diag))
    }
}

/// The messages that a fetch sends, in order.
pub open spec fn requests(board: MainBoard, diag: Option<bool>) -> Seq<Action> {
    let firmware = JetsonToMcu::ValueGet { value: RequestedValue::FirmwareVersions };
    let hardware = JetsonToMcu::ValueGet { value: RequestedValue::HardwareVersions };
    let asked = seq![
        Action::Send { over: Interface::CanFd, payload: firmware },
        board.sends(firmware),
        board.sends(hardware),
    ];
    if diag == Some(true) {
        asked.push(board.sends(JetsonToMcu::SyncDiagData { interval: 0 }))
    } else {
        asked
    }
}

/// A fetch after the replies, one after the other.
pub open spec fn after_replies(fetch: InfoFetch, replies: Seq<Reply>) -> InfoFetch
    decreases replies.len(),
{
    if replies.len() == 0 {
        fetch
    } else {
        after_replies(fetch, replies.drop_last()).after_reply(replies.last())
    }
}

proof fn lemma_one_more_reply(fetch: InfoFetch, replies: Seq<Reply>, n: int)
    requires
        0 <= n < replies.len(),
    ensures
        after_replies(fetch, replies.take(n + 1)) == after_replies(
            fetch,
            replies.take(n),
        ).after_reply(replies[n]),
{
    assert(replies.take(n + 1).drop_last() =~= replies.take(n));
}

/// A fetch goes on whatever the replies are: it sends the same messages in the
/// same order, and then listens.
pub proof fn law_requests_do_not_depend_on_replies(fetch: InfoFetch, replies: Seq<Reply>)
    requires
        fetch.stage == FetchStage::Subscribe,
        replies.len() == requests(fetch.board, fetch.diag).len(),
    ensures
        forall|n: int|
            0 <= n < replies.len() ==> (#[trigger] after_replies(
                fetch,
                replies.take(n),
            )).stage.action(fetch.board) == requests(fetch.board, fetch.diag)[n],
        after_replies(fetch, replies).stage == FetchStage::Listen,
{
    lemma_one_more_reply(fetch, replies, 0);
    lemma_one_more_reply(fetch, replies, 1);
    lemma_one_more_reply(fetch, replies, 2);
    if replies.len() == 4 {
        lemma_one_more_reply(fetch, replies, 3);
    }
    assert(replies.take(replies.len() as int) =~= replies);
    assert forall|n: int| 0 <= n < replies.len() implies (#[trigger] after_replies(
        fetch,
        replies.take(n),
    )).stage.action(fetch.board) == requests(fetch.board, fetch.diag)[n] by {
        assert(n == 0 || n == 1 || n == 2 || n == 3);
    }
}

/// When a fetch starts to listen, it holds an error exactly if one of the two
/// requests for versions was not acknowledged with success.
pub proof fn law_only_version_requests_count_as_errors(fetch: InfoFetch, replies: Seq<Reply>)
    requires
        fetch.stage == FetchStage::Subscribe,
        !fetch.is_err,
        replies.len() == requests(fetch.board, fetch.diag).len(),
    ensures
        after_replies(fetch, replies).is_err == (!acked(replies[1]) || !acked(replies[2])),
{
    lemma_one_more_reply(fetch, replies, 0);
    lemma_one_more_reply(fetch, replies, 1);
    lemma_one_more_reply(fetch, replies, 2);
    if replies.len() == 4 {
        lemma_one_more_reply(fetch, replies, 3);
    }
    assert(replies.take(replies.len() as int) =~= replies);
}

/// The messages of the main board among what the queue yielded, in order.
pub open spec fn told(yielded: Seq<Option<McuPayload>>) -> Seq<McuToJetson>
    decreases yielded.len(),
{
    if yielded.len() == 0 {
        Seq::empty()
    } else {
        match yielded.last() {
            Some(McuPayload::FromMain { message, .. }) => told(yielded.drop_last()).push(message),
            _ => told(yielded.drop_last()),
        }
    }
}

/// The fetch at an index goes over into the next one by what the queue yielded.
pub open spec fn hears_on(
    fetches: Seq<InfoFetch>,
    yielded: Seq<Option<McuPayload>>,
    i: int,
) -> bool {
    &&& fetches[i].stage == FetchStage::Listen
    &&& InfoFetch::hears(yielded[i])
    &&& fetches[i].becomes(yielded[i], fetches[i + 1])
}

/// The fetches are those of one listening, from each to the next.
pub open spec fn listens(fetches: Seq<InfoFetch>, yielded: Seq<Option<McuPayload>>) -> bool {
    &&& fetches.len() == yielded.len() + 1
    &&& fetches[0].stage == FetchStage::Listen
    &&& forall|i: int| 0 <= i < yielded.len() ==> #[trigger] hears_on(fetches, yielded, i)
}

/// Listening does not end before everything is known, unless the time is up:
/// not by a message that leaves something open, and not by a closed queue. It
/// ends with the first message after which everything is known. What is known
/// is what all the messages together tell.
pub proof fn law_listening_lasts_until_complete(
    fetches: Seq<InfoFetch>,
    yielded: Seq<Option<McuPayload>>,
)
    requires
        listens(fetches, yielded),
    ensures
        fetches.last().info@ == learn_all(fetches[0].info@, fetches[0].battery, told(yielded)),
        fetches.last().battery == read_all(fetches[0].battery, told(yielded)),
        fetches.last().stage == FetchStage::Finished ==> fetches.last().info@.complete(),
        yielded.len() > 0 && yielded.last() is Some && fetches.last().info@.complete()
            ==> fetches.last().stage == FetchStage::Finished,
        fetches.last().stage == FetchStage::Listen || fetches.last().stage == FetchStage::Finished,
        fetches.last().is_err == fetches[0].is_err,
    decreases yielded.len(),
{
    if yielded.len() > 0 {
        let last = yielded.len() - 1;
        let before = fetches.drop_last();
        let prior = yielded.drop_last();
        assert(before[0] == fetches[0]);
        assert forall|i: int| 0 <= i < prior.len() implies #[trigger] hears_on(
            before,
            prior,
            i,
        ) by {
            assert(hears_on(fetches, yielded, i));
        }
        law_listening_lasts_until_complete(before, prior);
        assert(hears_on(fetches, yielded, last));
        if let Some(McuPayload::FromMain { message, .. }) = yielded[last] {
            assert(told(yielded).drop_last() =~= told(prior));
            assert(told(yielded).last() == message);
        }
    }
}

/// When the time is up, all that was heard is there: the latest versions and
/// revision, every hardware state, and each reading of the battery, even
/// where others are missing.
pub proof fn law_timeout_keeps_what_was_heard(
    fetches: Seq<InfoFetch>,
    yielded: Seq<Option<McuPayload>>,
)
    requires
        listens(fetches, yielded),
        fetches[0].info@ == BoardFacts::nothing(),
        fetches[0].battery == BatteryStatus::nothing(),
        fetches.last().stage == FetchStage::Listen,
    ensures
        ({
            let messages = told(yielded);
            let facts = fetches.last().after_timeout().info@;
            &&& forall|k: int|
                #![trigger messages[k]]
                last_where(messages, |m: McuToJetson| m is Versions, k) ==> facts.fw_versions
                    == Some(messages[k]->Versions_0)
            &&& (forall|j: int| 0 <= j < messages.len() ==> !(#[trigger] messages[j] is Versions))
                ==> facts.fw_versions is None
            &&& forall|k: int|
                #![trigger messages[k]]
                last_where(messages, |m: McuToJetson| m is Hardware, k) ==> facts.hw_version
                    == Some(OrbRevision(messages[k]->Hardware_0))
            &&& (forall|j: int| 0 <= j < messages.len() ==> !(#[trigger] messages[j] is Hardware))
                ==> facts.hw_version is None
            &&& facts.hardware_states == states_in(messages)
            &&& (facts.battery_status matches Some(status) && status.percentage is Some)
                <==> exists|j: int|
                0 <= j < messages.len() && #[trigger] messages[j] is BatteryCapacity
            &&& (facts.battery_status matches Some(status) && status.voltage_mv is Some)
                <==> exists|j: int|
                0 <= j < messages.len() && #[trigger] messages[j] is BatteryVoltage
            &&& (facts.battery_status matches Some(status) && status.is_charging is Some)
                <==> exists|j: int|
                0 <= j < messages.len() && #[trigger] messages[j] is BatteryIsCharging
            &&& !read_all(BatteryStatus::nothing(), messages).known() ==> match facts.battery_status {
                Some(status) => status == read_all(BatteryStatus::nothing(), messages),
                None => read_all(BatteryStatus::nothing(), messages) == BatteryStatus::nothing(),
            }
        }),
{
    let messages = told(yielded);
    let facts = BoardFacts::nothing();
    let battery = BatteryStatus::nothing();
    law_listening_lasts_until_complete(fetches, yielded);
    law_latest_firmware_versions_win(facts, battery, messages);
    law_latest_hardware_revision_wins(facts, battery, messages);
    law_hardware_states_are_kept(facts, battery, messages);
    assert(facts.hardware_states + states_in(messages) =~= states_in(messages));
    law_battery_status_is_the_first_full_reading(facts, battery, messages);
    law_messages_bring_a_full_battery_status(facts, battery, messages);
    law_readings_come_from_messages(battery, messages);
}

/// What can be heard: the end of the queue, and whatever the main board sends,
/// but for voltages that do not add up within 32 bits.
pub proof fn law_what_can_be_heard(
    message: McuToJetson,
    text: String,
    from_main: bool,
    v: BatteryVoltage,
    in_range: bool,
    sent: JetsonToMcu,
    to_main: bool,
    security: bool,
    closed: bool,
)
    requires
        call_ensures(
            InfoFetch::can_hear,
            (&Some(McuPayload::FromMain { message, text }),),
            from_main,
        ),
        call_ensures(BatteryVoltage::is_in_range, (&v,), in_range),
        call_ensures(InfoFetch::can_hear, (&Some(McuPayload::ToMain(sent)),), to_main),
        call_ensures(InfoFetch::can_hear, (&Some(McuPayload::Security { text }),), security),
        call_ensures(InfoFetch::can_hear, (&None::<McuPayload>,), closed),
    ensures
        !(message is BatteryVoltage) ==> from_main,
        message == McuToJetson::BatteryVoltage(v) ==> from_main == in_range,
        !to_main,
        !security,
        closed,
{
}

/// A message ends the listening exactly if the revision, the versions and the
/// battery are then there, and a closed queue leaves everything as it is.
pub proof fn law_listening_ends_with_everything_there(
    fetch: InfoFetch,
    message: McuToJetson,
    text: String,
    v: BatteryVoltage,
    total: u32,
    after: InfoFetch,
    closed: InfoFetch,
)
    requires
        fetch.stage == FetchStage::Listen,
        call_ensures(BatteryVoltage::total, (&v,), total),
        call_ensures(
            InfoFetch::on_message,
            (fetch, Some(McuPayload::FromMain { message, text })),
            after,
        ),
        call_ensures(InfoFetch::on_message, (fetch, None::<McuPayload>), closed),
    ensures
        after.stage == FetchStage::Finished <==> after.info.hw_version is Some
            && after.info.fw_versions is Some && after.info.battery_status is Some,
        after.stage != FetchStage::Finished ==> after.stage == FetchStage::Listen,
        message matches McuToJetson::Versions(v) ==> after.info.fw_versions == Some(v),
        !(message is Versions) ==> after.info.fw_versions == fetch.info.fw_versions,
        message matches McuToJetson::Hardware(h) ==> after.info.hw_version == Some(OrbRevision(h)),
        !(message is Hardware) ==> after.info.hw_version == fetch.info.hw_version,
        message matches McuToJetson::HwState(state) ==> after.info.hardware_states@
            == fetch.info.hardware_states@.push(state),
        !(message is HwState) ==> after.info.hardware_states@ == fetch.info.hardware_states@,
        fetch.info.battery_status is Some ==> after.info.battery_status
            == fetch.info.battery_status,
        fetch.info.battery_status is None ==> match after.info.battery_status {
            Some(status) => status == after.battery && status.percentage is Some
                && status.voltage_mv is Some && status.is_charging is Some,
            None => after.battery.percentage is None || after.battery.voltage_mv is None
                || after.battery.is_charging is None,
        },
        message matches McuToJetson::BatteryCapacity { percentage } ==> after.battery == (
        BatteryStatus { percentage: Some(percentage), ..fetch.battery }),
        message == McuToJetson::BatteryVoltage(v) ==> after.battery == (BatteryStatus {
            voltage_mv: Some(total),
            ..fetch.battery
        }),
        message matches McuToJetson::BatteryIsCharging { battery_is_charging } ==> after.battery
            == (BatteryStatus { is_charging: Some(battery_is_charging), ..fetch.battery }),
        !(message is BatteryCapacity || message is BatteryVoltage || message is BatteryIsCharging)
            ==> after.battery == fetch.battery,
        after.is_err == fetch.is_err,
        after.board == fetch.board,
        closed == fetch,
{
    assert(after.info@.hw_version == after.info.hw_version);
    assert(fetch.info@.hw_version == fetch.info.hw_version);
}

/// When the time is up nothing that is known is lost or changed: readings of
/// the battery become its status where it has none, as they are, and the
/// fetch hands out what it has.
pub proof fn law_timeout_changes_nothing_that_is_known(
    fetch: InfoFetch,
    after: InfoFetch,
    result: Result<MainBoardInfo, MainBoardInfo>,
    info: MainBoardInfo,
)
    requires
        call_ensures(InfoFetch::on_timeout, (fetch,), after),
        call_ensures(InfoFetch::result, (after,), result),
        call_ensures(known, (result,), info),
    ensures
        after.stage == FetchStage::Finished,
        after.is_err,
        result is Ok,
        info == after.info,
        info.hw_version == fetch.info.hw_version,
        info.fw_versions == fetch.info.fw_versions,
        info.hardware_states == fetch.info.hardware_states,
        fetch.info.battery_status is Some ==> info.battery_status == fetch.info.battery_status,
        fetch.info.battery_status is None ==> match info.battery_status {
            Some(status) => status.percentage == fetch.battery.percentage && status.voltage_mv
                == fetch.battery.voltage_mv && status.is_charging == fetch.battery.is_charging,
            None => fetch.battery.percentage is None && fetch.battery.voltage_mv is None
                && fetch.battery.is_charging is None,
        },
{
}

/// A fetch asks for the firmware versions over CAN-FD, and then for the
/// versions of firmware and hardware over the interface of its board; then it
/// listens for two seconds.
pub proof fn law_fetch_asks_for_versions(fetch: InfoFetch, action: Action)
    requires
        call_ensures(InfoFetch::action, (&fetch,), action),
    ensures
        ({
            let over = if fetch.board.canfd {
                Interface::CanFd
            } else {
                Interface::IsoTp
            };
            match action {
                Action::Send { over: used, payload: JetsonToMcu::ValueGet { value } } => if value
                    == RequestedValue::HardwareVersions {
                    fetch.stage == FetchStage::AskHardware && used == over
                } else if fetch.stage == FetchStage::Subscribe {
                    used == Interface::CanFd
                } else {
                    fetch.stage == FetchStage::AskFirmware && used == over
                },
                Action::Send { over: used, payload } => fetch.stage == FetchStage::AskDiag && used
                    == over && payload == (JetsonToMcu::SyncDiagData { interval: 0 }),
                Action::Listen { timeout_ms } => fetch.stage == FetchStage::Listen && timeout_ms
                    == 2000,
                Action::Finished => fetch.stage == FetchStage::Finished,
                Action::Sleep { .. } => false,
            }
        }),
{
}

/// An orb takes over all that was fetched from the main board: what it knew of
/// it before is replaced, and the hardware states are added behind its own.
pub proof fn law_orb_takes_over_the_board(before: OrbInfo, board_info: MainBoardInfo, after: OrbInfo)
    requires
        exists|orb: &mut OrbInfo|
            *orb == before && *final(orb) == after && #[trigger] call_ensures(
                OrbInfo::take_main_board,
                (orb, board_info),
                (),
            ),
    ensures
        after.hw_rev == board_info.hw_version,
        after.main_fw_versions == board_info.fw_versions,
        after.main_battery_status == board_info.battery_status,
        after.hardware_states@.len() == before.hardware_states@.len()
            + board_info.hardware_states@.len(),
        forall|i: int|
            0 <= i < before.hardware_states@.len() ==> #[trigger] after.hardware_states@[i]
                == before.hardware_states@[i],
        forall|i: int|
            0 <= i < board_info.hardware_states@.len() ==> #[trigger] board_info.hardware_states@[i]
                == after.hardware_states@[before.hardware_states@.len() + i],
{
}

} // verus!
