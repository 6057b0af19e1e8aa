//! What there is to know about the main board, and how its messages tell it.

use crate::message::{BatteryVoltage, Hardware, HardwareState, McuToJetson, Versions};
use vstd::prelude::*;

verus! {

/// The hardware revision of an orb.
#[derive(Debug, Clone, Copy, PartialEq, Eq, Structural)]
pub struct OrbRevision(pub Hardware);

/// What is known of the battery.
#[derive(Debug, Clone, Copy, PartialEq, Eq)]
pub struct BatteryStatus {
    pub percentage: Option<u32>,
    pub voltage_mv: Option<u32>,
    pub is_charging: Option<bool>,
}

impl BatteryStatus {
    /// Nothing is known.
    pub open spec fn nothing() -> BatteryStatus {
        BatteryStatus { percentage: None, voltage_mv: None, is_charging: None }
    }

    /// Everything is known.
    pub open spec fn known(self) -> bool {
        self.percentage is Some && self.voltage_mv is Some && self.is_charging is Some
    }

    /// A status of which nothing is known.
    pub fn new() -> (r: BatteryStatus)
        ensures
            r == BatteryStatus::nothing(),
            !r.known(),
    {
        BatteryStatus { percentage: None, voltage_mv: None, is_charging: None }
    }

    /// Whether everything is known.
    pub fn is_known(&self) -> (r: bool)
        ensures
            r == self.known(),
    {
        self.percentage.is_some() && self.voltage_mv.is_some() && self.is_charging.is_some()
    }

    /// Whether nothing is known.
    pub fn is_nothing(&self) -> (r: bool)
        ensures
            r == (*self == BatteryStatus::nothing()),
    {
        self.percentage.is_none() && self.voltage_mv.is_none() && self.is_charging.is_none()
    }
}

impl BatteryVoltage {
    /// The voltage of the four cells together.
    pub open spec fn sum(self) -> int {
        self.battery_cell1_mv + self.battery_cell2_mv + self.battery_cell3_mv
            + self.battery_cell4_mv
    }

    /// Adding the cells up, one after the other, stays within 32 bits.
    pub open spec fn fits(self) -> bool {
        &&& i32::MIN <= self.battery_cell1_mv + self.battery_cell2_mv <= i32::MAX
        &&& i32::MIN <= self.battery_cell1_mv + self.battery_cell2_mv + self.battery_cell3_mv
            <= i32::MAX
        &&& i32::MIN <= self.sum() <= i32::MAX
    }

    /// The voltage of the four cells together, as an unsigned number of 32 bits;
    /// a negative sum wraps around.
    pub open spec fn total_mv(self) -> int {
        if self.sum() < 0 {
            self.sum() + 0x1_0000_0000
        } else {
            self.sum()
        }
    }

    /// Whether adding the cells up, one after the other, stays within 32 bits.
    pub fn is_in_range(&self) -> (r: bool)
        ensures
            r == self.fits(),
    {
        let two: i64 = self.battery_cell1_mv as i64 + self.battery_cell2_mv as i64;
        let three: i64 = two + self.battery_cell3_mv as i64;
        let four: i64 = three + self.battery_cell4_mv as i64;
        let low: i64 = i32::MIN as i64;
        let high: i64 = i32::MAX as i64;
        low <= two && two <= high && low <= three && three <= high && low <= four && four <= high
    }

    /// The voltage of the four cells together.
    pub fn total(&self) -> (r: u32)
        requires
            self.fits(),
        ensures
            r == self.total_mv(),
    {
        let sum: i32 = self.battery_cell1_mv + self.battery_cell2_mv + self.battery_cell3_mv
            + self.battery_cell4_mv;
        proof {
            assert(sum >= 0 ==> sum as u32 == sum) by (bit_vector);
            assert(sum < 0 ==> sum as u32 == sum + 0x1_0000_0000) by (bit_vector);
        }
        #[verifier::truncate]
        (sum as u32)
    }
}

/// What is known about the main board.
#[derive(Debug, PartialEq, Eq)]
pub struct MainBoardInfo {
    pub hw_version: Option<OrbRevision>,
    pub fw_versions: Option<Versions>,
    pub battery_status: Option<BatteryStatus>,
    pub hardware_states: Vec<HardwareState>,
}

/// A [`MainBoardInfo`] as a mathematical value.
#[verifier::ext_equal]
pub struct BoardFacts {
    pub hw_version: Option<OrbRevision>,
    pub fw_versions: Option<Versions>,
    pub battery_status: Option<BatteryStatus>,
    pub hardware_states: Seq<HardwareState>,
}

impl View for MainBoardInfo {
    type V = BoardFacts;

    open spec fn view(&self) -> BoardFacts {
        BoardFacts {
            hw_version: self.hw_version,
            fw_versions: self.fw_versions,
            battery_status: self.battery_status,
            hardware_states: self.hardware_states@,
        }
    }
}

impl BoardFacts {
    /// Nothing is known.
    pub open spec fn nothing() -> BoardFacts {
        BoardFacts {
            hw_version: None,
            fw_versions: None,
            battery_status: None,
            hardware_states: Seq::empty(),
        }
    }

    /// The versions and the battery status are known.
    pub open spec fn complete(self) -> bool {
        self.hw_version is Some && self.fw_versions is Some && self.battery_status is Some
    }
}

/// A message that can be taken in: the cell voltages it reports add up within 32 bits.
pub open spec fn readable(message: McuToJetson) -> bool {
    message matches McuToJetson::BatteryVoltage(v) ==> v.fits()
}

/// The battery readings after one more message.
pub open spec fn read_battery(battery: BatteryStatus, message: McuToJetson) -> BatteryStatus {
    match message {
        McuToJetson::BatteryCapacity { percentage } => BatteryStatus {
            percentage: Some(percentage),
            ..battery
        },
        McuToJetson::BatteryVoltage(v) => BatteryStatus {
            voltage_mv: Some(v.total_mv() as u32),
            ..battery
        },
        McuToJetson::BatteryIsCharging { battery_is_charging } => BatteryStatus {
            is_charging: Some(battery_is_charging),
            ..battery
        },
        _ => battery,
    }
}

/// What is known after one more message, where `battery` holds the readings
/// that came in before it. The battery status is that of the moment when the
/// last of the three readings came in, and stays.
pub open spec fn learn(
    facts: BoardFacts,
    battery: BatteryStatus,
    message: McuToJetson,
) -> BoardFacts {
    let readings = read_battery(battery, message);
    BoardFacts {
        hw_version: match message {
            McuToJetson::Hardware(h) => Some(OrbRevision(h)),
            _ => facts.hw_version,
        },
        fw_versions: match message {
            McuToJetson::Versions(v) => Some(v),
            _ => facts.fw_versions,
        },
        battery_status: if facts.battery_status is None && readings.known() {
            Some(readings)
        } else {
            facts.battery_status
        },
        hardware_states: match message {
            McuToJetson::HwState(h) => facts.hardware_states.push(h),
            _ => facts.hardware_states,
        },
    }
}

/// The battery status once no more messages are waited for: the one that is
/// known, or else the readings so far, where there are any.
pub open spec fn settled(status: Option<BatteryStatus>, battery: BatteryStatus) -> Option<
    BatteryStatus,
> {
    if status is None && battery != BatteryStatus::nothing() {
        Some(battery)
    } else {
        status
    }
}

impl MainBoardInfo {
    /// An info of which nothing is known.
    pub fn new() -> (r: MainBoardInfo)
        ensures
            r@ == BoardFacts::nothing(),
    {
        MainBoardInfo {
            hw_version: None,
            fw_versions: None,
            battery_status: None,
            hardware_states: Vec::new(),
        }
    }

    /// Whether the versions and the battery status are known.
    pub fn is_complete(&self) -> (r: bool)
        ensures
            r == self@.complete(),
    {
        self.hw_version.is_some() && self.fw_versions.is_some() && self.battery_status.is_some()
    }

    /// Takes in one message of the main board. `battery` holds the readings of
    /// the battery so far. Returns whether there is nothing left to wait for.
    pub fn hear(&mut self, battery: &mut BatteryStatus, message: McuToJetson) -> (complete: bool)
        requires
            readable(message),
        ensures
            final(self)@ == learn(old(self)@, *old(battery), message),
            *final(battery) == read_battery(*old(battery), message),
            complete == final(self)@.complete(),
    {
        match message {
            McuToJetson::Versions(v) => {
                self.fw_versions = Some(v);
            },
            McuToJetson::Hardware(h) => {
                self.hw_version = Some(OrbRevision(h));
            },
            McuToJetson::BatteryCapacity { percentage } => {
                battery.percentage = Some(percentage);
            },
            McuToJetson::BatteryVoltage(v) => {
                battery.voltage_mv = Some(v.total());
            },
            McuToJetson::BatteryIsCharging { battery_is_charging } => {
                battery.is_charging = Some(battery_is_charging);
            },
            McuToJetson::HwState(h) => {
                self.hardware_states.push(h);
            },
            _ => {},
        }
        if self.battery_status.is_none() && battery.is_known() {
            self.battery_status = Some(*battery);
        }
        self.is_complete()
    }
}

/// The battery readings after the messages.
pub open spec fn read_all(battery: BatteryStatus, messages: Seq<McuToJetson>) -> BatteryStatus
    decreases messages.len(),
{
    if messages.len() == 0 {
        battery
    } else {
        read_battery(read_all(battery, messages.drop_last()), messages.last())
    }
}

/// What is known after the messages.
pub open spec fn learn_all(
    facts: BoardFacts,
    battery: BatteryStatus,
    messages: Seq<McuToJetson>,
) -> BoardFacts
    decreases messages.len(),
{
    if messages.len() == 0 {
        facts
    } else {
        learn(
            learn_all(facts, battery, messages.drop_last()),
            read_all(battery, messages.drop_last()),
            messages.last(),
        )
    }
}

/// The hardware states among the messages, in order.
pub open spec fn states_in(messages: Seq<McuToJetson>) -> Seq<HardwareState>
    decreases messages.len(),
{
    if messages.len() == 0 {
        Seq::empty()
    } else {
        match messages.last() {
            McuToJetson::HwState(h) => states_in(messages.drop_last()).push(h),
            _ => states_in(messages.drop_last()),
        }
    }
}

/// `messages[k]` is the last of the messages for which `p` holds.
pub open spec fn last_where(
    messages: Seq<McuToJetson>,
    p: spec_fn(McuToJetson) -> bool,
    k: int,
) -> bool {
    &&& 0 <= k < messages.len()
    &&& p(messages[k])
    &&& forall|j: int| k < j < messages.len() ==> !p(#[trigger] messages[j])
}

/// The firmware versions known are those of the latest message that reports
/// some; without such a message they are what they were.
pub proof fn law_latest_firmware_versions_win(
    facts: BoardFacts,
    battery: BatteryStatus,
    messages: Seq<McuToJetson>,
)
    ensures
        forall|k: int|
            #![trigger messages[k]]
            last_where(messages, |m: McuToJetson| m is Versions, k) ==> learn_all(
                facts,
                battery,
                messages,
            ).fw_versions == Some(messages[k]->Versions_0),
        (forall|j: int| 0 <= j < messages.len() ==> !(#[trigger] messages[j] is Versions))
            ==> learn_all(facts, battery, messages).fw_versions == facts.fw_versions,
    decreases messages.len(),
{
    if messages.len() > 0 {
        let prior = messages.drop_last();
        law_latest_firmware_versions_win(facts, battery, prior);
        assert forall|k: int|
            #![trigger messages[k]]
            last_where(messages, |m: McuToJetson| m is Versions, k) implies learn_all(
            facts,
            battery,
            messages,
        ).fw_versions == Some(messages[k]->Versions_0) by {
            if k < messages.len() - 1 {
                assert(prior[k] == messages[k]);
                assert(last_where(prior, |m: McuToJetson| m is Versions, k)) by {
                    assert forall|j: int| k < j < prior.len() implies !(#[trigger] prior[j]
                         is Versions) by {
                        assert(prior[j] == messages[j]);
                    }
                }
            }
        }
        if forall|j: int| 0 <= j < messages.len() ==> !(#[trigger] messages[j] is Versions) {
            assert forall|j: int| 0 <= j < prior.len() implies !(#[trigger] prior[j]
                 is Versions) by {
                assert(prior[j] == messages[j]);
            }
        }
    }
}

/// The hardware revision known is that of the latest message that reports one;
/// without such a message it is what it was.
pub proof fn law_latest_hardware_revision_wins(
    facts: BoardFacts,
    battery: BatteryStatus,
    messages: Seq<McuToJetson>,
)
    ensures
        forall|k: int|
            #![trigger messages[k]]
            last_where(messages, |m: McuToJetson| m is Hardware, k) ==> learn_all(
                facts,
                battery,
                messages,
            ).hw_version == Some(OrbRevision(messages[k]->Hardware_0)),
        (forall|j: int| 0 <= j < messages.len() ==> !(#[trigger] messages[j] is Hardware))
            ==> learn_all(facts, battery, messages).hw_version == facts.hw_version,
    decreases messages.len(),
{
    if messages.len() > 0 {
        let prior = messages.drop_last();
        law_latest_hardware_revision_wins(facts, battery, prior);
        assert forall|k: int|
            #![trigger messages[k]]
            last_where(messages, |m: McuToJetson| m is Hardware, k) implies learn_all(
            facts,
            battery,
            messages,
        ).hw_version == Some(OrbRevision(messages[k]->Hardware_0)) by {
            if k < messages.len() - 1 {
                assert(prior[k] == messages[k]);
                assert(last_where(prior, |m: McuToJetson| m is Hardware, k)) by {
                    assert forall|j: int| k < j < prior.len() implies !(#[trigger] prior[j]
                         is Hardware) by {
                        assert(prior[j] == messages[j]);
                    }
                }
            }
        }
        if forall|j: int| 0 <= j < messages.len() ==> !(#[trigger] messages[j] is Hardware) {
            assert forall|j: int| 0 <= j < prior.len() implies !(#[trigger] prior[j]
                 is Hardware) by {
                assert(prior[j] == messages[j]);
            }
        }
    }
}

/// Every hardware state that is reported is kept, in the order of the reports.
pub proof fn law_hardware_states_are_kept(
    facts: BoardFacts,
    battery: BatteryStatus,
    messages: Seq<McuToJetson>,
)
    ensures
        learn_all(facts, battery, messages).hardware_states == facts.hardware_states + states_in(
            messages,
        ),
    decreases messages.len(),
{
    if messages.len() > 0 {
        law_hardware_states_are_kept(facts, battery, messages.drop_last());
    }
}

/// A battery status that is known does not change, and what is complete stays complete.
pub proof fn law_battery_status_is_written_once(
    facts: BoardFacts,
    battery: BatteryStatus,
    messages: Seq<McuToJetson>,
)
    ensures
        facts.battery_status is Some ==> learn_all(facts, battery, messages).battery_status
            == facts.battery_status,
        facts.complete() ==> learn_all(facts, battery, messages).complete(),
    decreases messages.len(),
{
    if messages.len() > 0 {
        law_battery_status_is_written_once(facts, battery, messages.drop_last());
    }
}

/// The battery status becomes known with the message that brings the last of
/// the three readings, and holds the readings of that moment.
pub proof fn law_battery_status_is_the_first_full_reading(
    facts: BoardFacts,
    battery: BatteryStatus,
    messages: Seq<McuToJetson>,
)
    requires
        facts.battery_status is None,
        !battery.known(),
    ensures
        learn_all(facts, battery, messages).battery_status is Some <==> read_all(
            battery,
            messages,
        ).known(),
        forall|n: int|
            #![trigger messages.take(n)]
            0 < n <= messages.len() && read_all(battery, messages.take(n)).known() && !read_all(
                battery,
                messages.take(n - 1),
            ).known() ==> learn_all(facts, battery, messages).battery_status == Some(
                read_all(battery, messages.take(n)),
            ),
    decreases messages.len(),
{
    if messages.len() > 0 {
        let prior = messages.drop_last();
        law_battery_status_is_the_first_full_reading(facts, battery, prior);
        assert forall|n: int|
            #![trigger messages.take(n)]
            0 < n <= messages.len() && read_all(battery, messages.take(n)).known() && !read_all(
                battery,
                messages.take(n - 1),
            ).known() implies learn_all(facts, battery, messages).battery_status == Some(
            read_all(battery, messages.take(n)),
        ) by {
            if n == messages.len() {
                assert(messages.take(n) =~= messages);
                assert(messages.take(n - 1) =~= prior);
            } else {
                assert(prior.take(n) =~= messages.take(n));
                assert(prior.take(n - 1) =~= messages.take(n - 1));
            }
        }
    }
}

/// A message never brings a battery status that is known only in part.
pub proof fn law_messages_bring_a_full_battery_status(
    facts: BoardFacts,
    battery: BatteryStatus,
    messages: Seq<McuToJetson>,
)
    requires
        facts.battery_status matches Some(status) ==> status.known(),
    ensures
        learn_all(facts, battery, messages).battery_status matches Some(status) ==> status.known(),
    decreases messages.len(),
{
    if messages.len() > 0 {
        law_messages_bring_a_full_battery_status(facts, battery, messages.drop_last());
    }
}

/// Each reading of the battery is that of the latest message that reports it.
pub proof fn law_latest_battery_readings_win(battery: BatteryStatus, messages: Seq<McuToJetson>)
    ensures
        forall|k: int|
            #![trigger messages[k]]
            last_where(messages, |m: McuToJetson| m is BatteryCapacity, k) ==> read_all(
                battery,
                messages,
            ).percentage == Some(messages[k]->BatteryCapacity_percentage),
        forall|k: int|
            #![trigger messages[k]]
            last_where(messages, |m: McuToJetson| m is BatteryVoltage, k) ==> read_all(
                battery,
                messages,
            ).voltage_mv == Some(messages[k]->BatteryVoltage_0.total_mv() as u32),
        forall|k: int|
            #![trigger messages[k]]
            last_where(messages, |m: McuToJetson| m is BatteryIsCharging, k) ==> read_all(
                battery,
                messages,
            ).is_charging == Some(messages[k]->BatteryIsCharging_battery_is_charging),
    decreases messages.len(),
{
    if messages.len() > 0 {
        let prior = messages.drop_last();
        law_latest_battery_readings_win(battery, prior);
        assert forall|p: spec_fn(McuToJetson) -> bool, k: int|
            k < prior.len() && #[trigger] last_where(messages, p, k) implies last_where(
            prior,
            p,
            k,
        ) && prior[k] == messages[k] by {
            assert forall|j: int| k < j < prior.len() implies !p(#[trigger] prior[j]) by {
                assert(prior[j] == messages[j]);
            }
        }
    }
}

/// A reading of the battery is known exactly if it was known before or a
/// message reports it.
pub proof fn law_readings_come_from_messages(battery: BatteryStatus, messages: Seq<McuToJetson>)
    ensures
        read_all(battery, messages).percentage is Some <==> battery.percentage is Some || exists|
            j: int,
        |
            0 <= j < messages.len() && #[trigger] messages[j] is BatteryCapacity,
        read_all(battery, messages).voltage_mv is Some <==> battery.voltage_mv is Some || exists|
            j: int,
        |
            0 <= j < messages.len() && #[trigger] messages[j] is BatteryVoltage,
        read_all(battery, messages).is_charging is Some <==> battery.is_charging is Some || exists|
            j: int,
        |
            0 <= j < messages.len() && #[trigger] messages[j] is BatteryIsCharging,
    decreases messages.len(),
{
    if messages.len() > 0 {
        let prior = messages.drop_last();
        law_readings_come_from_messages(battery, prior);
        assert(messages.last() == messages[messages.len() - 1]);
        assert forall|j: int| 0 <= j < prior.len() implies #[trigger] messages[j] == prior[j] by {}
    }
}

/// The voltages of the cells add up: the total is their sum, or where that is
/// negative, the one number of 32 bits that is the same modulo 2^32.
pub proof fn law_cells_add_up(v: BatteryVoltage, in_range: bool, total: u32)
    requires
        call_ensures(BatteryVoltage::is_in_range, (&v,), in_range),
        in_range ==> call_ensures(BatteryVoltage::total, (&v,), total),
    ensures
        ({
            let (a, b) = (v.battery_cell1_mv as int, v.battery_cell2_mv as int);
            let (c, d) = (v.battery_cell3_mv as int, v.battery_cell4_mv as int);
            &&& in_range && a + b + c + d >= 0 ==> total == a + b + c + d
            &&& in_range && a + b + c + d < 0 ==> total - 0x1_0000_0000 == a + b + c + d
            &&& in_range <==> {
                &&& -0x8000_0000 <= a + b < 0x8000_0000
                &&& -0x8000_0000 <= a + b + c < 0x8000_0000
                &&& -0x8000_0000 <= a + b + c + d < 0x8000_0000
            }
        }),
{
}

/// A voltage that is taken in is the sum of the cells, and each of the other
/// readings is the one that the message reports; the rest stays.
pub proof fn law_readings_are_taken_in_as_they_come(
    battery: BatteryStatus,
    v: BatteryVoltage,
    total: u32,
    percentage: u32,
    battery_is_charging: bool,
)
    requires
        call_ensures(BatteryVoltage::total, (&v,), total),
    ensures
        read_battery(battery, McuToJetson::BatteryVoltage(v)) == (BatteryStatus {
            voltage_mv: Some(total),
            ..battery
        }),
        read_battery(battery, McuToJetson::BatteryCapacity { percentage }) == (BatteryStatus {
            percentage: Some(percentage),
            ..battery
        }),
        read_battery(battery, McuToJetson::BatteryIsCharging { battery_is_charging }) == (
        BatteryStatus { is_charging: Some(battery_is_charging), ..battery }),
{
}

/// The battery is known once all three readings are there, and the board once
/// its revision, its versions and its battery are; hardware states are not
/// waited for.
pub proof fn law_what_has_to_be_known(
    battery: BatteryStatus,
    known: bool,
    nothing: bool,
    info: MainBoardInfo,
    complete: bool,
)
    requires
        call_ensures(BatteryStatus::is_known, (&battery,), known),
        call_ensures(BatteryStatus::is_nothing, (&battery,), nothing),
        call_ensures(MainBoardInfo::is_complete, (&info,), complete),
    ensures
        !known <==> battery.percentage is None || battery.voltage_mv is None || battery.is_charging
            is None,
        !nothing <==> battery.percentage is Some || battery.voltage_mv is Some
            || battery.is_charging is Some,
        !complete <==> info.hw_version is None || info.fw_versions is None || info.battery_status
            is None,
        info@.complete() == complete,
        info@.hw_version == info.hw_version,
        info@.fw_versions == info.fw_versions,
        info@.battery_status == info.battery_status,
        info@.hardware_states == info.hardware_states@,
{
}

/// A reading of the battery that no message reports is what it was.
pub proof fn law_other_readings_stay(battery: BatteryStatus, messages: Seq<McuToJetson>)
    ensures
        (forall|j: int| 0 <= j < messages.len() ==> !(#[trigger] messages[j] is BatteryCapacity))
            ==> read_all(battery, messages).percentage == battery.percentage,
        (forall|j: int| 0 <= j < messages.len() ==> !(#[trigger] messages[j] is BatteryVoltage))
            ==> read_all(battery, messages).voltage_mv == battery.voltage_mv,
        (forall|j: int| 0 <= j < messages.len() ==> !(#[trigger] messages[j] is BatteryIsCharging))
            ==> read_all(battery, messages).is_charging == battery.is_charging,
    decreases messages.len(),
{
    if messages.len() > 0 {
        let prior = messages.drop_last();
        law_other_readings_stay(battery, prior);
        assert(messages.last() == messages[messages.len() - 1]);
        assert forall|j: int| 0 <= j < prior.len() implies #[trigger] prior[j] == messages[j] by {}
    }
}

/// A message tells its own fact and no other: the versions, the revision or a
/// hardware state that it reports are taken over as they are, and everything
/// else stays. The board is told to be known once nothing is missing.
pub proof fn law_message_tells_its_own_fact(
    before: MainBoardInfo,
    readings: BatteryStatus,
    message: McuToJetson,
    complete: bool,
    after: MainBoardInfo,
    later: BatteryStatus,
)
    requires
        readable(message),
        exists|info: &mut MainBoardInfo, battery: &mut BatteryStatus|
            *info == before && *battery == readings && *final(info) == after && *final(battery)
                == later && #[trigger] call_ensures(
                MainBoardInfo::hear,
                (info, battery, message),
                complete,
            ),
    ensures
        after.fw_versions == match message {
            McuToJetson::Versions(v) => Some(v),
            _ => before.fw_versions,
        },
        after.hw_version == match message {
            McuToJetson::Hardware(h) => Some(OrbRevision(h)),
            _ => before.hw_version,
        },
        message matches McuToJetson::HwState(state) ==> after.hardware_states@.len()
            == before.hardware_states@.len() + 1 && after.hardware_states@.last() == state
            && after.hardware_states@.drop_last() == before.hardware_states@,
        !(message is HwState) ==> after.hardware_states@ == before.hardware_states@,
        message matches McuToJetson::BatteryCapacity { percentage } ==> later.percentage == Some(
            percentage,
        ),
        !(message is BatteryCapacity) ==> later.percentage == readings.percentage,
        message matches McuToJetson::BatteryIsCharging { battery_is_charging }
            ==> later.is_charging == Some(battery_is_charging),
        !(message is BatteryIsCharging) ==> later.is_charging == readings.is_charging,
        message matches McuToJetson::BatteryVoltage(v) ==> (later.voltage_mv matches Some(mv) && (
        v.battery_cell1_mv + v.battery_cell2_mv + v.battery_cell3_mv + v.battery_cell4_mv >= 0
            ==> mv == v.battery_cell1_mv + v.battery_cell2_mv + v.battery_cell3_mv
            + v.battery_cell4_mv)),
        !(message is BatteryVoltage) ==> later.voltage_mv == readings.voltage_mv,
        before.battery_status is Some ==> after.battery_status == before.battery_status,
        before.battery_status is None ==> match after.battery_status {
            Some(status) => status == later && status.percentage is Some && status.voltage_mv
                is Some && status.is_charging is Some,
            None => later.percentage is None || later.voltage_mv is None || later.is_charging
                is None,
        },
        complete <==> after.hw_version is Some && after.fw_versions is Some
            && after.battery_status is Some,
{
    assert(before@.hw_version == before.hw_version && after@.hw_version == after.hw_version);
    assert(before@.hardware_states == before.hardware_states@);
    assert(after@.hardware_states == after.hardware_states@);
    if message is HwState {
        assert(after.hardware_states@.drop_last() =~= before.hardware_states@);
    }
}

} // verus!
