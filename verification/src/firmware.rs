//! Updating the firmware of the main microcontroller.

use crate::board_info::{learn, BatteryStatus, BoardFacts, MainBoardInfo};
use crate::info_fetch::{known, FetchStage, InfoFetch};
use crate::main_board::{Action, MainBoard};
use crate::message::{
    acked, CommonAckError, Interface, JetsonToMcu, McuPayload, McuToJetson, Reply, RequestedValue,
    Versions,
};
use crate::text::{decimal_int, signed_text};
use vstd::prelude::*;

verus! {

/// The remainder of a CRC32 after `n` more bits, the lowest one first, by the
/// generator polynomial of IEEE 802.3.
pub open spec fn crc32_bits(remainder: u32, n: nat) -> u32
    decreases n,
{
    if n == 0 {
        remainder
    } else {
        let prior = crc32_bits(remainder, (n - 1) as nat);
        if prior % 2 == 1 {
            (prior / 2) ^ 0xedb8_8320
        } else {
            prior / 2
        }
    }
}

/// The remainder of a CRC32 after the bytes `data`.
pub open spec fn crc32_remainder(data: Seq<u8>) -> u32
    decreases data.len(),
{
    if data.len() == 0 {
        0xffff_ffff
    } else {
        crc32_bits(crc32_remainder(data.drop_last()) ^ (data.last() as u32), 8)
    }
}

/// The CRC32 (IEEE) checksum of the bytes `data`.
pub open spec fn crc32_of(data: Seq<u8>) -> u32 {
    !crc32_remainder(data)
}

/// `crc32fast::hash` returns the CRC32 (IEEE) checksum of the bytes.
pub assume_specification[ crc32fast::hash ](buf: &[u8]) -> (r: u32)
    ensures
        r == crc32_of(buf@),
;

/// Why the image in the secondary slot was not activated.
#[derive(Debug, Clone, Copy, PartialEq, Eq, Structural)]
pub enum SwitchError {
    /// The versions of the two images are not known.
    NotVerified,
    /// One image is a production image and the other is not.
    TypesDiffer,
    /// The microcontroller refused.
    Refused { code: i32 },
}

impl SwitchError {
    /// The error in words.
    pub open spec fn words(self) -> Seq<char> {
        match self {
            SwitchError::NotVerified => "Firmware versions can't be verified"@,
            SwitchError::TypesDiffer =>
                "Primary and secondary images types (prod or dev) don't match"@,
            SwitchError::Refused { code } => "Unable to activate image: ack error: "@
                + decimal_int(code as int),
        }
    }

    /// The error in words.
    pub fn message(&self) -> (r: String)
        ensures
            r@ == self.words(),
    {
        match self {
            SwitchError::NotVerified => "Firmware versions can't be verified".to_owned(),
            SwitchError::TypesDiffer =>
                "Primary and secondary images types (prod or dev) don't match".to_owned(),
            SwitchError::Refused { code } => {
                let number = signed_text(*code);
                "Unable to activate image: ack error: ".to_owned().concat(number.as_str())
            },
        }
    }
}

/// The message that activates the secondary image, where the images allow it:
/// both versions are known, and the commit hashes are both zero or both not.
pub open spec fn activation_of(fw_versions: Option<Versions>) -> Result<JetsonToMcu, SwitchError> {
    match fw_versions {
        Some(Versions { primary_app: Some(primary), secondary_app: Some(secondary) }) => if (
        primary.commit_hash == 0) != (secondary.commit_hash == 0) {
            Err(SwitchError::TypesDiffer)
        } else {
            Ok(JetsonToMcu::FwImageSecondaryActivate { force_permanent: false })
        },
        _ => Err(SwitchError::NotVerified),
    }
}

/// The outcome of asking for activation. A message that did not get through
/// is no failure.
pub open spec fn activated_by(reply: Reply) -> Result<(), SwitchError> {
    match reply {
        Ok(CommonAckError::Refused { code, .. }) => Err(SwitchError::Refused { code }),
        _ => Ok(()),
    }
}

/// The message that activates the secondary image, where the images allow it.
pub fn activation(fw_versions: Option<Versions>) -> (r: Result<JetsonToMcu, SwitchError>)
    ensures
        r == activation_of(fw_versions),
{
    if let Some(versions) = fw_versions {
        if let Some(secondary_app) = versions.secondary_app {
            if let Some(primary_app) = versions.primary_app {
                return if (primary_app.commit_hash == 0 && secondary_app.commit_hash != 0) || (
                primary_app.commit_hash != 0 && secondary_app.commit_hash == 0) {
                    Err(SwitchError::TypesDiffer)
                } else {
                    Ok(JetsonToMcu::FwImageSecondaryActivate { force_permanent: false })
                };
            }
        }
    }
    Err(SwitchError::NotVerified)
}

/// The outcome of asking for activation.
pub fn activated(reply: &Reply) -> (r: Result<(), SwitchError>)
    ensures
        r == activated_by(*reply),
{
    match reply {
        Ok(CommonAckError::Refused { code, .. }) => Err(SwitchError::Refused { code: *code }),
        _ => Ok(()),
    }
}

/// How far the switching of images has come.
#[derive(Debug)]
pub enum SwitchStage {
    /// The versions of the images are fetched.
    Fetch(InfoFetch),
    /// The secondary image is activated.
    Activate,
    Finished(Result<(), SwitchError>),
}

/// The stage once the versions have been fetched.
pub open spec fn fetched(fw_versions: Option<Versions>) -> SwitchStage {
    match activation_of(fw_versions) {
        Ok(_) => SwitchStage::Activate,
        Err(e) => SwitchStage::Finished(Err(e)),
    }
}

/// The switching of images: it fetches the versions of both, and activates
/// the secondary one if they are of one type.
#[derive(Debug)]
pub struct ImageSwitch {
    pub board: MainBoard,
    pub stage: SwitchStage,
}

impl MainBoard {
    /// Starts to activate the image in the secondary slot.
    pub fn switch_images(&self) -> (r: ImageSwitch)
        ensures
            r.starts(*self),
            r.valid(),
    {
        let fetch = MainBoardInfo::new().build(*self, None);
        ImageSwitch { board: *self, stage: SwitchStage::Fetch(fetch) }
    }
}

impl ImageSwitch {
    /// The switch stands at its beginning: no version is known, and none was asked for.
    pub open spec fn starts(self, board: MainBoard) -> bool {
        &&& self.board == board
        &&& self.stage matches SwitchStage::Fetch(fetch) && {
            &&& fetch.board == board
            &&& fetch.diag is None
            &&& fetch.stage == FetchStage::Subscribe
            &&& !fetch.is_err
            &&& fetch.info@ == BoardFacts::nothing()
            &&& fetch.battery == BatteryStatus::nothing()
        }
    }

    /// The fetch within is one of the same board, and not at its end.
    pub open spec fn valid(self) -> bool {
        self.stage matches SwitchStage::Fetch(fetch) ==> {
            &&& fetch.board == self.board
            &&& fetch.stage != FetchStage::Finished
        }
    }

    /// What is to be done next.
    pub open spec fn next_action(self) -> Action {
        match self.stage {
            SwitchStage::Fetch(fetch) => fetch.stage.action(fetch.board),
            SwitchStage::Activate => self.board.sends(
                JetsonToMcu::FwImageSecondaryActivate { force_permanent: false },
            ),
            SwitchStage::Finished(_) => Action::Finished,
        }
    }

    /// The switch after a reply.
    pub open spec fn after_reply(self, reply: Reply) -> ImageSwitch {
        ImageSwitch {
            stage: match self.stage {
                SwitchStage::Fetch(fetch) => SwitchStage::Fetch(fetch.after_reply(reply)),
                SwitchStage::Activate => SwitchStage::Finished(activated_by(reply)),
                other => other,
            },
            ..self
        }
    }

    /// `r` is the switch after what the message queue yielded: it goes by the
    /// versions that are known once everything is, and fetches on until then. A
    /// closed queue changes nothing.
    pub open spec fn becomes(self, received: Option<McuPayload>, r: ImageSwitch) -> bool {
        &&& r.board == self.board
        &&& self.stage matches SwitchStage::Fetch(fetch) && {
            &&& received is None ==> r == self
            &&& received matches Some(McuPayload::FromMain { message, .. }) ==> {
                let facts = learn(fetch.info@, fetch.battery, message);
                if facts.complete() {
                    r.stage == fetched(facts.fw_versions)
                } else {
                    r.stage matches SwitchStage::Fetch(after) && fetch.becomes(received, after)
                }
            }
        }
    }

    /// The switch after the time for listening is up: it goes by the versions
    /// that are known.
    pub open spec fn after_timeout(self) -> ImageSwitch {
        ImageSwitch {
            stage: match self.stage {
                SwitchStage::Fetch(fetch) => fetched(fetch.info.fw_versions),
                other => other,
            },
            ..self
        }
    }

    /// What is to be done next.
    pub fn action(&self) -> (r: Action)
        ensures
            r == self.next_action(),
    {
        match &self.stage {
            SwitchStage::Fetch(fetch) => fetch.action(),
            SwitchStage::Activate => Action::Send {
                over: self.board.interface(),
                payload: JetsonToMcu::FwImageSecondaryActivate { force_permanent: false },
            },
            SwitchStage::Finished(_) => Action::Finished,
        }
    }

    /// Goes on with what was fetched, once that is at its end.
    fn resume(board: MainBoard, fetch: InfoFetch) -> (r: ImageSwitch)
        ensures
            r.board == board,
            fetch.stage == FetchStage::Finished ==> r.stage == fetched(fetch.info.fw_versions),
            fetch.stage != FetchStage::Finished ==> r.stage == SwitchStage::Fetch(fetch),
    {
        match fetch.stage {
            FetchStage::Finished => {
                let info = known(fetch.result());
                match activation(info.fw_versions) {
                    Ok(_) => ImageSwitch { board, stage: SwitchStage::Activate },
                    Err(e) => ImageSwitch { board, stage: SwitchStage::Finished(Err(e)) },
                }
            },
            _ => ImageSwitch { board, stage: SwitchStage::Fetch(fetch) },
        }
    }

    /// Takes the reply to the message that was sent.
    pub fn on_reply(self, reply: &Reply) -> (r: ImageSwitch)
        requires
            self.valid(),
            self.next_action() is Send,
        ensures
            r == self.after_reply(*reply),
            r.valid(),
    {
        let board = self.board;
        match self.stage {
            SwitchStage::Fetch(fetch) => {
                let fetch = fetch.on_reply(reply);
                ImageSwitch { board, stage: SwitchStage::Fetch(fetch) }
            },
            SwitchStage::Activate => ImageSwitch {
                board,
                stage: SwitchStage::Finished(activated(reply)),
            },
            other => ImageSwitch { board, stage: other },
        }
    }

    /// Takes what the message queue yields: a message, or `None` where the
    /// queue is closed.
    pub fn on_message(self, received: Option<McuPayload>) -> (r: ImageSwitch)
        requires
            self.valid(),
            self.next_action() is Listen,
            InfoFetch::hears(received),
        ensures
            self.becomes(received, r),
            r.valid(),
    {
        let board = self.board;
        match self.stage {
            SwitchStage::Fetch(fetch) => Self::resume(board, fetch.on_message(received)),
            other => ImageSwitch { board, stage: other },
        }
    }

    /// The time for listening is up.
    pub fn on_timeout(self) -> (r: ImageSwitch)
        requires
            self.valid(),
            self.next_action() is Listen,
        ensures
            r == self.after_timeout(),
            r.valid(),
    {
        let board = self.board;
        match self.stage {
            SwitchStage::Fetch(fetch) => Self::resume(board, fetch.on_timeout()),
            other => ImageSwitch { board, stage: other },
        }
    }
}

/// How long to wait before a block is sent again, in milliseconds.
pub const RETRY_DELAY_MS: u64 = 100;

/// Why a firmware update did not come to its end.
#[derive(Debug, Clone, Copy, PartialEq, Eq, Structural)]
pub enum UpdateError {
    /// The microcontroller refused the image that it received.
    CheckRefused { code: i32 },
    /// The check of the image could not be asked for.
    CheckFailed,
    /// The image was received, and not activated.
    Switch(SwitchError),
}

impl UpdateError {
    /// The error in words.
    pub open spec fn words(self) -> Seq<char> {
        match self {
            UpdateError::CheckRefused { code } => "Unable to check image integrity: ack error: "@
                + decimal_int(code as int),
            UpdateError::CheckFailed => "Firmware image integrity check failed"@,
            UpdateError::Switch(e) => e.words(),
        }
    }

    /// The error in words.
    pub fn message(&self) -> (r: String)
        ensures
            r@ == self.words(),
    {
        match self {
            UpdateError::CheckRefused { code } => {
                let number = signed_text(*code);
                "Unable to check image integrity: ack error: ".to_owned().concat(number.as_str())
            },
            UpdateError::CheckFailed => "Firmware image integrity check failed".to_owned(),
            UpdateError::Switch(e) => e.message(),
        }
    }
}

/// How far a firmware update has come.
#[derive(Debug)]
pub enum UpdateStage {
    /// The block at this index is sent.
    Block(usize),
    /// The block at this index was not sent, and is tried again after a while.
    Backoff(usize),
    /// The microcontroller checks the image.
    Check,
    /// The image is activated.
    Switch(ImageSwitch),
    Finished(Result<(), UpdateError>),
}

/// The stage at which the block at an index is sent, or the image checked
/// where there is no such block.
pub open spec fn block_or_check(index: int, blocks: usize) -> UpdateStage {
    if index < blocks {
        UpdateStage::Block(index as usize)
    } else {
        UpdateStage::Check
    }
}

/// The stage after the reply to a block.
pub open spec fn block_replied(index: usize, blocks: usize, reply: Reply) -> UpdateStage {
    match reply {
        Ok(_) => block_or_check(index + 1, blocks),
        Err(_) => UpdateStage::Backoff(index),
    }
}

/// The stage once the wait, if there is one, is over.
pub open spec fn woken(stage: UpdateStage) -> UpdateStage {
    match stage {
        UpdateStage::Backoff(index) => UpdateStage::Block(index),
        other => other,
    }
}

/// The outcome of an update, by the outcome of its last part.
pub open spec fn switched(result: Result<(), SwitchError>) -> Result<(), UpdateError> {
    match result {
        Ok(()) => Ok(()),
        Err(e) => Err(UpdateError::Switch(e)),
    }
}

/// The stage of an update while images are switched.
pub open spec fn switching(switch: ImageSwitch) -> UpdateStage {
    match switch.stage {
        SwitchStage::Finished(result) => UpdateStage::Finished(switched(result)),
        _ => UpdateStage::Switch(switch),
    }
}

/// What happens to a firmware update.
pub enum UpdateEvent {
    /// The reply to a message came in.
    Reply(Reply),
    /// A wait is over.
    Wake,
    /// The message queue yielded something, or is closed.
    Message(Option<McuPayload>),
    /// The time for listening is up.
    Timeout,
}

/// An update of the firmware: it sends the blocks of the image one after the
/// other, each until it gets through, has the microcontroller check the whole,
/// and activates the image.
#[derive(Debug)]
pub struct FirmwareUpdate {
    pub board: MainBoard,
    /// The number of blocks that the image is sent in.
    pub blocks: usize,
    /// The checksum of the image.
    pub crc32: u32,
    pub stage: UpdateStage,
}

impl MainBoard {
    /// Starts to update the firmware to an image that is sent in `blocks` blocks.
    pub fn update_firmware(&self, image: &[u8], blocks: usize) -> (r: FirmwareUpdate)
        ensures
            r == (FirmwareUpdate {
                board: *self,
                blocks,
                crc32: crc32_of(image@),
                stage: block_or_check(0, blocks),
            }),
            r.valid(),
    {
        self.update_with_checksum(crc32fast::hash(image), blocks)
    }

    /// Starts to update the firmware to an image with this checksum.
    pub fn update_with_checksum(&self, crc32: u32, blocks: usize) -> (r: FirmwareUpdate)
        ensures
            r == (FirmwareUpdate { board: *self, blocks, crc32, stage: block_or_check(0, blocks) }),
            r.valid(),
    {
        let stage = if blocks > 0 {
            UpdateStage::Block(0)
        } else {
            UpdateStage::Check
        };
        FirmwareUpdate { board: *self, blocks, crc32, stage }
    }
}

impl FirmwareUpdate {
    /// A block that is sent is one of the image, and the switch within is one
    /// of the same board and not at its end.
    pub open spec fn valid(self) -> bool {
        match self.stage {
            UpdateStage::Block(index) => index < self.blocks,
            UpdateStage::Backoff(index) => index < self.blocks,
            UpdateStage::Switch(switch) => {
                &&& switch.board == self.board
                &&& switch.valid()
                &&& !(switch.stage is Finished)
            },
            _ => true,
        }
    }

    /// What is to be done next.
    pub open spec fn next_action(self) -> Action {
        match self.stage {
            UpdateStage::Block(index) => self.board.sends(JetsonToMcu::FwBlock { index }),
            UpdateStage::Backoff(_) => Action::Sleep { ms: RETRY_DELAY_MS },
            UpdateStage::Check => self.board.sends(
                JetsonToMcu::FwImageCheck { crc32: self.crc32 },
            ),
            UpdateStage::Switch(switch) => switch.next_action(),
            UpdateStage::Finished(_) => Action::Finished,
        }
    }

    /// `stage` is the stage after a reply. Any acknowledgement of a block lets
    /// the next one follow; a block that did not get through is tried again.
    /// Only an image that the check confirms is activated.
    pub open spec fn replied(self, reply: Reply, stage: UpdateStage) -> bool {
        match self.stage {
            UpdateStage::Block(index) => stage == block_replied(index, self.blocks, reply),
            UpdateStage::Check => match reply {
                Ok(CommonAckError::Success) => stage matches UpdateStage::Switch(switch)
                    && switch.starts(self.board),
                Ok(CommonAckError::Refused { code, .. }) => stage == UpdateStage::Finished(
                    Err(UpdateError::CheckRefused { code }),
                ),
                Err(_) => stage == UpdateStage::Finished(Err(UpdateError::CheckFailed)),
            },
            UpdateStage::Switch(switch) => stage == switching(switch.after_reply(reply)),
            other => stage == other,
        }
    }

    /// The event is one that the update waits for, and can take in.
    pub open spec fn awaits(self, event: UpdateEvent) -> bool {
        match event {
            UpdateEvent::Reply(_) => self.next_action() is Send,
            UpdateEvent::Wake => self.stage is Backoff,
            UpdateEvent::Message(received) => {
                &&& self.next_action() is Listen
                &&& InfoFetch::hears(received)
            },
            UpdateEvent::Timeout => self.next_action() is Listen,
        }
    }

    /// `r` is the update after an event.
    pub open spec fn becomes(self, event: UpdateEvent, r: FirmwareUpdate) -> bool {
        &&& r == self.at(r.stage)
        &&& match event {
            UpdateEvent::Reply(reply) => self.replied(reply, r.stage),
            UpdateEvent::Wake => r.stage == woken(self.stage),
            UpdateEvent::Message(received) => self.stage matches UpdateStage::Switch(switch)
                && exists|after: ImageSwitch| #[trigger]
                switch.becomes(received, after) && r.stage == switching(after),
            UpdateEvent::Timeout => self.stage matches UpdateStage::Switch(switch) && r.stage
                == switching(switch.after_timeout()),
        }
    }

    /// What is to be done next.
    pub fn action(&self) -> (r: Action)
        ensures
            r == self.next_action(),
    {
        match &self.stage {
            UpdateStage::Block(index) => Action::Send {
                over: self.board.interface(),
                payload: JetsonToMcu::FwBlock { index: *index },
            },
            UpdateStage::Backoff(_) => Action::Sleep { ms: RETRY_DELAY_MS },
            UpdateStage::Check => Action::Send {
                over: self.board.interface(),
                payload: JetsonToMcu::FwImageCheck { crc32: self.crc32 },
            },
            UpdateStage::Switch(switch) => switch.action(),
            UpdateStage::Finished(_) => Action::Finished,
        }
    }

    /// The same update at another stage.
    pub open spec fn at(self, stage: UpdateStage) -> FirmwareUpdate {
        FirmwareUpdate { stage, ..self }
    }

    /// Goes on with the switching of images, or ends with it.
    fn resume(switch: ImageSwitch) -> (r: UpdateStage)
        ensures
            r == switching(switch),
    {
        match switch.stage {
            SwitchStage::Finished(Ok(())) => UpdateStage::Finished(Ok(())),
            SwitchStage::Finished(Err(e)) => UpdateStage::Finished(Err(UpdateError::Switch(e))),
            _ => UpdateStage::Switch(switch),
        }
    }

    /// Takes the reply to the message that was sent.
    pub fn on_reply(self, reply: &Reply) -> (r: FirmwareUpdate)
        requires
            self.valid(),
            self.awaits(UpdateEvent::Reply(*reply)),
        ensures
            self.becomes(UpdateEvent::Reply(*reply), r),
            r.valid(),
    {
        let FirmwareUpdate { board, blocks, crc32, stage } = self;
        let stage = match stage {
            UpdateStage::Block(index) => match reply {
                Ok(_) => {
                    let next: usize = index + 1;
                    if next < blocks {
                        UpdateStage::Block(next)
                    } else {
                        UpdateStage::Check
                    }
                },
                Err(_) => UpdateStage::Backoff(index),
            },
            UpdateStage::Check => match reply {
                Ok(CommonAckError::Success) => UpdateStage::Switch(board.switch_images()),
                Ok(CommonAckError::Refused { code, .. }) => UpdateStage::Finished(
                    Err(UpdateError::CheckRefused { code: *code }),
                ),
                Err(_) => UpdateStage::Finished(Err(UpdateError::CheckFailed)),
            },
            UpdateStage::Switch(switch) => Self::resume(switch.on_reply(reply)),
            other => other,
        };
        FirmwareUpdate { board, blocks, crc32, stage }
    }

    /// The wait is over: the block is sent again.
    pub fn on_wake(self) -> (r: FirmwareUpdate)
        requires
            self.valid(),
            self.awaits(UpdateEvent::Wake),
        ensures
            self.becomes(UpdateEvent::Wake, r),
            r.valid(),
    {
        let FirmwareUpdate { board, blocks, crc32, stage } = self;
        let stage = match stage {
            UpdateStage::Backoff(index) => UpdateStage::Block(index),
            other => other,
        };
        FirmwareUpdate { board, blocks, crc32, stage }
    }

    /// Takes what the message queue yields: a message, or `None` where the
    /// queue is closed.
    pub fn on_message(self, received: Option<McuPayload>) -> (r: FirmwareUpdate)
        requires
            self.valid(),
            self.awaits(UpdateEvent::Message(received)),
        ensures
            self.becomes(UpdateEvent::Message(received), r),
            r.valid(),
    {
        let FirmwareUpdate { board, blocks, crc32, stage } = self;
        let stage = match stage {
            UpdateStage::Switch(switch) => {
                let after = switch.on_message(received);
                assert(switch.becomes(received, after));
                Self::resume(after)
            },
            other => other,
        };
        FirmwareUpdate { board, blocks, crc32, stage }
    }

    /// The time for listening is up.
    pub fn on_timeout(self) -> (r: FirmwareUpdate)
        requires
            self.valid(),
            self.awaits(UpdateEvent::Timeout),
        ensures
            self.becomes(UpdateEvent::Timeout, r),
            r.valid(),
    {
        let FirmwareUpdate { board, blocks, crc32, stage } = self;
        let stage = match stage {
            UpdateStage::Switch(switch) => Self::resume(switch.on_timeout()),
            other => other,
        };
        FirmwareUpdate { board, blocks, crc32, stage }
    }
}

/// The update at an index goes over into the next one by the event.
pub open spec fn goes_on(
    updates: Seq<FirmwareUpdate>,
    events: Seq<UpdateEvent>,
    i: int,
) -> bool {
    &&& updates[i].awaits(events[i])
    &&& updates[i].becomes(events[i], updates[i + 1])
}

/// The updates are one update from its beginning, from each event to the next.
pub open spec fn goes_through(updates: Seq<FirmwareUpdate>, events: Seq<UpdateEvent>) -> bool {
    &&& updates.len() == events.len() + 1
    &&& updates[0].stage == block_or_check(0, updates[0].blocks)
    &&& forall|i: int| 0 <= i < events.len() ==> #[trigger] goes_on(updates, events, i)
}

/// The blocks that got through, by their indices and in that order.
pub open spec fn got_through(
    updates: Seq<FirmwareUpdate>,
    events: Seq<UpdateEvent>,
) -> Seq<usize>
    decreases events.len(),
{
    if events.len() == 0 {
        Seq::empty()
    } else {
        let prior = got_through(updates.drop_last(), events.drop_last());
        match (updates[events.len() - 1].stage, events.last()) {
            (UpdateStage::Block(index), UpdateEvent::Reply(Ok(_))) => prior.push(index),
            _ => prior,
        }
    }
}

/// The first `n` indices.
pub open spec fn indices(n: int) -> Seq<usize> {
    Seq::new(n as nat, |i: int| i as usize)
}

/// The event at an index acknowledges the check of the checksum with success,
/// and from then on images are switched.
pub open spec fn confirms(
    updates: Seq<FirmwareUpdate>,
    events: Seq<UpdateEvent>,
    i: int,
) -> bool {
    &&& 0 <= i < events.len()
    &&& updates[i].stage is Check
    &&& updates[i].next_action() == updates[0].board.sends(
        JetsonToMcu::FwImageCheck { crc32: updates[0].crc32 },
    )
    &&& events[i] matches UpdateEvent::Reply(reply) && acked(reply)
    &&& forall|k: int|
        i < k < updates.len() ==> (#[trigger] updates[k].stage is Switch || updates[k].stage
            is Finished)
}

/// The event at an index is the reply to the message that activates the image,
/// and no refusal.
pub open spec fn activates(
    updates: Seq<FirmwareUpdate>,
    events: Seq<UpdateEvent>,
    i: int,
) -> bool {
    &&& 0 <= i < events.len()
    &&& updates[i].stage is Switch
    &&& updates[i].next_action() == updates[0].board.sends(
        JetsonToMcu::FwImageSecondaryActivate { force_permanent: false },
    )
    &&& events[i] matches UpdateEvent::Reply(reply) && activated_by(reply) is Ok
}

/// What holds of an update by its stage. The blocks got through in order, each
/// once; the image is checked only then, and switched only if the check was
/// acknowledged with success.
pub open spec fn in_order(updates: Seq<FirmwareUpdate>, events: Seq<UpdateEvent>) -> bool {
    let first = updates[0];
    let last = updates.last();
    &&& last == first.at(last.stage)
    &&& match last.stage {
        UpdateStage::Block(index) => {
            &&& index < first.blocks
            &&& got_through(updates, events) == indices(index as int)
        },
        UpdateStage::Backoff(index) => {
            &&& index < first.blocks
            &&& got_through(updates, events) == indices(index as int)
        },
        UpdateStage::Check => got_through(updates, events) == indices(first.blocks as int),
        UpdateStage::Switch(switch) => {
            &&& switch.board == first.board
            &&& !(switch.stage is Finished)
            &&& got_through(updates, events) == indices(first.blocks as int)
            &&& exists|i: int| #[trigger] confirms(updates, events, i)
        },
        UpdateStage::Finished(Ok(())) => {
            &&& got_through(updates, events) == indices(first.blocks as int)
            &&& exists|i: int| i < events.len() - 1 && #[trigger] confirms(updates, events, i)
            &&& activates(updates, events, events.len() - 1)
        },
        UpdateStage::Finished(Err(_)) => true,
    }
}

/// The blocks of an update are sent in order and none is left out: the block
/// that is sent is the one behind those that got through, a block that did not
/// get through is sent again, and the image is checked only once every block
/// got through.
pub proof fn law_blocks_are_sent_in_order(
    updates: Seq<FirmwareUpdate>,
    events: Seq<UpdateEvent>,
)
    requires
        goes_through(updates, events),
    ensures
        in_order(updates, events),
    decreases events.len(),
{
    if events.len() > 0 {
        let n = events.len() - 1;
        let before = updates.drop_last();
        let prior = events.drop_last();
        assert forall|i: int| 0 <= i < prior.len() implies #[trigger] goes_on(
            before,
            prior,
            i,
        ) by {
            assert(goes_on(updates, events, i));
        }
        assert(before[0] == updates[0]);
        law_blocks_are_sent_in_order(before, prior);
        assert(goes_on(updates, events, n));
        assert(before.last() == updates[n]);
        match updates[n].stage {
            UpdateStage::Block(index) => {
                assert(indices(index as int).push(index) =~= indices(index + 1));
            },
            UpdateStage::Check => {
                if updates.last().stage is Switch {
                    assert(confirms(updates, events, n));
                }
            },
            UpdateStage::Switch(_) => {
                let i = choose|i: int| #[trigger] confirms(before, prior, i);
                assert(before[i] == updates[i] && prior[i] == events[i]);
                assert forall|k: int| i < k < updates.len() implies (#[trigger] updates[k].stage
                     is Switch || updates[k].stage is Finished) by {
                    if k <= n {
                        assert(updates[k] == before[k]);
                    }
                }
                assert(confirms(updates, events, i));
            },
            _ => {},
        }
    } else {
        assert(indices(0) =~= Seq::empty());
    }
}

/// An update to an image that succeeds did all of it: each block got through,
/// once and in order, then the microcontroller acknowledged the check of the
/// image's checksum with success, and then the image was activated.
pub proof fn law_success_takes_every_step(
    board: MainBoard,
    image: Seq<u8>,
    blocks: usize,
    updates: Seq<FirmwareUpdate>,
    events: Seq<UpdateEvent>,
)
    requires
        goes_through(updates, events),
        updates[0] == (FirmwareUpdate {
            board,
            blocks,
            crc32: crc32_of(image),
            stage: block_or_check(0, blocks),
        }),
        updates.last().stage == UpdateStage::Finished(Ok(())),
    ensures
        got_through(updates, events) == indices(blocks as int),
        exists|i: int|
            {
                &&& 0 <= i < events.len() - 1
                &&& #[trigger] confirms(updates, events, i)
                &&& updates[i].next_action() == board.sends(
                    JetsonToMcu::FwImageCheck { crc32: crc32_of(image) },
                )
            },
        activates(updates, events, events.len() - 1),
{
    law_blocks_are_sent_in_order(updates, events);
}

/// Images are switched only after the microcontroller confirmed the image, and
/// an update that succeeds went through the activation.
pub proof fn law_only_a_confirmed_image_is_activated(
    update: FirmwareUpdate,
    reply: Reply,
    stage: UpdateStage,
)
    requires
        update.replied(reply, stage),
    ensures
        stage is Switch && !(update.stage is Switch) ==> update.stage is Check && acked(reply),
        stage == UpdateStage::Finished(Ok(())) && !(update.stage is Finished) ==> {
            &&& update.stage matches UpdateStage::Switch(switch)
            &&& switch.stage is Activate || switch.stage is Finished
        },
{
}

/// The secondary image is activated exactly if the versions of both images are
/// known and the images are of one type.
pub proof fn law_only_images_of_one_type_are_switched(fw_versions: Option<Versions>)
    ensures
        fetched(fw_versions) is Activate <==> {
            &&& fw_versions matches Some(versions)
            &&& versions.primary_app matches Some(primary)
            &&& versions.secondary_app matches Some(secondary)
            &&& primary.commit_hash == 0 <==> secondary.commit_hash == 0
        },
        !(fetched(fw_versions) is Fetch),
{
}

/// The blocks that were sent and got through, by the indices in the messages,
/// in that order.
pub open spec fn blocks_sent(
    updates: Seq<FirmwareUpdate>,
    events: Seq<UpdateEvent>,
) -> Seq<usize>
    decreases events.len(),
{
    if events.len() == 0 {
        Seq::empty()
    } else {
        let prior = blocks_sent(updates.drop_last(), events.drop_last());
        match (updates[events.len() - 1].next_action(), events.last()) {
            (
                Action::Send { payload: JetsonToMcu::FwBlock { index }, .. },
                UpdateEvent::Reply(Ok(_)),
            ) => prior.push(index),
            _ => prior,
        }
    }
}

proof fn lemma_blocks_sent_got_through(updates: Seq<FirmwareUpdate>, events: Seq<UpdateEvent>)
    requires
        updates.len() == events.len() + 1,
    ensures
        blocks_sent(updates, events) == got_through(updates, events),
    decreases events.len(),
{
    if events.len() > 0 {
        lemma_blocks_sent_got_through(updates.drop_last(), events.drop_last());
    }
}

/// An update that succeeds sent the whole image: the indices in the messages
/// that got through count up from zero to the last block, none left out and
/// none twice.
pub proof fn law_success_sends_the_whole_image(
    updates: Seq<FirmwareUpdate>,
    events: Seq<UpdateEvent>,
)
    requires
        goes_through(updates, events),
        updates.last().stage == UpdateStage::Finished(Ok(())),
    ensures
        blocks_sent(updates, events).len() == updates[0].blocks,
        forall|i: int|
            0 <= i < updates[0].blocks ==> #[trigger] blocks_sent(updates, events)[i] == i,
{
    law_blocks_are_sent_in_order(updates, events);
    lemma_blocks_sent_got_through(updates, events);
}

/// At every stage of an update the message to be sent is the one of that
/// stage: the block at its very index, or the check of the very checksum.
pub proof fn law_each_stage_sends_its_own_message(update: FirmwareUpdate, action: Action)
    requires
        call_ensures(FirmwareUpdate::action, (&update,), action),
    ensures
        action == update.next_action(),
        update.stage matches UpdateStage::Block(index) ==> action == (Action::Send {
            over: if update.board.canfd {
                Interface::CanFd
            } else {
                Interface::IsoTp
            },
            payload: JetsonToMcu::FwBlock { index },
        }),
        action matches Action::Send { payload: JetsonToMcu::FwBlock { index }, .. }
            ==> update.stage == UpdateStage::Block(index),
        update.stage is Check ==> action == (Action::Send {
            over: if update.board.canfd {
                Interface::CanFd
            } else {
                Interface::IsoTp
            },
            payload: JetsonToMcu::FwImageCheck { crc32: update.crc32 },
        }),
        update.stage is Backoff <==> action == (Action::Sleep { ms: 100 }),
        update.stage is Finished ==> action is Finished,
{
}

/// An update starts with the first block, knows how many there are, and holds
/// the checksum of the very image.
pub proof fn law_update_starts_with_the_image(
    board: MainBoard,
    image: &[u8],
    blocks: usize,
    checksum: u32,
    update: FirmwareUpdate,
    crc32: u32,
    by_checksum: FirmwareUpdate,
)
    requires
        call_ensures(crc32fast::hash, (image,), checksum),
        call_ensures(MainBoard::update_firmware, (&board, image, blocks), update),
        call_ensures(MainBoard::update_with_checksum, (&board, crc32, blocks), by_checksum),
    ensures
        update.board == board,
        update.blocks == blocks,
        update.crc32 == checksum,
        blocks > 0 ==> update.stage == UpdateStage::Block(0),
        blocks == 0 ==> update.stage is Check,
        by_checksum == (FirmwareUpdate { crc32, ..update }),
{
}

/// A block that was acknowledged in whatever way is followed by the next one,
/// the last one by the check; a block that did not get through is sent again.
/// No reply to a block ends an update.
pub proof fn law_block_is_followed_by_the_next(
    update: FirmwareUpdate,
    index: usize,
    reply: Reply,
    after: FirmwareUpdate,
    woken: FirmwareUpdate,
)
    requires
        update.stage == UpdateStage::Block(index),
        index < update.blocks,
        call_ensures(FirmwareUpdate::on_reply, (update, &reply), after),
        call_ensures(
            FirmwareUpdate::on_wake,
            (FirmwareUpdate { stage: UpdateStage::Backoff(index), ..update },),
            woken,
        ),
    ensures
        after.blocks == update.blocks,
        after.crc32 == update.crc32,
        after.board == update.board,
        reply is Ok && index + 1 < update.blocks ==> (after.stage matches UpdateStage::Block(next)
            && next == index + 1),
        reply is Ok && index + 1 == update.blocks ==> after.stage is Check,
        reply is Err ==> after.stage == UpdateStage::Backoff(index),
        woken == update,
{
}

/// An image whose check is not acknowledged with success is not activated:
/// the update ends, and tells the code of the refusal, whatever it is.
pub proof fn law_refused_image_is_not_activated(
    update: FirmwareUpdate,
    reply: Reply,
    after: FirmwareUpdate,
    action: Action,
)
    requires
        update.stage is Check,
        call_ensures(FirmwareUpdate::on_reply, (update, &reply), after),
        call_ensures(FirmwareUpdate::action, (&after,), action),
    ensures
        reply matches Ok(CommonAckError::Refused { code, .. }) ==> after.stage
            == UpdateStage::Finished(Err(UpdateError::CheckRefused { code })),
        reply is Err ==> after.stage == UpdateStage::Finished(Err(UpdateError::CheckFailed)),
        reply == Ok::<CommonAckError, String>(CommonAckError::Success) <==> after.stage is Switch,
        after.stage is Switch ==> action == (Action::Send {
            over: Interface::CanFd,
            payload: JetsonToMcu::ValueGet { value: RequestedValue::FirmwareVersions },
        }),
        !(after.stage is Switch) ==> action is Finished,
{
}

/// A refusal to activate the image is reported, with its code, whatever that
/// is; only success, or an error that kept the reply away, is none.
pub proof fn law_refused_activation_is_reported(
    reply: Reply,
    r: Result<(), SwitchError>,
    switch: ImageSwitch,
    after: ImageSwitch,
    update: FirmwareUpdate,
    updated: FirmwareUpdate,
)
    requires
        call_ensures(activated, (&reply,), r),
        switch.stage is Activate,
        call_ensures(ImageSwitch::on_reply, (switch, &reply), after),
        update.stage == UpdateStage::Switch(switch),
        call_ensures(FirmwareUpdate::on_reply, (update, &reply), updated),
    ensures
        reply matches Ok(CommonAckError::Refused { code, .. }) ==> {
            &&& r == Err::<(), SwitchError>(SwitchError::Refused { code })
            &&& after.stage == SwitchStage::Finished(Err(SwitchError::Refused { code }))
            &&& updated.stage == UpdateStage::Finished(
                Err(UpdateError::Switch(SwitchError::Refused { code })),
            )
        },
        r is Ok <==> (reply is Err || reply->Ok_0 is Success),
        r is Ok <==> after.stage == SwitchStage::Finished(Ok(())),
        r is Ok <==> updated.stage == UpdateStage::Finished(Ok(())),
        after.board == switch.board,
{
}

/// The versions of both images are known, and both are of production or neither.
pub open spec fn of_one_type(fw_versions: Option<Versions>) -> bool {
    &&& fw_versions matches Some(versions)
    &&& versions.primary_app matches Some(primary)
    &&& versions.secondary_app matches Some(secondary)
    &&& primary.commit_hash == 0 <==> secondary.commit_hash == 0
}

/// The version of an image is not known.
pub open spec fn not_known(fw_versions: Option<Versions>) -> bool {
    fw_versions matches Some(versions) ==> versions.primary_app is None || versions.secondary_app
        is None
}

/// Images are switched exactly if both are known and of one type, and the
/// error tells which of the two it was; the message that switches them does
/// not make it permanent.
pub proof fn law_images_decide(fw_versions: Option<Versions>, r: Result<JetsonToMcu, SwitchError>)
    requires
        call_ensures(activation, (fw_versions,), r),
    ensures
        r is Ok <==> of_one_type(fw_versions),
        r matches Ok(message) ==> message == (JetsonToMcu::FwImageSecondaryActivate {
            force_permanent: false,
        }),
        r == Err::<JetsonToMcu, SwitchError>(SwitchError::NotVerified) <==> not_known(fw_versions),
        r == Err::<JetsonToMcu, SwitchError>(SwitchError::TypesDiffer) <==> !of_one_type(
            fw_versions,
        ) && !not_known(fw_versions),
{
}

/// When the time is up, a switch goes by the versions that came in: it
/// activates the image over the interface of the board, or ends with the error.
pub proof fn law_switch_goes_by_the_versions(
    switch: ImageSwitch,
    fetch: InfoFetch,
    after: ImageSwitch,
    action: Action,
)
    requires
        switch.stage == SwitchStage::Fetch(fetch),
        call_ensures(ImageSwitch::on_timeout, (switch,), after),
        call_ensures(ImageSwitch::action, (&after,), action),
    ensures
        after.board == switch.board,
        after.stage is Activate <==> of_one_type(fetch.info.fw_versions),
        after.stage is Activate <==> action == (Action::Send {
            over: if switch.board.canfd {
                Interface::CanFd
            } else {
                Interface::IsoTp
            },
            payload: JetsonToMcu::FwImageSecondaryActivate { force_permanent: false },
        }),
        after.stage == SwitchStage::Finished(Err(SwitchError::NotVerified)) <==> not_known(
            fetch.info.fw_versions,
        ),
        after.stage == SwitchStage::Finished(Err(SwitchError::TypesDiffer)) <==> !of_one_type(
            fetch.info.fw_versions,
        ) && !not_known(fetch.info.fw_versions),
{
}

/// A message lets a switch go on only if everything about the board is then
/// known, and then by the latest versions; a closed queue changes nothing.
pub proof fn law_switch_waits_for_everything(
    switch: ImageSwitch,
    fetch: InfoFetch,
    message: McuToJetson,
    text: String,
    after: ImageSwitch,
    closed: ImageSwitch,
)
    requires
        switch.stage == SwitchStage::Fetch(fetch),
        call_ensures(
            ImageSwitch::on_message,
            (switch, Some(McuPayload::FromMain { message, text })),
            after,
        ),
        call_ensures(ImageSwitch::on_message, (switch, None::<McuPayload>), closed),
    ensures
        ({
            let fw_versions = match message {
                McuToJetson::Versions(v) => Some(v),
                _ => fetch.info.fw_versions,
            };
            &&& after.board == switch.board
            &&& closed == switch
            &&& !(after.stage is Fetch) ==> {
                &&& fw_versions is Some
                &&& fetch.info.hw_version is Some || message is Hardware
                &&& after.stage is Activate <==> of_one_type(fw_versions)
                &&& !(after.stage is Activate) ==> after.stage == SwitchStage::Finished(
                    Err(
                        if not_known(fw_versions) {
                            SwitchError::NotVerified
                        } else {
                            SwitchError::TypesDiffer
                        },
                    ),
                )
            }
            &&& after.stage matches SwitchStage::Fetch(next) ==> {
                &&& next.info.fw_versions == fw_versions
                &&& next.info.hw_version is None || next.info.fw_versions is None
                    || next.info.battery_status is None
            }
        }),
{
    assert(fetch.info@.fw_versions == fetch.info.fw_versions);
    assert(fetch.info@.hw_version == fetch.info.hw_version);
    if let SwitchStage::Fetch(next) = after.stage {
        assert(next.info@.fw_versions == next.info.fw_versions);
        assert(next.info@.hw_version == next.info.hw_version);
        assert(next.info@.battery_status == next.info.battery_status);
    }
}

/// The words for a refusal end with its code in decimal, and those for an
/// update that failed while switching are those of the switch.
pub proof fn law_words_tell_the_code(
    code: i32,
    number: String,
    switch_words: String,
    check_words: String,
    error: SwitchError,
    words: String,
    update_words: String,
)
    requires
        call_ensures(signed_text, (code,), number),
        call_ensures(SwitchError::message, (&SwitchError::Refused { code },), switch_words),
        call_ensures(UpdateError::message, (&UpdateError::CheckRefused { code },), check_words),
        call_ensures(SwitchError::message, (&error,), words),
        call_ensures(UpdateError::message, (&UpdateError::Switch(error),), update_words),
    ensures
        switch_words@ == "Unable to activate image: ack error: "@ + number@,
        check_words@ == "Unable to check image integrity: ack error: "@ + number@,
        update_words@ == words@,
{
}

/// A switch starts by fetching the info of its own board, with nothing known
/// and no diagnostic data asked for.
pub proof fn law_switch_starts_with_a_fetch(board: MainBoard, switch: ImageSwitch)
    requires
        call_ensures(MainBoard::switch_images, (&board,), switch),
    ensures
        switch.board == board,
        switch.stage matches SwitchStage::Fetch(fetch) && {
            &&& fetch.board == board
            &&& fetch.diag is None
            &&& fetch.stage == FetchStage::Subscribe
            &&& !fetch.is_err
            &&& fetch.info.hw_version is None
            &&& fetch.info.fw_versions is None
            &&& fetch.info.battery_status is None
            &&& fetch.info.hardware_states@.len() == 0
            &&& fetch.battery.percentage is None
            &&& fetch.battery.voltage_mv is None
            &&& fetch.battery.is_charging is None
        },
{
    if let SwitchStage::Fetch(fetch) = switch.stage {
        assert(fetch.info@.hw_version == fetch.info.hw_version);
        assert(fetch.info@.fw_versions == fetch.info.fw_versions);
        assert(fetch.info@.battery_status == fetch.info.battery_status);
        assert(fetch.info@.hardware_states == fetch.info.hardware_states@);
    }
}

/// While a switch fetches, it does what the fetch does, and an update that
/// switches images does what the switch does.
pub proof fn law_actions_are_those_of_the_part(
    switch: ImageSwitch,
    fetch: InfoFetch,
    fetch_action: Action,
    switch_action: Action,
    update: FirmwareUpdate,
    part: ImageSwitch,
    part_action: Action,
    update_action: Action,
    reply: Reply,
    fetched: InfoFetch,
    replied: ImageSwitch,
)
    requires
        switch.stage == SwitchStage::Fetch(fetch),
        call_ensures(InfoFetch::action, (&fetch,), fetch_action),
        call_ensures(ImageSwitch::action, (&switch,), switch_action),
        update.stage == UpdateStage::Switch(part),
        call_ensures(ImageSwitch::action, (&part,), part_action),
        call_ensures(FirmwareUpdate::action, (&update,), update_action),
        call_ensures(InfoFetch::on_reply, (fetch, &reply), fetched),
        call_ensures(ImageSwitch::on_reply, (switch, &reply), replied),
    ensures
        switch_action == fetch_action,
        update_action == part_action,
        replied.stage == SwitchStage::Fetch(fetched),
        replied.board == switch.board,
{
}

/// The stage of an update that switches images is that of the switch: it ends
/// when the switch does, with its success or its error.
pub open spec fn ends_with(update: UpdateStage, switch: SwitchStage) -> bool {
    match update {
        UpdateStage::Finished(Ok(())) => switch == SwitchStage::Finished(Ok(())),
        UpdateStage::Finished(Err(UpdateError::Switch(e))) => switch == SwitchStage::Finished(
            Err(e),
        ),
        UpdateStage::Switch(part) => {
            &&& part.stage is Fetch <==> switch is Fetch
            &&& part.stage is Activate <==> switch is Activate
            &&& !(switch is Finished)
        },
        _ => false,
    }
}

/// An update that switches images comes to what the switch comes to by a reply.
pub proof fn law_reply_ends_update_with_its_switch(
    update: FirmwareUpdate,
    switch: ImageSwitch,
    reply: Reply,
    switched: ImageSwitch,
    updated: FirmwareUpdate,
)
    requires
        update.stage == UpdateStage::Switch(switch),
        switch.next_action() is Send,
        call_ensures(ImageSwitch::on_reply, (switch, &reply), switched),
        call_ensures(FirmwareUpdate::on_reply, (update, &reply), updated),
    ensures
        ends_with(updated.stage, switched.stage),
        updated == (FirmwareUpdate { stage: updated.stage, ..update }),
{
}

/// An update that switches images comes to what the switch comes to by what
/// the message queue yields.
pub proof fn law_message_ends_update_with_its_switch(
    update: FirmwareUpdate,
    switch: ImageSwitch,
    received: Option<McuPayload>,
    switched: ImageSwitch,
    updated: FirmwareUpdate,
)
    requires
        update.stage == UpdateStage::Switch(switch),
        switch.next_action() is Listen,
        InfoFetch::hears(received),
        call_ensures(ImageSwitch::on_message, (switch, received), switched),
        call_ensures(FirmwareUpdate::on_message, (update, received), updated),
    ensures
        ends_with(updated.stage, switched.stage),
        updated == (FirmwareUpdate { stage: updated.stage, ..update }),
{
}

/// An update that switches images comes to what the switch comes to when the
/// time is up.
pub proof fn law_timeout_ends_update_with_its_switch(
    update: FirmwareUpdate,
    switch: ImageSwitch,
    switched: ImageSwitch,
    updated: FirmwareUpdate,
)
    requires
        update.stage == UpdateStage::Switch(switch),
        switch.next_action() is Listen,
        call_ensures(ImageSwitch::on_timeout, (switch,), switched),
        call_ensures(FirmwareUpdate::on_timeout, (update,), updated),
    ensures
        ends_with(updated.stage, switched.stage),
        updated == (FirmwareUpdate { stage: updated.stage, ..update }),
{
}

} // verus!
