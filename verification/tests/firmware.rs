use orb_control::firmware::{
    activated, activation, FirmwareUpdate, ImageSwitch, SwitchError, SwitchStage, UpdateError,
    UpdateStage,
};
use orb_control::main_board::{Action, MainBoard};
use orb_control::message::{
    CommonAckError, FirmwareVersion, Interface, JetsonToMcu, McuPayload, McuToJetson, Reply,
    Versions,
};

const FD: MainBoard = MainBoard { canfd: true };

fn ok() -> Reply {
    Ok(CommonAckError::Success)
}

fn refused() -> Reply {
    Ok(CommonAckError::Refused {
        code: -3,
        debug: "Fail".to_string(),
        display: "failure".to_string(),
    })
}

fn lost() -> Reply {
    Err("timeout".to_string())
}

fn from_main(message: McuToJetson) -> Option<McuPayload> {
    let text = format!("{message:?}");
    Some(McuPayload::FromMain { message, text })
}

fn over_fd(payload: JetsonToMcu) -> Action {
    Action::Send { over: Interface::CanFd, payload }
}

fn block(index: usize) -> Action {
    over_fd(JetsonToMcu::FwBlock { index })
}

const ACTIVATE: JetsonToMcu = JetsonToMcu::FwImageSecondaryActivate { force_permanent: false };

fn app(commit_hash: u32) -> Option<FirmwareVersion> {
    Some(FirmwareVersion { major: 1, minor: 0, patch: 0, commit_hash })
}

fn images(primary: u32, secondary: u32) -> Option<Versions> {
    Some(Versions { primary_app: app(primary), secondary_app: app(secondary) })
}

/// A switch that knows these versions when the time is up.
fn fetched(versions: Option<Versions>) -> ImageSwitch {
    let switch = FD.switch_images().on_reply(&ok()).on_reply(&ok()).on_reply(&ok());
    assert_eq!(switch.action(), Action::Listen { timeout_ms: 2000 });
    let switch = match versions {
        Some(v) => switch.on_message(from_main(McuToJetson::Versions(v))),
        None => switch,
    };
    switch.on_timeout()
}

fn outcome(switch: &ImageSwitch) -> Result<(), SwitchError> {
    match switch.stage {
        SwitchStage::Finished(result) => result,
        _ => panic!("not finished"),
    }
}

fn update_outcome(update: &FirmwareUpdate) -> Result<(), UpdateError> {
    match update.stage {
        UpdateStage::Finished(result) => result,
        _ => panic!("not finished"),
    }
}

#[test]
fn images_must_be_of_one_type() {
    assert_eq!(activation(images(0, 0)), Ok(ACTIVATE));
    assert_eq!(activation(images(5, 9)), Ok(ACTIVATE));
    assert_eq!(activation(images(0, 9)), Err(SwitchError::TypesDiffer));
    assert_eq!(activation(images(5, 0)), Err(SwitchError::TypesDiffer));
}

#[test]
fn both_versions_must_be_known() {
    assert_eq!(activation(None), Err(SwitchError::NotVerified));
    for (primary_app, secondary_app) in [(None, None), (app(1), None), (None, app(1))] {
        assert_eq!(
            activation(Some(Versions { primary_app, secondary_app })),
            Err(SwitchError::NotVerified)
        );
    }
}

#[test]
fn activation_may_get_lost() {
    assert_eq!(activated(&ok()), Ok(()));
    assert_eq!(activated(&lost()), Ok(()));
    assert_eq!(activated(&refused()), Err(SwitchError::Refused { code: -3 }));
}

#[test]
fn switch_activates_matching_images() {
    let switch = fetched(images(3, 4));
    assert_eq!(switch.action(), over_fd(ACTIVATE));
    assert_eq!(outcome(&switch.on_reply(&ok())), Ok(()));
    assert_eq!(outcome(&fetched(images(3, 4)).on_reply(&lost())), Ok(()));
    assert_eq!(
        outcome(&fetched(images(3, 4)).on_reply(&refused())),
        Err(SwitchError::Refused { code: -3 })
    );
}

#[test]
fn switch_refuses_other_images() {
    assert_eq!(outcome(&fetched(images(3, 0))), Err(SwitchError::TypesDiffer));
    let switch = fetched(None);
    assert_eq!(switch.action(), Action::Finished);
    assert_eq!(outcome(&switch), Err(SwitchError::NotVerified));
}

#[test]
fn closed_queue_leaves_the_switch_to_the_time() {
    let switch = FD.switch_images().on_reply(&lost()).on_reply(&lost()).on_reply(&lost());
    let versions = McuToJetson::Versions(images(1, 1).unwrap());
    let switch = switch.on_message(from_main(versions));
    assert_eq!(switch.action(), Action::Listen { timeout_ms: 2000 });
    let switch = switch.on_message(None);
    assert_eq!(switch.action(), Action::Listen { timeout_ms: 2000 });
    assert_eq!(switch.on_timeout().action(), over_fd(ACTIVATE));
}

#[test]
fn blocks_are_sent_in_order() {
    let update = FD.update_with_checksum(77, 3);
    assert_eq!(update.action(), block(0));
    let update = update.on_reply(&ok());
    assert_eq!(update.action(), block(1));
    let update = update.on_reply(&lost());
    assert_eq!(update.action(), Action::Sleep { ms: 100 });
    let update = update.on_wake();
    assert_eq!(update.action(), block(1));
    let update = update.on_reply(&lost()).on_wake();
    assert_eq!(update.action(), block(1));
    // A block that was refused was received.
    let update = update.on_reply(&refused());
    assert_eq!(update.action(), block(2));
    let update = update.on_reply(&ok());
    assert_eq!(update.action(), over_fd(JetsonToMcu::FwImageCheck { crc32: 77 }));
}

#[test]
fn checksum_is_that_of_the_image() {
    let update = FD.update_firmware(b"123456789", 0);
    assert_eq!(update.action(), over_fd(JetsonToMcu::FwImageCheck { crc32: 0xcbf4_3926 }));
    let update = FD.update_firmware(b"", 0);
    assert_eq!(update.action(), over_fd(JetsonToMcu::FwImageCheck { crc32: 0 }));
}

/// The checksum, one bit after the other.
fn crc32(data: &[u8]) -> u32 {
    let mut remainder = u32::MAX;
    for byte in data {
        remainder ^= u32::from(*byte);
        for _ in 0..8 {
            remainder = if remainder % 2 == 1 {
                (remainder / 2) ^ 0xedb8_8320
            } else {
                remainder / 2
            };
        }
    }
    !remainder
}

#[test]
fn checksum_goes_bit_by_bit() {
    assert_eq!(crc32(b"123456789"), 0xcbf4_3926);
    let mut image: Vec<u8> = vec![];
    let mut seed: u32 = 1;
    for _ in 0..1500 {
        let update = FD.update_firmware(&image, 0);
        assert_eq!(update.crc32, crc32(&image));
        seed = seed.wrapping_mul(1_664_525).wrapping_add(1_013_904_223);
        image.push((seed >> 24) as u8);
    }
}

#[test]
fn only_a_confirmed_image_is_activated() {
    let update = FD.update_with_checksum(1, 0).on_reply(&refused());
    assert_eq!(update.action(), Action::Finished);
    assert_eq!(update_outcome(&update), Err(UpdateError::CheckRefused { code: -3 }));
    let update = FD.update_with_checksum(1, 0).on_reply(&lost());
    assert_eq!(update_outcome(&update), Err(UpdateError::CheckFailed));
    let update = FD.update_with_checksum(1, 0).on_reply(&ok());
    assert!(matches!(update.stage, UpdateStage::Switch(_)));
}

fn switching() -> FirmwareUpdate {
    let update = FD.update_with_checksum(1, 1).on_reply(&ok()).on_reply(&ok());
    update.on_reply(&ok()).on_reply(&ok()).on_reply(&ok())
}

#[test]
fn update_runs_to_its_end() {
    let versions = McuToJetson::Versions(images(1, 2).unwrap());
    let update = switching();
    assert_eq!(update.action(), Action::Listen { timeout_ms: 2000 });
    let update = update.on_message(from_main(versions));
    let update = update.on_timeout();
    assert_eq!(update.action(), over_fd(ACTIVATE));
    let update = update.on_reply(&ok());
    assert_eq!(update_outcome(&update), Ok(()));
}

#[test]
fn update_ends_with_the_switch() {
    let update = switching().on_message(None);
    assert_eq!(update.action(), Action::Listen { timeout_ms: 2000 });
    let update = update.on_timeout();
    assert_eq!(update_outcome(&update), Err(UpdateError::Switch(SwitchError::NotVerified)));
    let versions = McuToJetson::Versions(images(0, 2).unwrap());
    let update = switching().on_message(from_main(versions)).on_timeout();
    assert_eq!(update_outcome(&update), Err(UpdateError::Switch(SwitchError::TypesDiffer)));
}

#[test]
fn errors_are_told() {
    assert_eq!(SwitchError::NotVerified.message(), "Firmware versions can't be verified");
    assert_eq!(
        SwitchError::TypesDiffer.message(),
        "Primary and secondary images types (prod or dev) don't match"
    );
    assert_eq!(
        SwitchError::Refused { code: -3 }.message(),
        "Unable to activate image: ack error: -3"
    );
    assert_eq!(
        UpdateError::CheckRefused { code: 12 }.message(),
        "Unable to check image integrity: ack error: 12"
    );
    assert_eq!(UpdateError::CheckFailed.message(), "Firmware image integrity check failed");
    assert_eq!(
        UpdateError::Switch(SwitchError::NotVerified).message(),
        "Firmware versions can't be verified"
    );
}
