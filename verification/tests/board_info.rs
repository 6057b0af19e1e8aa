use orb_control::board_info::{BatteryStatus, MainBoardInfo, OrbRevision};
use orb_control::info_fetch::{known, FetchStage, InfoFetch, OrbInfo};
use orb_control::main_board::{Action, MainBoard};
use orb_control::message::{
    BatteryVoltage, CommonAckError, FirmwareVersion, Hardware, HardwareState, Interface,
    JetsonToMcu, McuPayload, McuToJetson, Reply, RequestedValue, Versions,
};

const TP: MainBoard = MainBoard { canfd: false };

fn ok() -> Reply {
    Ok(CommonAckError::Success)
}

fn refused() -> Reply {
    Ok(CommonAckError::Refused {
        code: 1,
        debug: "Fail".to_string(),
        display: "failure".to_string(),
    })
}

fn lost() -> Reply {
    Err("timeout".to_string())
}

fn versions(hash: u32) -> Versions {
    let app = FirmwareVersion { major: 1, minor: 2, patch: 3, commit_hash: hash };
    Versions { primary_app: Some(app), secondary_app: None }
}

fn voltage(mv: i32) -> BatteryVoltage {
    BatteryVoltage {
        battery_cell1_mv: mv,
        battery_cell2_mv: mv + 1,
        battery_cell3_mv: mv + 2,
        battery_cell4_mv: mv + 3,
    }
}

fn state(name: &str) -> HardwareState {
    HardwareState { source_name: name.to_string(), status: 1, message: "fine".to_string() }
}

fn from_main(message: McuToJetson) -> Option<McuPayload> {
    let text = format!("{message:?}");
    Some(McuPayload::FromMain { message, text })
}

fn listening() -> InfoFetch {
    let fetch = TP.fetch_info(false).on_reply(&ok()).on_reply(&ok()).on_reply(&ok());
    assert_eq!(fetch.action(), Action::Listen { timeout_ms: 2000 });
    fetch
}

fn get(value: RequestedValue) -> JetsonToMcu {
    JetsonToMcu::ValueGet { value }
}

#[test]
fn nothing_is_known_at_first() {
    let info = MainBoardInfo::new();
    assert!(!info.is_complete());
    assert_eq!(info.hw_version, None);
    assert_eq!(info.fw_versions, None);
    assert_eq!(info.battery_status, None);
    assert_eq!(info.hardware_states, vec![]);
    assert!(!BatteryStatus::new().is_known());
    assert!(BatteryStatus::new().is_nothing());
    assert!(!BatteryStatus { is_charging: Some(false), ..BatteryStatus::new() }.is_nothing());
}

#[test]
fn requests_do_not_depend_on_replies() {
    for reply in [ok(), refused(), lost()] {
        for diag in [None, Some(false), Some(true)] {
            let mut fetch = MainBoardInfo::new().build(TP, diag);
            let mut sent = vec![];
            while let Action::Send { over, payload } = fetch.action() {
                sent.push((over, payload));
                fetch = fetch.on_reply(&reply);
            }
            let mut expected = vec![
                (Interface::CanFd, get(RequestedValue::FirmwareVersions)),
                (Interface::IsoTp, get(RequestedValue::FirmwareVersions)),
                (Interface::IsoTp, get(RequestedValue::HardwareVersions)),
            ];
            if diag == Some(true) {
                expected.push((Interface::IsoTp, JetsonToMcu::SyncDiagData { interval: 0 }));
            }
            assert_eq!(sent, expected);
            assert_eq!(fetch.stage, FetchStage::Listen);
        }
    }
}

#[test]
fn only_version_requests_count_as_errors() {
    for failing in 0..4 {
        let mut fetch = TP.fetch_info(true);
        for index in 0..4 {
            let reply = if index == failing { lost() } else { ok() };
            fetch = fetch.on_reply(&reply);
        }
        assert_eq!(fetch.is_err, failing == 1 || failing == 2);
    }
}

#[test]
fn listening_lasts_until_complete() {
    let fetch = listening();
    let fetch = fetch.on_message(from_main(McuToJetson::Versions(versions(7))));
    let fetch = fetch.on_message(from_main(McuToJetson::Other));
    let fetch = fetch.on_message(from_main(McuToJetson::BatteryCapacity { percentage: 80 }));
    let fetch = fetch.on_message(from_main(McuToJetson::Hardware(Hardware { version: 4 })));
    let fetch = fetch.on_message(from_main(McuToJetson::HwState(state("fan"))));
    let fetch = fetch.on_message(from_main(McuToJetson::BatteryVoltage(voltage(3700))));
    assert_eq!(fetch.stage, FetchStage::Listen);
    assert_eq!(fetch.info.battery_status, None);
    let fetch = fetch
        .on_message(from_main(McuToJetson::BatteryIsCharging { battery_is_charging: true }));
    assert_eq!(fetch.action(), Action::Finished);
    assert!(!fetch.is_err);
    let info = fetch.result().unwrap();
    assert_eq!(
        info,
        MainBoardInfo {
            hw_version: Some(OrbRevision(Hardware { version: 4 })),
            fw_versions: Some(versions(7)),
            battery_status: Some(BatteryStatus {
                percentage: Some(80),
                voltage_mv: Some(14806),
                is_charging: Some(true),
            }),
            hardware_states: vec![state("fan")],
        }
    );
}

#[test]
fn latest_versions_and_first_battery_status_win() {
    let mut info = MainBoardInfo::new();
    let mut battery = BatteryStatus::new();
    let messages = [
        McuToJetson::Versions(versions(1)),
        McuToJetson::BatteryCapacity { percentage: 10 },
        McuToJetson::BatteryIsCharging { battery_is_charging: false },
        McuToJetson::BatteryCapacity { percentage: 20 },
        McuToJetson::BatteryVoltage(voltage(0)),
        McuToJetson::BatteryCapacity { percentage: 30 },
        McuToJetson::HwState(state("a")),
        McuToJetson::Versions(versions(2)),
        McuToJetson::HwState(state("b")),
    ];
    for message in messages {
        assert!(!info.hear(&mut battery, message));
    }
    assert_eq!(info.fw_versions, Some(versions(2)));
    assert_eq!(
        info.battery_status,
        Some(BatteryStatus {
            percentage: Some(20),
            voltage_mv: Some(6),
            is_charging: Some(false),
        })
    );
    assert_eq!(battery.percentage, Some(30));
    assert_eq!(info.hardware_states, vec![state("a"), state("b")]);
    assert!(info.hear(&mut battery, McuToJetson::Hardware(Hardware { version: 1 })));
    assert!(info.hear(&mut battery, McuToJetson::Hardware(Hardware { version: 2 })));
    assert_eq!(info.hw_version, Some(OrbRevision(Hardware { version: 2 })));
}

#[test]
fn timeout_keeps_what_was_heard() {
    let fetch = listening().on_message(from_main(McuToJetson::Versions(versions(9))));
    let fetch = fetch.on_message(from_main(McuToJetson::BatteryCapacity { percentage: 1 }));
    let fetch = fetch.on_timeout();
    assert_eq!(fetch.action(), Action::Finished);
    assert!(fetch.is_err);
    let info = fetch.result().unwrap();
    assert_eq!(info.fw_versions, Some(versions(9)));
    assert_eq!(
        info.battery_status,
        Some(BatteryStatus { percentage: Some(1), voltage_mv: None, is_charging: None })
    );
}

#[test]
fn timeout_without_a_message_leaves_nothing() {
    let info = listening().on_timeout().result().unwrap();
    assert_eq!(info, MainBoardInfo::new());
}

#[test]
fn timeout_keeps_the_first_full_battery_status() {
    let mut fetch = listening();
    let messages = [
        McuToJetson::BatteryIsCharging { battery_is_charging: false },
        McuToJetson::BatteryVoltage(voltage(1)),
        McuToJetson::BatteryCapacity { percentage: 50 },
        McuToJetson::BatteryCapacity { percentage: 51 },
        McuToJetson::HwState(state("a")),
    ];
    for message in messages {
        fetch = fetch.on_message(from_main(message));
    }
    let info = fetch.on_timeout().result().unwrap();
    assert_eq!(
        info.battery_status,
        Some(BatteryStatus {
            percentage: Some(50),
            voltage_mv: Some(10),
            is_charging: Some(false),
        })
    );
    assert_eq!(info.hardware_states, vec![state("a")]);
}

#[test]
fn closed_queue_does_not_end_the_listening() {
    let fetch = listening()
        .on_message(from_main(McuToJetson::BatteryIsCharging { battery_is_charging: true }));
    let fetch = fetch.on_message(None).on_message(None);
    assert_eq!(fetch.action(), Action::Listen { timeout_ms: 2000 });
    assert!(!fetch.is_err);
    assert_eq!(fetch.info, MainBoardInfo::new());
    assert_eq!(fetch.battery.is_charging, Some(true));
    let fetch = fetch.on_timeout();
    assert_eq!(fetch.action(), Action::Finished);
    assert_eq!(
        fetch.result().unwrap().battery_status,
        Some(BatteryStatus { percentage: None, voltage_mv: None, is_charging: Some(true) })
    );
}

#[test]
fn fetch_does_not_fail() {
    for reply in [ok(), refused(), lost()] {
        let fetch = TP.fetch_info(false).on_reply(&reply).on_reply(&reply).on_reply(&reply);
        assert_eq!(fetch.is_err, reply != ok());
        assert_eq!(fetch.on_timeout().result(), Ok(MainBoardInfo::new()));
    }
}

#[test]
fn info_is_known_either_way() {
    let info = || MainBoardInfo { hardware_states: vec![state("a")], ..MainBoardInfo::new() };
    assert_eq!(known(Ok(info())), info());
    assert_eq!(known(Err(info())), info());
}

#[test]
fn what_can_be_heard() {
    assert!(InfoFetch::can_hear(&None));
    assert!(InfoFetch::can_hear(&from_main(McuToJetson::Other)));
    assert!(InfoFetch::can_hear(&from_main(McuToJetson::BatteryVoltage(voltage(3700)))));
    assert!(!InfoFetch::can_hear(&Some(McuPayload::Security { text: "ToSec(Ping)".to_string() })));
    assert!(!InfoFetch::can_hear(&Some(McuPayload::ToMain(JetsonToMcu::Fps { fps: 1 }))));
    let huge = BatteryVoltage {
        battery_cell1_mv: i32::MAX,
        battery_cell2_mv: 1,
        battery_cell3_mv: -1,
        battery_cell4_mv: 0,
    };
    assert!(!huge.is_in_range());
    assert!(!InfoFetch::can_hear(&from_main(McuToJetson::BatteryVoltage(huge))));
}

#[test]
fn voltages_add_up() {
    assert_eq!(voltage(4000).total(), 16006);
    let negative = BatteryVoltage {
        battery_cell1_mv: -1,
        battery_cell2_mv: 0,
        battery_cell3_mv: 0,
        battery_cell4_mv: 0,
    };
    assert!(negative.is_in_range());
    assert_eq!(negative.total(), u32::MAX);
}

#[test]
fn orb_info_takes_the_board_over() {
    let mut orb = OrbInfo {
        hw_rev: Some(OrbRevision(Hardware { version: 1 })),
        main_fw_versions: Some(versions(1)),
        main_battery_status: Some(BatteryStatus::new()),
        hardware_states: vec![state("security")],
    };
    let board = MainBoardInfo {
        hw_version: None,
        fw_versions: Some(versions(2)),
        battery_status: None,
        hardware_states: vec![state("a"), state("b")],
    };
    orb.take_main_board(board);
    assert_eq!(
        orb,
        OrbInfo {
            hw_rev: None,
            main_fw_versions: Some(versions(2)),
            main_battery_status: None,
            hardware_states: vec![state("security"), state("a"), state("b")],
        }
    );
}
