use orb_control::dump::{Dump, DumpAction, Print};
use orb_control::main_board::MainBoard;
use orb_control::message::{
    CommonAckError, Interface, JetsonToMcu, McuPayload, McuToJetson, Reply, RequestedValue,
};
use orb_control::stress::{RoundLabel, StressAction, StressReport, StressStage, StressTest};

const TP: MainBoard = MainBoard { canfd: false };

fn log() -> Option<McuPayload> {
    let message = McuToJetson::Log { log: "boot".to_string() };
    Some(McuPayload::FromMain { message, text: "Log(Log { log: \"boot\" })".to_string() })
}

fn capacity() -> Option<McuPayload> {
    let message = McuToJetson::BatteryCapacity { percentage: 5 };
    let text = "BatteryCapacity(BatteryCapacity { percentage: 5 })".to_string();
    Some(McuPayload::FromMain { message, text })
}

fn other() -> Option<McuPayload> {
    let text = "Temperature(Temperature { temperature_c: 40 })".to_string();
    Some(McuPayload::FromMain { message: McuToJetson::Other, text })
}

/// A dump that has not ended by its first look at the clock.
fn draining(logs_only: bool) -> Dump {
    let dump = TP.dump(0, None, logs_only);
    assert_eq!(dump.action(), DumpAction::ReadClock);
    let dump = dump.on_time(u128::MAX);
    assert_eq!(dump.action(), DumpAction::Receive);
    dump
}

#[test]
fn dump_ends_after_its_duration() {
    let dump = TP.dump(1_000, Some(500), false);
    assert_eq!(dump.on_time(1_000).action(), DumpAction::Receive);
    assert_eq!(dump.on_time(1_500).action(), DumpAction::Receive);
    assert_eq!(dump.on_time(1_501).action(), DumpAction::Finished);
}

#[test]
fn full_dump_prints_every_message() {
    let (dump, print) = draining(false).on_message(log());
    assert_eq!(print, Some(Print::Message("Log(Log { log: \"boot\" })".to_string())));
    assert_eq!(dump.action(), DumpAction::Receive);
    let (dump, print) = dump.on_message(capacity());
    assert_eq!(
        print,
        Some(Print::Message("BatteryCapacity(BatteryCapacity { percentage: 5 })".to_string()))
    );
    assert_eq!(dump.action(), DumpAction::Receive);
    let (dump, print) = dump.on_message(other());
    assert_eq!(
        print,
        Some(Print::Message("Temperature(Temperature { temperature_c: 40 })".to_string()))
    );
    assert_eq!(dump.action(), DumpAction::Receive);
}

#[test]
fn log_dump_prints_logs_only() {
    let (dump, print) = draining(true).on_message(log());
    assert_eq!(print, Some(Print::Log("boot".to_string())));
    let (dump, print) = dump.on_message(capacity());
    assert_eq!(print, None);
    assert_eq!(dump.action(), DumpAction::Receive);
    let (dump, print) = dump.on_message(other());
    assert_eq!(print, None);
    assert_eq!(dump.action(), DumpAction::Receive);
    let (dump, print) = dump.on_message(log());
    assert_eq!(print, Some(Print::Log("boot".to_string())));
    assert_eq!(dump.action(), DumpAction::Receive);
}

#[test]
fn dump_pauses_when_nothing_comes() {
    let to_main = || Some(McuPayload::ToMain(JetsonToMcu::Fps { fps: 1 }));
    for logs_only in [false, true] {
        let security = McuPayload::Security { text: "FromSec(Ping)".to_string() };
        for received in [None, Some(security), to_main()] {
            let (dump, print) = draining(logs_only).on_message(received);
            assert_eq!(print, None);
            assert_eq!(dump.action(), DumpAction::Sleep { ms: 200 });
            assert_eq!(dump.on_wake().action(), DumpAction::ReadClock);
        }
    }
}

fn ok() -> Reply {
    Ok(CommonAckError::Success)
}

fn lost() -> Reply {
    Err("timeout".to_string())
}

fn refused() -> Reply {
    Ok(CommonAckError::Refused {
        code: 1,
        debug: "Fail".to_string(),
        display: "failure".to_string(),
    })
}

/// A round that started at `started`, about to send its first request.
fn requesting(test: StressTest, started: u128) -> StressTest {
    assert_eq!(test.action(), StressAction::StartRound);
    let test = test.on_start(started, started);
    assert_eq!(test.action(), StressAction::ReadClock);
    test.on_time(started)
}

/// A round that is over after the replies.
fn over(test: StressTest, started: u128, replies: Vec<Reply>) -> StressTest {
    let mut test = requesting(test, started);
    for reply in replies {
        assert!(test.can_count());
        test = test.on_reply(&reply).on_time(started);
    }
    let StressStage::Request { started, until } = test.stage else {
        panic!("no request is sent");
    };
    let test = StressTest { stage: StressStage::Check { started, until }, ..test };
    let test = test.on_time(until + 1);
    assert_eq!(test.action(), StressAction::Report);
    test
}

const MS: u128 = 1_000_000;

#[test]
fn stress_asks_for_versions() {
    assert_eq!(
        requesting(TP.stress_test(None), 5).action(),
        StressAction::Send {
            over: Interface::IsoTp,
            payload: JetsonToMcu::ValueGet { value: RequestedValue::FirmwareVersions },
        }
    );
}

#[test]
fn rounds_share_the_duration() {
    let test = TP.stress_test(Some(7)).on_start(9, 10);
    assert_eq!(test.stage, StressStage::Check { started: 9, until: 13 });
    assert_eq!(test.on_time(13).stage, StressStage::Request { started: 9, until: 13 });
    assert_eq!(test.on_time(14).stage, StressStage::Report { started: 9 });
    let test = TP.stress_test(None).on_start(0, 1);
    assert_eq!(test.stage, StressStage::Check { started: 0, until: 3_000_000_001 });
}

#[test]
fn only_a_given_duration_ends_the_test() {
    let test = over(TP.stress_test(Some(1_000)), 0, vec![]).on_report();
    assert_eq!(test.action(), StressAction::StartRound);
    let test = over(test, 0, vec![]).on_report();
    assert_eq!(test.action(), StressAction::Finished);
    let mut test = TP.stress_test(None);
    for round in 0..5 {
        assert_eq!(test.test_idx, round % 2);
        test = over(test, 0, vec![]).on_report();
    }
}

#[test]
fn every_reply_is_counted_once() {
    let replies = vec![ok(), lost(), refused(), ok(), ok(), ok(), ok()];
    let test = over(TP.stress_test(None), 500, replies);
    assert_eq!((test.success_count, test.error_count), (5, 2));
    let now = 500 + 3001 * MS - 1;
    assert!(test.is_reportable(now));
    assert_eq!(
        test.report(now),
        StressReport {
            label: RoundLabel::IsoTp,
            tx_count: 7,
            per_second: 2,
            success_percent: 71,
            error_percent: 29,
        }
    );
    let next = test.on_report();
    assert_eq!((next.success_count, next.error_count), (0, 0));
    let next = over(next, 0, vec![lost()]);
    assert_eq!(
        next.report((0x1_0000_0000 + 10) * MS),
        StressReport {
            label: RoundLabel::CanFd,
            tx_count: 1,
            per_second: 100,
            success_percent: 0,
            error_percent: 100,
        }
    );
}

#[test]
fn some_rounds_cannot_be_reported() {
    assert!(!over(TP.stress_test(None), 0, vec![]).is_reportable(3000 * MS));
    let test = over(TP.stress_test(None), 7, vec![ok()]);
    assert!(!test.is_reportable(0));
    assert!(!test.is_reportable(7 + MS - 1));
    assert!(test.is_reportable(7 + MS));
    assert!(!test.is_reportable(7 + 0x1_0000_0000 * MS));
    let many = StressTest { success_count: 4_294_967, error_count: 0, ..test };
    assert!(many.is_reportable(3000 * MS));
    let too_many = StressTest { error_count: 1, ..many };
    assert!(!too_many.is_reportable(3000 * MS));
    assert!(!TP.stress_test(None).is_reportable(3000 * MS));
    let full = StressTest { success_count: u32::MAX, error_count: 0, ..test };
    assert!(!full.can_count());
}
