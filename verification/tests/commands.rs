use orb_control::commands::{Camera, GimbalHomeOpts, InvalidLeds, Leds};
use orb_control::main_board::{
    Action, BuildError, CanInterface, Device, IsoTpNodeIdentifier, MainBoard, MainBoardBuilder,
    NotToMain,
};
use orb_control::message::{
    CommonAckError, HomingAngle, HomingMode, Interface, JetsonToMcu, McuPayload, McuToJetson,
    MirrorAngleType, PolarizerCommand, PowerLine, Reply, UserRgbLedPattern, Wavelength,
};
use orb_control::script::{Cause, Failure, PolarizerOpts, Script, Task};
use orb_control::text::{signed_text, unsigned_text};

const FD: MainBoard = MainBoard { canfd: true };
const TP: MainBoard = MainBoard { canfd: false };

fn refused() -> Reply {
    Ok(CommonAckError::Refused {
        code: 4,
        debug: "Fail".to_string(),
        display: "failure".to_string(),
    })
}

fn lost() -> Reply {
    Err("timeout".to_string())
}

/// The actions of a script that gets nothing but success.
fn actions(mut script: Script) -> Vec<Action> {
    let mut actions = vec![];
    loop {
        let action = script.action();
        match action {
            Action::Send { .. } => script.on_reply(Ok(CommonAckError::Success)).unwrap(),
            Action::Sleep { .. } => script.on_wake(),
            _ => return actions,
        }
        actions.push(action);
    }
}

fn over_fd(payload: JetsonToMcu) -> Action {
    Action::Send { over: Interface::CanFd, payload }
}

/// What a script fails with when its message at `index` gets `reply`.
fn failure(mut script: Script, index: usize, reply: Reply) -> String {
    let mut sent = 0;
    loop {
        match script.action() {
            Action::Send { .. } if sent == index => {
                return script.on_reply(reply).unwrap_err().message();
            }
            Action::Send { .. } => {
                script.on_reply(Ok(CommonAckError::Success)).unwrap();
                sent += 1;
            }
            Action::Sleep { .. } => script.on_wake(),
            _ => panic!("no such message"),
        }
    }
}

#[test]
fn messages_go_over_the_preferred_interface() {
    let message = JetsonToMcu::Fps { fps: 30 };
    assert_eq!(
        FD.send(McuPayload::ToMain(message)),
        Ok(Action::Send { over: Interface::CanFd, payload: message })
    );
    assert_eq!(
        TP.send(McuPayload::ToMain(message)),
        Ok(Action::Send { over: Interface::IsoTp, payload: message })
    );
}

#[test]
fn other_messages_are_not_sent() {
    let security = || McuPayload::Security { text: "ToSec(Ping)".to_string() };
    assert_eq!(FD.send(security()), Err(NotToMain(security())));
    assert_eq!(
        FD.send(security()).unwrap_err().message(),
        "Message not targeted to security board: ToSec(Ping)"
    );
    let other = || McuPayload::FromMain {
        message: McuToJetson::Other,
        text: "Gnss(Gnss { fix: 1 })".to_string(),
    };
    assert_eq!(TP.send(other()), Err(NotToMain(other())));
    assert_eq!(
        TP.send(other()).unwrap_err().message(),
        "Message not targeted to security board: FromMain(Gnss(Gnss { fix: 1 }))"
    );
}

#[test]
fn interfaces_are_opened_in_order() {
    let builder = MainBoard::builder();
    assert_eq!(builder.interface(), Some(CanInterface::Raw { device: Device::Main }));
    assert_eq!(builder.on_open(false), Err(BuildError::Raw));
    let builder = builder.on_open(true).unwrap();
    assert_eq!(
        builder.interface(),
        Some(CanInterface::IsoTp {
            source: IsoTpNodeIdentifier::JetsonApp7,
            destination: IsoTpNodeIdentifier::MainMcu,
        })
    );
    assert_eq!(builder.on_open(false), Err(BuildError::IsoTp));
    let builder = builder.on_open(true).unwrap();
    assert_eq!(builder, MainBoardBuilder::Ready);
    assert_eq!(builder.interface(), None);
    assert_eq!(builder.build(true), FD);
    assert_eq!(builder.build(false), TP);
    assert_eq!(BuildError::Raw.message(), "Failed to create CanRawMessaging for MainBoard");
    assert_eq!(BuildError::IsoTp.message(), "Failed to create CanIsoTpMessaging for MainBoard");
}

#[test]
fn gimbal_goes_home() {
    for (opts, homing_mode) in [
        (GimbalHomeOpts::Autohome, HomingMode::OneBlockingEnd),
        (GimbalHomeOpts::ShortestPath, HomingMode::WithKnownCoordinates),
    ] {
        assert_eq!(
            actions(FD.gimbal_auto_home(opts)),
            vec![over_fd(JetsonToMcu::DoHoming { homing_mode, angle: HomingAngle::Both })]
        );
    }
    let home = || TP.gimbal_auto_home(GimbalHomeOpts::Autohome);
    assert_eq!(failure(home(), 0, refused()), "Gimbal auto home failed: ack error: failure");
    assert_eq!(failure(home(), 0, lost()), "timeout");
}

#[test]
fn gimbal_moves() {
    assert_eq!(
        actions(FD.gimbal_set_position(45_000, 90_000)),
        vec![over_fd(JetsonToMcu::MirrorAngle {
            horizontal_angle: 0,
            vertical_angle: 0,
            angle_type: MirrorAngleType::PhiTheta,
            phi_angle_millidegrees: 45_000,
            theta_angle_millidegrees: 90_000,
        })]
    );
    assert_eq!(
        actions(FD.gimbal_move(-5, 7)),
        vec![over_fd(JetsonToMcu::MirrorAngleRelative {
            horizontal_angle: 0,
            vertical_angle: 0,
            angle_type: MirrorAngleType::PhiTheta,
            phi_angle_millidegrees: -5,
            theta_angle_millidegrees: 7,
        })]
    );
    assert_eq!(
        failure(FD.gimbal_set_position(1, 2), 0, refused()),
        "Gimbal set position failed: ack error: failure"
    );
    assert_eq!(
        failure(FD.gimbal_move(1, 2), 0, refused()),
        "Gimbal move position failed: ack error: failure"
    );
    assert_eq!(failure(FD.gimbal_move(1, 2), 0, lost()), "timeout");
}

#[test]
fn camera_is_triggered_last() {
    for (cam, trigger) in [
        (Camera::Eye, JetsonToMcu::StartTriggeringIrEyeCamera),
        (Camera::Face, JetsonToMcu::StartTriggeringIrFaceCamera),
    ] {
        assert_eq!(
            actions(FD.trigger_camera(cam, 30)),
            vec![
                over_fd(JetsonToMcu::Fps { fps: 30 }),
                over_fd(JetsonToMcu::LedOnTime { on_duration_us: 300 }),
                over_fd(JetsonToMcu::InfraredLeds { wavelength: Wavelength::Wavelength850nm }),
                over_fd(trigger),
            ]
        );
    }
}

#[test]
fn camera_fails_with_the_first_refusal() {
    let eye = || TP.trigger_camera(Camera::Eye, 30);
    assert_eq!(failure(eye(), 0, refused()), "Error setting FPS: ack: Fail");
    assert_eq!(failure(eye(), 0, lost()), "Error setting FPS: timeout");
    assert_eq!(failure(eye(), 1, refused()), "Error setting on-duration: ack: Fail");
    assert_eq!(failure(eye(), 1, lost()), "Error setting on-duration: timeout");
    assert_eq!(failure(eye(), 2, refused()), "Error enabling infrared leds: ack: Fail");
    assert_eq!(failure(eye(), 2, lost()), "Error enabling infrared leds: timeout");
    assert_eq!(failure(eye(), 3, refused()), "Error enabling eye camera trigger: ack Fail");
    assert_eq!(failure(eye(), 3, lost()), "Error enabling eye camera trigger: timeout");
    let face = || TP.trigger_camera(Camera::Face, 30);
    assert_eq!(failure(face(), 3, refused()), "Error enabling face camera trigger: ack Fail");
    assert_eq!(failure(face(), 3, lost()), "Error enabling eye camera trigger: timeout");
}

#[test]
fn no_step_follows_a_failure() {
    let mut script = FD.trigger_camera(Camera::Eye, 30);
    script.on_reply(Ok(CommonAckError::Success)).unwrap();
    assert_eq!(
        script.on_reply(refused()),
        Err(Failure {
            task: Task::OnDuration,
            cause: Cause::Refused {
                code: 4,
                debug: "Fail".to_string(),
                display: "failure".to_string(),
            },
        })
    );
    assert_eq!(script.action(), Action::Finished);
    let mut script = FD.trigger_camera(Camera::Eye, 30);
    assert_eq!(
        script.on_reply(lost()),
        Err(Failure { task: Task::Fps, cause: Cause::NotSent("timeout".to_string()) })
    );
    assert_eq!(script.action(), Action::Finished);
}

#[test]
fn polarizer_moves() {
    for (opts, command, angle_decidegrees) in [
        (PolarizerOpts::Home, PolarizerCommand::PolarizerHome, 0),
        (PolarizerOpts::Passthrough, PolarizerCommand::PolarizerPassThrough, 0),
        (PolarizerOpts::Horizontal, PolarizerCommand::Polarizer0Horizontal, 0),
        (PolarizerOpts::Vertical, PolarizerCommand::Polarizer90Vertical, 0),
        (PolarizerOpts::Angle { angle: 1234 }, PolarizerCommand::PolarizerCustomAngle, 1234),
    ] {
        assert_eq!(
            actions(FD.polarizer(opts)),
            vec![over_fd(JetsonToMcu::Polarizer { command, angle_decidegrees, speed: 0 })]
        );
        assert_eq!(
            failure(FD.polarizer(opts), 0, refused()),
            format!("Error for command {opts:?}: ack Fail")
        );
        assert_eq!(
            failure(FD.polarizer(opts), 0, lost()),
            format!("Error for command {opts:?}: timeout")
        );
    }
}

fn ring(pattern: UserRgbLedPattern) -> JetsonToMcu {
    JetsonToMcu::UserLedsPattern {
        pattern,
        custom_color: None,
        start_angle: 0,
        angle_length: 360,
        pulsing_scale_milli: 0,
        pulsing_period_ms: 0,
    }
}

#[test]
fn colored_leds_go_on_and_off() {
    for (leds, pattern) in [
        (Leds::Red, UserRgbLedPattern::AllRed),
        (Leds::Green, UserRgbLedPattern::AllGreen),
        (Leds::Blue, UserRgbLedPattern::AllBlue),
        (Leds::White, UserRgbLedPattern::AllWhite),
    ] {
        assert_eq!(leds.rgb_pattern(), Ok(pattern));
        assert_eq!(
            actions(FD.front_leds(leds)),
            vec![
                over_fd(ring(pattern)),
                Action::Sleep { ms: 3000 },
                over_fd(ring(UserRgbLedPattern::Off)),
            ]
        );
        let script = || FD.front_leds(leds);
        assert_eq!(failure(script(), 0, refused()), "Error enabling green LEDs: ack Fail");
        assert_eq!(failure(script(), 0, lost()), "Error enabling green LEDs: timeout");
        assert_eq!(failure(script(), 1, refused()), "Error disabling RGB LEDs: ack Fail");
        assert_eq!(failure(script(), 1, lost()), "Error disabling RGB LEDs: timeout");
    }
}

#[test]
fn booster_leds_go_on_and_off() {
    assert_eq!(Leds::Booster.rgb_pattern(), Err(InvalidLeds));
    assert_eq!(InvalidLeds.message(), "Invalid LEDs");
    assert_eq!(
        actions(FD.front_leds(Leds::Booster)),
        vec![
            over_fd(JetsonToMcu::WhiteLedsBrightness { brightness: 50 }),
            Action::Sleep { ms: 3000 },
            over_fd(JetsonToMcu::WhiteLedsBrightness { brightness: 0 }),
        ]
    );
    let script = || FD.front_leds(Leds::Booster);
    assert_eq!(failure(script(), 0, refused()), "Error enabling booster LEDs: ack Fail");
    assert_eq!(failure(script(), 0, lost()), "Error enabling booster LEDs: timeout");
    assert_eq!(failure(script(), 1, refused()), "Error disabling booster LEDs: ack Fail");
    assert_eq!(failure(script(), 1, lost()), "Error disabling booster LEDs: timeout");
}

#[test]
fn power_is_cycled_over_iso_tp() {
    for board in [FD, TP] {
        assert_eq!(
            actions(board.wifi_power_cycle()),
            vec![Action::Send {
                over: Interface::IsoTp,
                payload: JetsonToMcu::PowerCycle { line: PowerLine::Wifi3v3, duration_ms: 0 },
            }]
        );
        assert_eq!(
            actions(board.heat_camera_power_cycle()),
            vec![Action::Send {
                over: Interface::IsoTp,
                payload: JetsonToMcu::PowerCycle {
                    line: PowerLine::HeatCamera2v8,
                    duration_ms: 0
                },
            }]
        );
    }
    assert_eq!(
        failure(FD.wifi_power_cycle(), 0, refused()),
        "error power cycling wifi: ack Fail"
    );
    assert_eq!(failure(FD.wifi_power_cycle(), 0, lost()), "error power cycling wifi: timeout");
    assert_eq!(
        failure(FD.heat_camera_power_cycle(), 0, refused()),
        "error power cycling heat camera (2v8): ack Fail"
    );
    assert_eq!(
        failure(FD.heat_camera_power_cycle(), 0, lost()),
        "error power cycling heat camera (2v8): timeout"
    );
}

#[test]
fn reboot_has_a_default_delay() {
    assert_eq!(actions(FD.reboot(None)), vec![over_fd(JetsonToMcu::Reboot { delay: 3 })]);
    assert_eq!(actions(FD.reboot(Some(0))), vec![over_fd(JetsonToMcu::Reboot { delay: 0 })]);
    assert_eq!(
        failure(FD.reboot(None), 0, refused()),
        "Error rebooting main microcontroller: ack error: Fail"
    );
    assert_eq!(
        failure(FD.reboot(None), 0, lost()),
        "Error rebooting main microcontroller: timeout"
    );
}

#[test]
fn numbers_in_decimal() {
    for i in [0, 7, 10, 109, i32::MAX, -1, -10, i32::MIN] {
        assert_eq!(signed_text(i), format!("{i}"));
    }
    assert_eq!(unsigned_text(u64::MAX), "18446744073709551615");
}
