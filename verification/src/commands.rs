//! The commands that the main board takes, each as a script of messages.

use crate::main_board::MainBoard;
use crate::message::{
    acked, HomingAngle, HomingMode, Interface, JetsonToMcu, MirrorAngleType, PolarizerCommand, PowerLine,
    Reply, UserRgbLedPattern, Wavelength,
};
use crate::script::{
    first_action, run, sends, Failure, PolarizerOpts, Script, Step, Task,
};
use vstd::prelude::*;

verus! {

/// The delay of a reboot where none is asked for, in seconds.
pub const REBOOT_DELAY: u32 = 3;

/// How long the front LEDs stay on, in milliseconds.
pub const LEDS_ON_MS: u64 = 3000;

/// How long the infrared LEDs are on per frame, in microseconds.
pub const LED_ON_DURATION_US: u32 = 300;

/// The brightness of the booster LEDs when they are on, in thousandths.
pub const BOOSTER_BRIGHTNESS: u32 = 50;

/// How the gimbal finds home.
#[derive(Debug, Clone, Copy, PartialEq, Eq, Structural)]
pub enum GimbalHomeOpts {
    Autohome,
    ShortestPath,
}

/// A camera that the microcontroller triggers.
#[derive(Debug, Clone, Copy, PartialEq, Eq, Structural)]
pub enum Camera {
    Eye,
    Face,
}

/// The front LEDs: the white booster LEDs, or the user LEDs in one color.
#[derive(Debug, Clone, Copy, PartialEq, Eq, Structural)]
pub enum Leds {
    Red,
    Green,
    Blue,
    White,
    Booster,
}

/// The LEDs have no color pattern.
#[derive(Debug, Clone, Copy, PartialEq, Eq, Structural)]
pub struct InvalidLeds;

impl InvalidLeds {
    /// The error in words.
    pub fn message(&self) -> (r: String)
        ensures
            r@ == "Invalid LEDs"@,
    {
        "Invalid LEDs".to_owned()
    }
}

impl Leds {
    /// The pattern that shows a color on the user LEDs. The booster LEDs have none.
    pub open spec fn pattern(self) -> Result<UserRgbLedPattern, InvalidLeds> {
        match self {
            Leds::Red => Ok(UserRgbLedPattern::AllRed),
            Leds::Green => Ok(UserRgbLedPattern::AllGreen),
            Leds::Blue => Ok(UserRgbLedPattern::AllBlue),
            Leds::White => Ok(UserRgbLedPattern::AllWhite),
            Leds::Booster => Err(InvalidLeds),
        }
    }

    /// The pattern that shows a color on the user LEDs.
    pub fn rgb_pattern(&self) -> (r: Result<UserRgbLedPattern, InvalidLeds>)
        ensures
            r == self.pattern(),
            r is Err <==> *self == Leds::Booster,
    {
        match self {
            Leds::Red => Ok(UserRgbLedPattern::AllRed),
            Leds::Green => Ok(UserRgbLedPattern::AllGreen),
            Leds::Blue => Ok(UserRgbLedPattern::AllBlue),
            Leds::White => Ok(UserRgbLedPattern::AllWhite),
            _ => Err(InvalidLeds),
        }
    }
}

/// A pattern on all of the user LEDs, without pulsing.
pub open spec fn full_ring(pattern: UserRgbLedPattern) -> JetsonToMcu {
    JetsonToMcu::UserLedsPattern {
        pattern,
        custom_color: None,
        start_angle: 0,
        angle_length: 360,
        pulsing_scale_milli: 0,
        pulsing_period_ms: 0,
    }
}

fn ring(pattern: UserRgbLedPattern) -> (r: JetsonToMcu)
    ensures
        r == full_ring(pattern),
{
    JetsonToMcu::UserLedsPattern {
        pattern,
        custom_color: None,
        start_angle: 0,
        angle_length: 360,
        pulsing_scale_milli: 0,
        pulsing_period_ms: 0,
    }
}

/// The message that switches the front LEDs on.
pub open spec fn leds_on(leds: Leds) -> JetsonToMcu {
    match leds.pattern() {
        Ok(pattern) => full_ring(pattern),
        Err(_) => JetsonToMcu::WhiteLedsBrightness { brightness: BOOSTER_BRIGHTNESS },
    }
}

/// The message that switches the front LEDs off.
pub open spec fn leds_off(leds: Leds) -> JetsonToMcu {
    match leds {
        Leds::Booster => JetsonToMcu::WhiteLedsBrightness { brightness: 0 },
        _ => full_ring(UserRgbLedPattern::Off),
    }
}

/// The message that moves the polarizer wheel. Only a custom angle has one.
pub open spec fn polarizer_message(opts: PolarizerOpts) -> JetsonToMcu {
    JetsonToMcu::Polarizer {
        command: match opts {
            PolarizerOpts::Home => PolarizerCommand::PolarizerHome,
            PolarizerOpts::Passthrough => PolarizerCommand::PolarizerPassThrough,
            PolarizerOpts::Horizontal => PolarizerCommand::Polarizer0Horizontal,
            PolarizerOpts::Vertical => PolarizerCommand::Polarizer90Vertical,
            PolarizerOpts::Angle { .. } => PolarizerCommand::PolarizerCustomAngle,
        },
        angle_decidegrees: match opts {
            PolarizerOpts::Angle { angle } => angle,
            _ => 0,
        },
        speed: 0,
    }
}

/// The steps that trigger a camera: the frame rate, the time that the LEDs are
/// on, the LEDs, and then the trigger itself.
pub open spec fn camera_steps(board: MainBoard, cam: Camera, fps: u32) -> Seq<Step> {
    seq![
        board.step(JetsonToMcu::Fps { fps }, Task::Fps),
        board.step(
            JetsonToMcu::LedOnTime { on_duration_us: LED_ON_DURATION_US },
            Task::OnDuration,
        ),
        board.step(
            JetsonToMcu::InfraredLeds { wavelength: Wavelength::Wavelength850nm },
            Task::InfraredLeds,
        ),
        match cam {
            Camera::Eye => board.step(JetsonToMcu::StartTriggeringIrEyeCamera, Task::EyeTrigger),
            Camera::Face => board.step(JetsonToMcu::StartTriggeringIrFaceCamera, Task::FaceTrigger),
        },
    ]
}

/// The steps that switch the front LEDs on, and off after a while.
pub open spec fn led_steps(board: MainBoard, leds: Leds) -> Seq<Step> {
    let (on, off) = match leds {
        Leds::Booster => (Task::BoosterLedsOn, Task::BoosterLedsOff),
        _ => (Task::RgbLedsOn, Task::RgbLedsOff),
    };
    seq![
        board.step(leds_on(leds), on),
        Step::Sleep { ms: LEDS_ON_MS },
        board.step(leds_off(leds), off),
    ]
}

impl MainBoard {
    /// A message over the preferred interface, as a step of a script.
    pub open spec fn step(self, payload: JetsonToMcu, task: Task) -> Step {
        Step::Send { over: self.preferred(), payload, task }
    }

    /// Moves the gimbal home.
    pub fn gimbal_auto_home(&self, home_opts: GimbalHomeOpts) -> (r: Script)
        ensures
            r@ == seq![
                self.step(
                    JetsonToMcu::DoHoming {
                        homing_mode: match home_opts {
                            GimbalHomeOpts::Autohome => HomingMode::OneBlockingEnd,
                            GimbalHomeOpts::ShortestPath => HomingMode::WithKnownCoordinates,
                        },
                        angle: HomingAngle::Both,
                    },
                    Task::GimbalHome,
                ),
            ],
    {
        let homing_mode = match home_opts {
            GimbalHomeOpts::Autohome => HomingMode::OneBlockingEnd,
            GimbalHomeOpts::ShortestPath => HomingMode::WithKnownCoordinates,
        };
        Script::one(
            self.interface(),
            JetsonToMcu::DoHoming { homing_mode, angle: HomingAngle::Both },
            Task::GimbalHome,
        )
    }

    /// Moves the gimbal to a position.
    pub fn gimbal_set_position(
        &self,
        phi_angle_millidegrees: u32,
        theta_angle_millidegrees: u32,
    ) -> (r: Script)
        ensures
            r@ == seq![
                self.step(
                    JetsonToMcu::MirrorAngle {
                        horizontal_angle: 0,
                        vertical_angle: 0,
                        angle_type: MirrorAngleType::PhiTheta,
                        phi_angle_millidegrees,
                        theta_angle_millidegrees,
                    },
                    Task::GimbalPosition,
                ),
            ],
    {
        Script::one(
            self.interface(),
            JetsonToMcu::MirrorAngle {
                horizontal_angle: 0,
                vertical_angle: 0,
                angle_type: MirrorAngleType::PhiTheta,
                phi_angle_millidegrees,
                theta_angle_millidegrees,
            },
            Task::GimbalPosition,
        )
    }

    /// Moves the gimbal from where it is.
    pub fn gimbal_move(
        &self,
        phi_angle_millidegrees: i32,
        theta_angle_millidegrees: i32,
    ) -> (r: Script)
        ensures
            r@ == seq![
                self.step(
                    JetsonToMcu::MirrorAngleRelative {
                        horizontal_angle: 0,
                        vertical_angle: 0,
                        angle_type: MirrorAngleType::PhiTheta,
                        phi_angle_millidegrees,
                        theta_angle_millidegrees,
                    },
                    Task::GimbalMove,
                ),
            ],
    {
        Script::one(
            self.interface(),
            JetsonToMcu::MirrorAngleRelative {
                horizontal_angle: 0,
                vertical_angle: 0,
                angle_type: MirrorAngleType::PhiTheta,
                phi_angle_millidegrees,
                theta_angle_millidegrees,
            },
            Task::GimbalMove,
        )
    }

    /// Starts to trigger a camera: the frame rate, the time that the LEDs are
    /// on, the LEDs and then the trigger itself.
    pub fn trigger_camera(&self, cam: Camera, fps: u32) -> (r: Script)
        ensures
            r@ == camera_steps(*self, cam, fps),
    {
        let over = self.interface();
        let trigger = match cam {
            Camera::Eye => Step::Send {
                over,
                payload: JetsonToMcu::StartTriggeringIrEyeCamera,
                task: Task::EyeTrigger,
            },
            Camera::Face => Step::Send {
                over,
                payload: JetsonToMcu::StartTriggeringIrFaceCamera,
                task: Task::FaceTrigger,
            },
        };
        let steps = vec![
            Step::Send { over, payload: JetsonToMcu::Fps { fps }, task: Task::Fps },
            Step::Send {
                over,
                payload: JetsonToMcu::LedOnTime { on_duration_us: LED_ON_DURATION_US },
                task: Task::OnDuration,
            },
            Step::Send {
                over,
                payload: JetsonToMcu::InfraredLeds { wavelength: Wavelength::Wavelength850nm },
                task: Task::InfraredLeds,
            },
            trigger,
        ];
        Script { steps }
    }

    /// Moves the polarizer wheel.
    pub fn polarizer(&self, opts: PolarizerOpts) -> (r: Script)
        ensures
            r@ == seq![self.step(polarizer_message(opts), Task::Polarizer(opts))],
    {
        let (command, angle): (PolarizerCommand, Option<u32>) = match opts {
            PolarizerOpts::Home => (PolarizerCommand::PolarizerHome, None),
            PolarizerOpts::Passthrough => (PolarizerCommand::PolarizerPassThrough, None),
            PolarizerOpts::Horizontal => (PolarizerCommand::Polarizer0Horizontal, None),
            PolarizerOpts::Vertical => (PolarizerCommand::Polarizer90Vertical, None),
            PolarizerOpts::Angle { angle } => (PolarizerCommand::PolarizerCustomAngle, Some(angle)),
        };
        Script::one(
            self.interface(),
            JetsonToMcu::Polarizer { command, angle_decidegrees: angle.unwrap_or(0), speed: 0 },
            Task::Polarizer(opts),
        )
    }

    /// Switches the front LEDs on, and off again after three seconds.
    pub fn front_leds(&self, leds: Leds) -> (r: Script)
        ensures
            r@ == led_steps(*self, leds),
    {
        let over = self.interface();
        let wait = Step::Sleep { ms: LEDS_ON_MS };
        let steps = match leds.rgb_pattern() {
            Ok(pattern) => vec![
                Step::Send { over, payload: ring(pattern), task: Task::RgbLedsOn },
                wait,
                Step::Send {
                    over,
                    payload: ring(UserRgbLedPattern::Off),
                    task: Task::RgbLedsOff,
                },
            ],
            Err(_) => vec![
                Step::Send {
                    over,
                    payload: JetsonToMcu::WhiteLedsBrightness { brightness: BOOSTER_BRIGHTNESS },
                    task: Task::BoosterLedsOn,
                },
                wait,
                Step::Send {
                    over,
                    payload: JetsonToMcu::WhiteLedsBrightness { brightness: 0 },
                    task: Task::BoosterLedsOff,
                },
            ],
        };
        Script { steps }
    }

    /// Cycles the power of the wifi, always over ISO-TP, for the default time.
    pub fn wifi_power_cycle(&self) -> (r: Script)
        ensures
            r@ == seq![
                Step::Send {
                    over: Interface::IsoTp,
                    payload: JetsonToMcu::PowerCycle { line: PowerLine::Wifi3v3, duration_ms: 0 },
                    task: Task::WifiPower,
                },
            ],
    {
        Script::one(
            Interface::IsoTp,
            JetsonToMcu::PowerCycle { line: PowerLine::Wifi3v3, duration_ms: 0 },
            Task::WifiPower,
        )
    }

    /// Cycles the power of the heat camera, always over ISO-TP, for the default time.
    pub fn heat_camera_power_cycle(&self) -> (r: Script)
        ensures
            r@ == seq![
                Step::Send {
                    over: Interface::IsoTp,
                    payload: JetsonToMcu::PowerCycle {
                        line: PowerLine::HeatCamera2v8,
                        duration_ms: 0,
                    },
                    task: Task::HeatCameraPower,
                },
            ],
    {
        Script::one(
            Interface::IsoTp,
            JetsonToMcu::PowerCycle { line: PowerLine::HeatCamera2v8, duration_ms: 0 },
            Task::HeatCameraPower,
        )
    }

    /// Reboots the microcontroller after a delay in seconds, by default three.
    pub fn reboot(&self, delay: Option<u32>) -> (r: Script)
        ensures
            r@ == seq![
                self.step(
                    JetsonToMcu::Reboot {
                        delay: match delay {
                            Some(seconds) => seconds,
                            None => REBOOT_DELAY,
                        },
                    },
                    Task::Reboot,
                ),
            ],
    {
        let delay: u32 = delay.unwrap_or(REBOOT_DELAY);
        Script::one(self.interface(), JetsonToMcu::Reboot { delay }, Task::Reboot)
    }
}

/// A camera is triggered only once the frame rate, the time that the LEDs are
/// on and the LEDs have each been acknowledged with success.
pub proof fn law_camera_is_triggered_only_after_its_setup(
    board: MainBoard,
    cam: Camera,
    fps: u32,
    replies: Seq<Reply>,
    rest: Seq<Step>,
)
    requires
        run(camera_steps(board, cam, fps), replies) == Ok::<Seq<Step>, Failure>(rest),
        first_action(rest) == board.sends(JetsonToMcu::StartTriggeringIrEyeCamera) || first_action(
            rest,
        ) == board.sends(JetsonToMcu::StartTriggeringIrFaceCamera),
    ensures
        replies.len() == 3,
        acked(replies[0]),
        acked(replies[1]),
        acked(replies[2]),
{
    reveal_with_fuel(run, 5);
    let steps = camera_steps(board, cam, fps);
    let rest1 = steps.drop_first();
    let rest2 = rest1.drop_first();
    let rest3 = rest2.drop_first();
    assert(rest1 =~= steps.skip(1));
    assert(rest2 =~= steps.skip(2));
    assert(rest3 =~= steps.skip(3));
    if replies.len() >= 1 {
        let left1 = replies.drop_first();
        if replies.len() >= 2 {
            let left2 = left1.drop_first();
            assert(left1[0] == replies[1]);
            if replies.len() >= 3 {
                assert(left2[0] == replies[2]);
            }
        }
    }
}

/// The front LEDs that are switched on are the ones that are switched off
/// again, after a wait of three seconds and with nothing in between.
pub proof fn law_leds_go_off_again(board: MainBoard, leds: Leds)
    ensures
        sends(led_steps(board, leds)).len() == 2,
        sends(led_steps(board, leds))[0]->payload == leds_on(leds),
        sends(led_steps(board, leds))[1]->payload == leds_off(leds),
        led_steps(board, leds)[1] == (Step::Sleep { ms: 3000 }),
        match leds_on(leds) {
            JetsonToMcu::WhiteLedsBrightness { brightness } => brightness > 0 && leds_off(leds) == (
            JetsonToMcu::WhiteLedsBrightness { brightness: 0 }),
            JetsonToMcu::UserLedsPattern { pattern, .. } => pattern != UserRgbLedPattern::Off
                && leds_off(leds) == full_ring(UserRgbLedPattern::Off),
            _ => false,
        },
{
    reveal_with_fuel(sends, 4);
}

/// Each command goes over the interface that was chosen for the board, but for
/// cycling power, which goes over ISO-TP on any board.
pub proof fn law_commands_go_over_the_chosen_interface(
    board: MainBoard,
    home_opts: GimbalHomeOpts,
    phi: u32,
    theta: u32,
    dphi: i32,
    dtheta: i32,
    cam: Camera,
    fps: u32,
    opts: PolarizerOpts,
    leds: Leds,
    delay: Option<u32>,
    chosen: Seq<Script>,
    fixed: Seq<Script>,
)
    requires
        chosen.len() == 7,
        call_ensures(MainBoard::gimbal_auto_home, (&board, home_opts), chosen[0]),
        call_ensures(MainBoard::gimbal_set_position, (&board, phi, theta), chosen[1]),
        call_ensures(MainBoard::gimbal_move, (&board, dphi, dtheta), chosen[2]),
        call_ensures(MainBoard::trigger_camera, (&board, cam, fps), chosen[3]),
        call_ensures(MainBoard::polarizer, (&board, opts), chosen[4]),
        call_ensures(MainBoard::front_leds, (&board, leds), chosen[5]),
        call_ensures(MainBoard::reboot, (&board, delay), chosen[6]),
        fixed.len() == 2,
        call_ensures(MainBoard::wifi_power_cycle, (&board,), fixed[0]),
        call_ensures(MainBoard::heat_camera_power_cycle, (&board,), fixed[1]),
    ensures
        forall|i: int, k: int|
            0 <= i < chosen.len() && 0 <= k < chosen[i]@.len() && (#[trigger] chosen[i]@[k]) is Send
                ==> (chosen[i]@[k]->over == Interface::CanFd <==> board.canfd),
        forall|i: int, k: int|
            0 <= i < fixed.len() && 0 <= k < fixed[i]@.len() ==> (#[trigger] fixed[i]@[k]) is Send
                && fixed[i]@[k]->over == Interface::IsoTp,
{
    assert forall|i: int, k: int|
        0 <= i < chosen.len() && 0 <= k < chosen[i]@.len() && (#[trigger] chosen[i]@[k])
             is Send implies (chosen[i]@[k]->over == Interface::CanFd <==> board.canfd) by {
        assert(i == 0 || i == 1 || i == 2 || i == 3 || i == 4 || i == 5 || i == 6);
    }
    assert forall|i: int, k: int| 0 <= i < fixed.len() && 0 <= k < fixed[i]@.len() implies (
    #[trigger] fixed[i]@[k]) is Send && fixed[i]@[k]->over == Interface::IsoTp by {
        assert(i == 0 || i == 1);
    }
}

/// The gimbal goes where it is told: one message holds the angles that were
/// given and no others, whether they are a position or a move.
pub proof fn law_gimbal_goes_where_it_is_told(
    board: MainBoard,
    phi: u32,
    theta: u32,
    position: Script,
    dphi: i32,
    dtheta: i32,
    moved: Script,
)
    requires
        call_ensures(MainBoard::gimbal_set_position, (&board, phi, theta), position),
        call_ensures(MainBoard::gimbal_move, (&board, dphi, dtheta), moved),
    ensures
        position@.len() == 1,
        position@[0] is Send,
        position@[0]->task == Task::GimbalPosition,
        position@[0]->payload matches JetsonToMcu::MirrorAngle {
            horizontal_angle,
            vertical_angle,
            phi_angle_millidegrees,
            theta_angle_millidegrees,
            ..
        } && phi_angle_millidegrees == phi && theta_angle_millidegrees == theta && horizontal_angle
            == 0 && vertical_angle == 0,
        moved@.len() == 1,
        moved@[0] is Send,
        moved@[0]->task == Task::GimbalMove,
        moved@[0]->payload matches JetsonToMcu::MirrorAngleRelative {
            horizontal_angle,
            vertical_angle,
            phi_angle_millidegrees,
            theta_angle_millidegrees,
            ..
        } && phi_angle_millidegrees == dphi && theta_angle_millidegrees == dtheta
            && horizontal_angle == 0 && vertical_angle == 0,
{
}

/// The gimbal homes both of its axes, at a blocking end or, for the shortest
/// path, by the coordinates that are known.
pub proof fn law_gimbal_homes_as_asked(board: MainBoard, home_opts: GimbalHomeOpts, home: Script)
    requires
        call_ensures(MainBoard::gimbal_auto_home, (&board, home_opts), home),
    ensures
        home@.len() == 1,
        home@[0] is Send,
        home@[0]->task == Task::GimbalHome,
        home@[0]->payload matches JetsonToMcu::DoHoming { homing_mode, angle } && angle
            == HomingAngle::Both && (homing_mode == HomingMode::WithKnownCoordinates <==> home_opts
            == GimbalHomeOpts::ShortestPath),
{
}

/// A camera gets the frame rate that was asked for, whichever camera and
/// whatever rate; its LEDs are then on for 300 microseconds at 850 nanometres,
/// and the camera that is triggered is the one that was named.
pub proof fn law_camera_gets_the_frame_rate(board: MainBoard, cam: Camera, fps: u32, script: Script)
    requires
        call_ensures(MainBoard::trigger_camera, (&board, cam, fps), script),
    ensures
        script@.len() == 4,
        forall|k: int| 0 <= k < 4 ==> (#[trigger] script@[k]) is Send,
        script@[0]->payload matches JetsonToMcu::Fps { fps: set } && set == fps,
        script@[0]->task == Task::Fps,
        script@[1]->payload matches JetsonToMcu::LedOnTime { on_duration_us } && on_duration_us
            == 300,
        script@[1]->task == Task::OnDuration,
        script@[2]->payload matches JetsonToMcu::InfraredLeds { wavelength } && wavelength
            == Wavelength::Wavelength850nm,
        script@[2]->task == Task::InfraredLeds,
        script@[3]->payload is StartTriggeringIrEyeCamera <==> cam == Camera::Eye,
        script@[3]->payload is StartTriggeringIrFaceCamera <==> cam == Camera::Face,
        script@[3]->task == Task::EyeTrigger <==> cam == Camera::Eye,
        script@[3]->task == Task::FaceTrigger <==> cam == Camera::Face,
{
}

/// Two scripts for one camera are the same exactly if they set the same frame rate.
pub proof fn law_frame_rates_are_told_apart(
    board: MainBoard,
    cam: Camera,
    fps: u32,
    script: Script,
    other_fps: u32,
    other: Script,
)
    requires
        call_ensures(MainBoard::trigger_camera, (&board, cam, fps), script),
        call_ensures(MainBoard::trigger_camera, (&board, cam, other_fps), other),
    ensures
        script@ == other@ <==> fps == other_fps,
        script@.skip(1) == other@.skip(1),
{
    assert(script@[0]->payload == (JetsonToMcu::Fps { fps }));
    assert(other@[0]->payload == (JetsonToMcu::Fps { fps: other_fps }));
    assert(script@.skip(1) =~= other@.skip(1));
}

/// The polarizer wheel turns to the angle that was asked for; every other
/// position is a command of its own, without an angle. No speed is asked for.
pub proof fn law_polarizer_turns_to_the_angle(board: MainBoard, opts: PolarizerOpts, script: Script)
    requires
        call_ensures(MainBoard::polarizer, (&board, opts), script),
    ensures
        script@.len() == 1,
        script@[0] is Send,
        script@[0]->task == Task::Polarizer(opts),
        script@[0]->payload matches JetsonToMcu::Polarizer { command, angle_decidegrees, speed } && {
            &&& speed == 0
            &&& opts matches PolarizerOpts::Angle { angle } ==> angle_decidegrees == angle
            &&& !(opts is Angle) ==> angle_decidegrees == 0
            &&& command == PolarizerCommand::PolarizerCustomAngle <==> opts is Angle
            &&& command == PolarizerCommand::PolarizerHome <==> opts is Home
            &&& command == PolarizerCommand::PolarizerPassThrough <==> opts is Passthrough
            &&& command == PolarizerCommand::Polarizer0Horizontal <==> opts is Horizontal
            &&& command == PolarizerCommand::Polarizer90Vertical <==> opts is Vertical
        },
{
}

/// The front LEDs that were named are on for three seconds: the booster LEDs
/// at their brightness, or all of the user LEDs steadily in the color.
pub proof fn law_named_leds_are_on_for_three_seconds(board: MainBoard, leds: Leds, script: Script)
    requires
        call_ensures(MainBoard::front_leds, (&board, leds), script),
    ensures
        script@.len() == 3,
        script@[0] is Send,
        script@[1] == (Step::Sleep { ms: 3000 }),
        script@[2] is Send,
        leds == Leds::Booster ==> {
            &&& script@[0]->payload == (JetsonToMcu::WhiteLedsBrightness { brightness: 50 })
            &&& script@[0]->task == Task::BoosterLedsOn
            &&& script@[2]->payload == (JetsonToMcu::WhiteLedsBrightness { brightness: 0 })
            &&& script@[2]->task == Task::BoosterLedsOff
        },
        leds != Leds::Booster ==> {
            &&& script@[0]->task == Task::RgbLedsOn
            &&& script@[2]->task == Task::RgbLedsOff
            &&& script@[0]->payload matches JetsonToMcu::UserLedsPattern {
                pattern,
                custom_color,
                start_angle,
                angle_length,
                pulsing_scale_milli,
                pulsing_period_ms,
            } && {
                &&& pattern == UserRgbLedPattern::AllRed <==> leds == Leds::Red
                &&& pattern == UserRgbLedPattern::AllGreen <==> leds == Leds::Green
                &&& pattern == UserRgbLedPattern::AllBlue <==> leds == Leds::Blue
                &&& pattern == UserRgbLedPattern::AllWhite <==> leds == Leds::White
                &&& custom_color is None
                &&& start_angle == 0
                &&& angle_length == 360
                &&& pulsing_scale_milli == 0
                &&& pulsing_period_ms == 0
                &&& script@[2]->payload == (JetsonToMcu::UserLedsPattern {
                    pattern: UserRgbLedPattern::Off,
                    custom_color,
                    start_angle,
                    angle_length,
                    pulsing_scale_milli,
                    pulsing_period_ms,
                })
            }
        },
{
}

/// Power is cycled on the line that was named, for the default time.
pub proof fn law_power_is_cycled_on_its_line(board: MainBoard, wifi: Script, heat_camera: Script)
    requires
        call_ensures(MainBoard::wifi_power_cycle, (&board,), wifi),
        call_ensures(MainBoard::heat_camera_power_cycle, (&board,), heat_camera),
    ensures
        wifi@.len() == 1,
        wifi@[0]->task == Task::WifiPower,
        wifi@[0]->payload matches JetsonToMcu::PowerCycle { line, duration_ms } && line
            == PowerLine::Wifi3v3 && duration_ms == 0,
        heat_camera@.len() == 1,
        heat_camera@[0]->task == Task::HeatCameraPower,
        heat_camera@[0]->payload matches JetsonToMcu::PowerCycle { line, duration_ms } && line
            == PowerLine::HeatCamera2v8 && duration_ms == 0,
{
}

/// A reboot waits for as long as was asked for, and for three seconds where
/// nothing was.
pub proof fn law_reboot_waits_as_asked(
    board: MainBoard,
    seconds: u32,
    delayed: Script,
    by_default: Script,
)
    requires
        call_ensures(MainBoard::reboot, (&board, Some(seconds)), delayed),
        call_ensures(MainBoard::reboot, (&board, None::<u32>), by_default),
    ensures
        delayed@.len() == 1,
        delayed@[0] is Send,
        delayed@[0]->task == Task::Reboot,
        delayed@[0]->payload matches JetsonToMcu::Reboot { delay } && delay == seconds,
        delayed@ == by_default@ <==> seconds == 3,
{
    assert(delayed@[0]->payload == (JetsonToMcu::Reboot { delay: seconds }));
    assert(by_default@[0]->payload == (JetsonToMcu::Reboot { delay: 3 }));
}

} // verus!
