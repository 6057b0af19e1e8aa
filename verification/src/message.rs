//! The messages between the host and the microcontrollers, and what comes back
//! from sending one.

use vstd::prelude::*;

verus! {

/// One of the two interfaces that lead to the main microcontroller.
#[derive(Debug, Clone, Copy, PartialEq, Eq, Structural)]
pub enum Interface {
    CanFd,
    IsoTp,
}

/// How the mirrors find their home position.
#[derive(Debug, Clone, Copy, PartialEq, Eq, Structural)]
pub enum HomingMode {
    OneBlockingEnd,
    WithKnownCoordinates,
}

/// Which mirror axes are homed.
#[derive(Debug, Clone, Copy, PartialEq, Eq, Structural)]
pub enum HomingAngle {
    Both,
}

/// The coordinates in which a mirror angle is given.
#[derive(Debug, Clone, Copy, PartialEq, Eq, Structural)]
pub enum MirrorAngleType {
    PhiTheta,
}

/// The wavelength of the infrared LEDs.
#[derive(Debug, Clone, Copy, PartialEq, Eq, Structural)]
pub enum Wavelength {
    Wavelength850nm,
}

/// What the polarizer wheel is asked to do.
#[derive(Debug, Clone, Copy, PartialEq, Eq, Structural)]
pub enum PolarizerCommand {
    PolarizerHome,
    PolarizerPassThrough,
    Polarizer0Horizontal,
    Polarizer90Vertical,
    PolarizerCustomAngle,
}

/// The pattern shown on the user LEDs.
#[derive(Debug, Clone, Copy, PartialEq, Eq, Structural)]
pub enum UserRgbLedPattern {
    Off,
    AllRed,
    AllGreen,
    AllBlue,
    AllWhite,
}

/// A color given by its parts.
#[derive(Debug, Clone, Copy, PartialEq, Eq, Structural)]
pub struct RgbColor {
    pub red: u32,
    pub green: u32,
    pub blue: u32,
}

/// A power line that can be cycled.
#[derive(Debug, Clone, Copy, PartialEq, Eq, Structural)]
pub enum PowerLine {
    Wifi3v3,
    HeatCamera2v8,
}

/// A value that the microcontroller reports on request.
#[derive(Debug, Clone, Copy, PartialEq, Eq, Structural)]
pub enum RequestedValue {
    FirmwareVersions,
    HardwareVersions,
}

/// A message to the main microcontroller.
#[allow(inconsistent_fields)]
#[derive(Debug, Clone, Copy, PartialEq, Eq, Structural)]
pub enum JetsonToMcu {
    DoHoming { homing_mode: HomingMode, angle: HomingAngle },
    MirrorAngle {
        horizontal_angle: u32,
        vertical_angle: i32,
        angle_type: MirrorAngleType,
        phi_angle_millidegrees: u32,
        theta_angle_millidegrees: u32,
    },
    MirrorAngleRelative {
        horizontal_angle: i32,
        vertical_angle: i32,
        angle_type: MirrorAngleType,
        phi_angle_millidegrees: i32,
        theta_angle_millidegrees: i32,
    },
    Fps { fps: u32 },
    LedOnTime { on_duration_us: u32 },
    InfraredLeds { wavelength: Wavelength },
    StartTriggeringIrEyeCamera,
    StartTriggeringIrFaceCamera,
    Polarizer { command: PolarizerCommand, angle_decidegrees: u32, speed: u32 },
    /// The brightness is in thousandths.
    WhiteLedsBrightness { brightness: u32 },
    UserLedsPattern {
        pattern: UserRgbLedPattern,
        custom_color: Option<RgbColor>,
        start_angle: u32,
        angle_length: i32,
        /// In thousandths.
        pulsing_scale_milli: u32,
        pulsing_period_ms: u32,
    },
    PowerCycle { line: PowerLine, duration_ms: u32 },
    Reboot { delay: u32 },
    ValueGet { value: RequestedValue },
    SyncDiagData { interval: u32 },
    /// One block of a firmware image, by its place among the image's blocks.
    FwBlock { index: usize },
    FwImageCheck { crc32: u32 },
    FwImageSecondaryActivate { force_permanent: bool },
}

/// The version of one firmware image.
#[derive(Debug, Clone, Copy, PartialEq, Eq, Structural)]
pub struct FirmwareVersion {
    pub major: u32,
    pub minor: u32,
    pub patch: u32,
    /// Zero, or not, tells the types of images (production, development) apart.
    pub commit_hash: u32,
}

/// The versions of the firmware images in the two slots.
#[derive(Debug, Clone, Copy, PartialEq, Eq)]
pub struct Versions {
    pub primary_app: Option<FirmwareVersion>,
    pub secondary_app: Option<FirmwareVersion>,
}

/// The hardware version of a board.
#[derive(Debug, Clone, Copy, PartialEq, Eq, Structural)]
pub struct Hardware {
    pub version: i32,
}

/// The state of one hardware component.
#[derive(Debug, PartialEq, Eq)]
pub struct HardwareState {
    pub source_name: String,
    pub status: i32,
    pub message: String,
}

/// The voltages of the four battery cells, in millivolts.
#[derive(Debug, Clone, Copy, PartialEq, Eq, Structural)]
pub struct BatteryVoltage {
    pub battery_cell1_mv: i32,
    pub battery_cell2_mv: i32,
    pub battery_cell3_mv: i32,
    pub battery_cell4_mv: i32,
}

/// A message from the main microcontroller.
#[derive(Debug, PartialEq, Eq)]
pub enum McuToJetson {
    Versions(Versions),
    Hardware(Hardware),
    BatteryCapacity { percentage: u32 },
    BatteryVoltage(BatteryVoltage),
    BatteryIsCharging { battery_is_charging: bool },
    HwState(HardwareState),
    Log { log: String },
    /// Any other message. Nothing is read of it.
    Other,
}

/// A message to or from one of the microcontrollers.
#[derive(Debug, PartialEq, Eq)]
pub enum McuPayload {
    ToMain(JetsonToMcu),
    /// What is read of a message, and its whole content in `Debug` form.
    FromMain { message: McuToJetson, text: String },
    /// A message to or from the security microcontroller, in `Debug` form.
    Security { text: String },
}

/// How a microcontroller acknowledges a message.
#[derive(Debug, PartialEq, Eq)]
pub enum CommonAckError {
    Success,
    /// Anything but success, by its code and in `Debug` and `Display` form.
    Refused { code: i32, debug: String, display: String },
}

/// What comes back from sending one message: an acknowledgement, or the text
/// of the error that kept the message from being sent or acknowledged.
pub type Reply = Result<CommonAckError, String>;

/// The message was acknowledged with success.
pub open spec fn acked(reply: Reply) -> bool {
    reply == Ok::<CommonAckError, String>(CommonAckError::Success)
}

/// Whether the message was acknowledged with success.
pub fn is_acked(reply: &Reply) -> (r: bool)
    ensures
        r == acked(*reply),
{
    match reply {
        Ok(CommonAckError::Success) => true,
        _ => false,
    }
}

/// Only an acknowledgement of success is success: no code, no text and no
/// error that comes back in its place counts as one.
pub proof fn law_only_success_is_success(reply: Reply, r: bool)
    requires
        call_ensures(is_acked, (&reply,), r),
    ensures
        r <==> (reply matches Ok(ack) && ack is Success),
        acked(reply) <==> !(reply is Err) && !(reply->Ok_0 is Refused),
{
}

} // verus!
