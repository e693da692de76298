//! What the panels need to know of a motor, as plain values.

use vstd::prelude::*;

use crate::bits::F32Bits;
use crate::text::upper2_text;

verus! {

/// NMT state from a node's last heartbeat.
#[derive(Debug, Clone, Copy, PartialEq, Eq, Structural)]
pub enum NmtState {
    BootUp,
    Stopped,
    Operational,
    PreOperational,
}

/// Control mode.
#[derive(Debug, Clone, Copy, PartialEq, Eq, Structural)]
pub enum MotorMode {
    ProfilePosition,
    ProfileVelocity,
    Torque,
    Mit,
}

/// Fault category.
#[derive(Debug, Clone, Copy, PartialEq, Eq, Structural)]
pub enum MotorErrorKind {
    OverCurrent,
    OverVoltage,
    UnderVoltage,
    DriverOverTemp,
    MotorOverTemp,
    HeartbeatLost,
    EncoderError,
    HallError,
    MotorStall,
    StartupDifficult,
    VelocityError,
    PositionError,
    Other,
}

impl MotorErrorKind {
    pub open spec fn text(self) -> Seq<char> {
        match self {
            MotorErrorKind::OverCurrent => "OverCurrent"@,
            MotorErrorKind::OverVoltage => "OverVoltage"@,
            MotorErrorKind::UnderVoltage => "UnderVoltage"@,
            MotorErrorKind::DriverOverTemp => "DriverOverTemp"@,
            MotorErrorKind::MotorOverTemp => "MotorOverTemp"@,
            MotorErrorKind::HeartbeatLost => "HeartbeatLost"@,
            MotorErrorKind::EncoderError => "EncoderError"@,
            MotorErrorKind::HallError => "HallError"@,
            MotorErrorKind::MotorStall => "MotorStall"@,
            MotorErrorKind::StartupDifficult => "StartupDifficult"@,
            MotorErrorKind::VelocityError => "VelocityError"@,
            MotorErrorKind::PositionError => "PositionError"@,
            MotorErrorKind::Other => "Other"@,
        }
    }
}

/// The name of a fault category.
pub fn motor_error_kind_name(k: MotorErrorKind) -> (s: &'static str)
    ensures
        s@ == k.text(),
{
    match k {
        MotorErrorKind::OverCurrent => "OverCurrent",
        MotorErrorKind::OverVoltage => "OverVoltage",
        MotorErrorKind::UnderVoltage => "UnderVoltage",
        MotorErrorKind::DriverOverTemp => "DriverOverTemp",
        MotorErrorKind::MotorOverTemp => "MotorOverTemp",
        MotorErrorKind::HeartbeatLost => "HeartbeatLost",
        MotorErrorKind::EncoderError => "EncoderError",
        MotorErrorKind::HallError => "HallError",
        MotorErrorKind::MotorStall => "MotorStall",
        MotorErrorKind::StartupDifficult => "StartupDifficult",
        MotorErrorKind::VelocityError => "VelocityError",
        MotorErrorKind::PositionError => "PositionError",
        MotorErrorKind::Other => "Other",
    }
}

/// Identity from objects `0x1018` and, where present, `0x1008`.
#[derive(Debug, Clone)]
pub struct MotorIdentity {
    pub node_id: u8,
    pub vendor_id: u32,
    pub product_code: u32,
    pub revision_number: u32,
    pub serial_number: u32,
    pub product_name: Option<String>,
}

/// Why a motor has to be initialized again.
#[derive(Debug, Clone, Copy, PartialEq, Eq, Structural)]
pub enum ReinitReason {
    /// Its heartbeat showed that it left Operational.
    LeftOperational,
}

/// How far a node has come.
#[derive(Debug, Clone, Copy, PartialEq, Eq, Structural)]
pub enum MotorLifecycle {
    Unknown,
    Identified,
    Initializing,
    Initialized,
    NeedsReinit { reason: ReinitReason },
}

/// State of the motor's control logic.
#[derive(Debug, Clone, Copy, PartialEq, Eq, Structural)]
pub enum Logic {
    Disabled,
    Enabled(MotorMode),
    Error { kind: MotorErrorKind, raw_code: u16 },
}

/// A discovered motor.
#[derive(Debug, Clone)]
pub struct MotorInfo {
    pub node_id: u8,
    pub identity: Option<MotorIdentity>,
    pub lifecycle: MotorLifecycle,
    pub online: bool,
    pub logic: Option<Logic>,
    pub nmt_state: Option<NmtState>,
    /// Peak torque in Nm, once read.
    pub peak_torque_nm: Option<F32Bits>,
}

/// Decoded feedback.
#[derive(Debug, Clone, Copy, PartialEq, Eq, Structural)]
pub struct Measurements {
    pub position_rev: Option<F32Bits>,
    pub velocity_rev_per_s: Option<F32Bits>,
    pub torque_nm: Option<F32Bits>,
    pub driver_temp_c: Option<F32Bits>,
    pub motor_temp_c: Option<F32Bits>,
    pub status_word: Option<u16>,
    pub mode_display: Option<u8>,
    pub error_register: Option<u8>,
    pub timestamp_us: Option<u32>,
}

/// Liveness of a node.
#[derive(Debug, Clone, Copy, PartialEq, Eq, Structural)]
pub struct Connection {
    /// Microseconds since the last heartbeat, if one ever came.
    pub heartbeat_age_us: Option<u64>,
    /// Microseconds since the last TPDO, if one ever came.
    pub tpdo_age_us: Option<u64>,
    pub online: bool,
    pub nmt_state: Option<NmtState>,
}

/// A motor's state of the moment.
#[derive(Debug, Clone, Copy, PartialEq, Eq, Structural)]
pub struct LiveState {
    pub connection: Connection,
    pub logic: Option<Logic>,
    pub measurements: Measurements,
}

/// A control target.
#[derive(Debug, Clone, Copy, PartialEq, Eq, Structural)]
pub enum MotorTarget {
    Disable,
    Position { rev: F32Bits },
    Velocity { rev_per_s: F32Bits },
    Torque { nm: F32Bits },
    Mit { pos: F32Bits, vel: F32Bits, tor: F32Bits, kp: F32Bits, kd: F32Bits },
}

impl MotorInfo {
    /// Control commands are accepted: initialized and online.
    pub open spec fn ready(self) -> bool {
        self.lifecycle is Initialized && self.online
    }

    /// Initialization is meaningful: identified, or fallen out of operation.
    pub open spec fn initializable(self) -> bool {
        self.lifecycle is Identified || self.lifecycle is NeedsReinit
    }

    pub fn is_ready(&self) -> (r: bool)
        ensures
            r == self.ready(),
    {
        match self.lifecycle {
            MotorLifecycle::Initialized => self.online,
            _ => false,
        }
    }
}

/// The characters of an optional string.
pub open spec fn optional_text(s: Option<String>) -> Option<Seq<char>> {
    match s {
        Some(t) => Some(t@),
        None => None,
    }
}

/// A visible ASCII character.
pub open spec fn is_visible(c: char) -> bool {
    '!' <= c && c <= '~'
}

/// The display name that `hex_motor` has for an identity: by its device table and
/// the name that the device gives itself.
pub uninterp spec fn device_name(
    vendor_id: u32,
    product_code: u32,
    product_name: Option<Seq<char>>,
) -> Seq<char>;

/// `hex_motor::cia402::MotorInfo::friendly_name`: for a known identity its device
/// name, which is the device's own name wherever that starts and ends with a
/// visible character, and that of a nameless device where it is empty; otherwise the
/// node number. It reads no other field of the motor. What the device table holds is
/// not said.
#[verifier::external_body]
pub(crate) fn friendly_name(node_id: u8, identity: &Option<MotorIdentity>) -> (s: String)
    ensures
        identity is None ==> s@ == "Node 0x"@ + upper2_text(node_id),
        *identity matches Some(id) ==> s@ == device_name(
            id.vendor_id,
            id.product_code,
            optional_text(id.product_name),
        ),
        *identity matches Some(id) ==> (id.product_name matches Some(n) ==> n@.len() > 0
            && is_visible(n@[0]) && is_visible(n@.last()) ==> s@ == n@),
        *identity matches Some(id) ==> (id.product_name matches Some(n) ==> n@.len() == 0 ==> s@
            == device_name(id.vendor_id, id.product_code, None)),
{
    let identity = match identity {
        Some(i) => Some(hex_motor::types::MotorIdentity {
            node_id: i.node_id,
            vendor_id: i.vendor_id,
            product_code: i.product_code,
            revision_number: i.revision_number,
            serial_number: i.serial_number,
            product_name: i.product_name.clone(),
        }),
        None => None,
    };
    let (can_config, lifecycle) = (Default::default(), hex_motor::cia402::MotorLifecycle::Unknown);
    hex_motor::cia402::MotorInfo { node_id, session_epoch: 0, identity, can_config, lifecycle,
        online: false, logic: None, nmt_state: None, peak_torque_nm: None }.friendly_name()
}

/// A motor takes commands exactly when it is initialized and online, and initialization
/// is meaningful exactly when it is identified or has fallen out of operation.
pub proof fn readiness(m: MotorInfo)
    ensures
        m.ready() <==> m.online && m.lifecycle == MotorLifecycle::Initialized,
        m.initializable() <==> m.lifecycle == MotorLifecycle::Identified || m.lifecycle
            is NeedsReinit,
{
}

/// The characters of an optional string are there exactly where the string is.
pub proof fn optional_text_is_the_text(s: Option<String>)
    ensures
        optional_text(s) is Some <==> s is Some,
        s matches Some(t) ==> optional_text(s) == Some(t@),
{
}

} // verus!
