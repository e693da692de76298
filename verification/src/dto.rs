//! Flat, string-tagged forms of the motor types, for the frontend.

use vstd::pervasive::arbitrary;
use vstd::prelude::*;
use vstd::std_specs::convert::FromSpecImpl;

use crate::bits::F32Bits;
use crate::device_registry::{classify, kind_in, registry, DeviceKind};
use crate::motor::{
    device_name, friendly_name, is_visible, motor_error_kind_name, optional_text, Connection,
    LiveState, Logic, Measurements, MotorIdentity, MotorInfo, MotorLifecycle, MotorMode,
    MotorTarget, NmtState, ReinitReason,
};
use crate::text::upper2_text;

verus! {

/// A motor as the device list shows it.
#[derive(Debug, Clone)]
pub struct MotorInfoDto {
    pub node_id: u8,
    pub friendly_name: String,
    pub identity: Option<MotorIdentityDto>,
    pub lifecycle: MotorLifecycleDto,
    pub online: bool,
    pub logic: Option<LogicDto>,
    pub nmt_state: Option<NmtStateDto>,
    /// `true` iff mode and target commands will be accepted.
    pub is_ready: bool,
    /// `true` iff initialization is meaningful right now.
    pub can_initialize: bool,
    /// Peak torque (Nm), once read.
    pub peak_torque_nm: Option<F32Bits>,
    /// Host device kind by the `0x1018` identity: `"motor"` (default), `"imu"`.
    /// The frontend opens the matching panel.
    pub device_type: String,
}

/// The device kind of an identity; a motor until it is known.
pub open spec fn device_kind(identity: Option<MotorIdentity>) -> DeviceKind {
    match identity {
        Some(id) => kind_in(registry(), id.vendor_id, id.product_code),
        None => DeviceKind::Motor,
    }
}

impl MotorInfoDto {
    /// Everything but the name mirrors `m`.
    pub open spec fn mirrors(self, m: MotorInfo) -> bool {
        &&& self.node_id == m.node_id
        &&& (self.identity is Some) == (m.identity is Some)
        &&& m.identity matches Some(id) ==> self.identity->Some_0.mirrors(id)
        &&& self.lifecycle.mirrors(m.lifecycle)
        &&& self.online == m.online
        &&& mirrors_logic(self.logic, m.logic)
        &&& self.nmt_state == nmt_tag(m.nmt_state)
        &&& self.is_ready == m.ready()
        &&& self.can_initialize == m.initializable()
        &&& self.peak_torque_nm == m.peak_torque_nm
        &&& self.device_type@ == device_kind(m.identity).text()
    }

    /// The entry of a motor with this display name.
    pub fn with_name(m: &MotorInfo, friendly_name: String) -> (r: Self)
        ensures
            r.mirrors(*m),
            r.friendly_name == friendly_name,
    {
        let can_initialize: bool = match m.lifecycle {
            MotorLifecycle::Identified => true,
            MotorLifecycle::NeedsReinit { .. } => true,
            _ => false,
        };
        let kind: DeviceKind = match &m.identity {
            Some(id) => classify(id.vendor_id, id.product_code),
            None => DeviceKind::Motor,
        };
        MotorInfoDto {
            node_id: m.node_id,
            friendly_name,
            identity: match &m.identity {
                Some(id) => Some(MotorIdentityDto::from(id)),
                None => None,
            },
            lifecycle: MotorLifecycleDto::from(&m.lifecycle),
            online: m.online,
            logic: logic_dto(&m.logic),
            nmt_state: nmt_dto(m.nmt_state),
            is_ready: m.is_ready(),
            can_initialize,
            peak_torque_nm: m.peak_torque_nm,
            device_type: kind.as_str().to_string(),
        }
    }
}

impl FromSpecImpl<&MotorInfo> for MotorInfoDto {
    open spec fn obeys_from_spec() -> bool {
        false
    }

    open spec fn from_spec(m: &MotorInfo) -> Self {
        arbitrary()
    }
}

impl From<&MotorInfo> for MotorInfoDto {
    fn from(m: &MotorInfo) -> (r: Self)
        ensures
            r.mirrors(*m),
            m.identity is None ==> r.friendly_name@ == "Node 0x"@ + upper2_text(m.node_id),
            m.identity matches Some(id) ==> r.friendly_name@ == device_name(
                id.vendor_id,
                id.product_code,
                optional_text(id.product_name),
            ),
            m.identity matches Some(id) ==> (id.product_name matches Some(n) ==> n@.len() > 0
                && is_visible(n@[0]) && is_visible(n@.last()) ==> r.friendly_name@ == n@),
            m.identity matches Some(id) ==> (id.product_name matches Some(n) ==> n@.len() == 0
                ==> r.friendly_name@ == device_name(id.vendor_id, id.product_code, None)),
    {
        let name: String = friendly_name(m.node_id, &m.identity);
        MotorInfoDto::with_name(m, name)
    }
}

/// A node's identity.
#[derive(Debug, Clone)]
pub struct MotorIdentityDto {
    pub node_id: u8,
    pub vendor_id: u32,
    pub product_code: u32,
    pub revision_number: u32,
    pub serial_number: u32,
    pub product_name: Option<String>,
}

impl MotorIdentityDto {
    pub open spec fn mirrors(self, id: MotorIdentity) -> bool {
        &&& self.node_id == id.node_id
        &&& self.vendor_id == id.vendor_id
        &&& self.product_code == id.product_code
        &&& self.revision_number == id.revision_number
        &&& self.serial_number == id.serial_number
        &&& optional_text(self.product_name) == optional_text(id.product_name)
    }
}

impl FromSpecImpl<&MotorIdentity> for MotorIdentityDto {
    open spec fn obeys_from_spec() -> bool {
        false
    }

    open spec fn from_spec(id: &MotorIdentity) -> Self {
        arbitrary()
    }
}

impl From<&MotorIdentity> for MotorIdentityDto {
    fn from(id: &MotorIdentity) -> (r: Self)
        ensures
            r.mirrors(*id),
    {
        MotorIdentityDto {
            node_id: id.node_id,
            vendor_id: id.vendor_id,
            product_code: id.product_code,
            revision_number: id.revision_number,
            serial_number: id.serial_number,
            product_name: match &id.product_name {
                Some(name) => Some(name.clone()),
                None => None,
            },
        }
    }
}

/// How far a node has come.
#[derive(Debug, Clone)]
pub enum MotorLifecycleDto {
    Unknown,
    Identified,
    Initializing,
    Initialized,
    NeedsReinit { reason: String },
}

impl MotorLifecycleDto {
    pub open spec fn mirrors(self, l: MotorLifecycle) -> bool {
        match l {
            MotorLifecycle::Unknown => self is Unknown,
            MotorLifecycle::Identified => self is Identified,
            MotorLifecycle::Initializing => self is Initializing,
            MotorLifecycle::Initialized => self is Initialized,
            MotorLifecycle::NeedsReinit { reason: ReinitReason::LeftOperational } => {
                &&& self is NeedsReinit
                &&& self->reason@ == "LeftOperational"@
            },
        }
    }
}

impl FromSpecImpl<&MotorLifecycle> for MotorLifecycleDto {
    open spec fn obeys_from_spec() -> bool {
        false
    }

    open spec fn from_spec(l: &MotorLifecycle) -> Self {
        arbitrary()
    }
}

impl From<&MotorLifecycle> for MotorLifecycleDto {
    fn from(l: &MotorLifecycle) -> (r: Self)
        ensures
            r.mirrors(*l),
    {
        match *l {
            MotorLifecycle::Unknown => MotorLifecycleDto::Unknown,
            MotorLifecycle::Identified => MotorLifecycleDto::Identified,
            MotorLifecycle::Initializing => MotorLifecycleDto::Initializing,
            MotorLifecycle::Initialized => MotorLifecycleDto::Initialized,
            MotorLifecycle::NeedsReinit { reason } => MotorLifecycleDto::NeedsReinit {
                reason: match reason {
                    ReinitReason::LeftOperational => "LeftOperational".to_string(),
                },
            },
        }
    }
}

/// State of the control logic.
#[derive(Debug, Clone)]
pub enum LogicDto {
    Disabled,
    Enabled { mode: MotorModeDto },
    Error { kind: String, raw_code: u16 },
}

impl LogicDto {
    pub open spec fn mirrors(self, l: Logic) -> bool {
        match l {
            Logic::Disabled => self is Disabled,
            Logic::Enabled(m) => self == (LogicDto::Enabled { mode: mode_tag(m) }),
            Logic::Error { kind, raw_code } => {
                &&& self is Error
                &&& self->kind@ == kind.text()
                &&& self->raw_code == raw_code
            },
        }
    }
}

/// The logic state where there is one.
pub open spec fn mirrors_logic(dto: Option<LogicDto>, logic: Option<Logic>) -> bool {
    &&& (dto is Some) == (logic is Some)
    &&& logic matches Some(l) ==> dto->Some_0.mirrors(l)
}

impl FromSpecImpl<&Logic> for LogicDto {
    open spec fn obeys_from_spec() -> bool {
        false
    }

    open spec fn from_spec(l: &Logic) -> Self {
        arbitrary()
    }
}

impl From<&Logic> for LogicDto {
    fn from(l: &Logic) -> (r: Self)
        ensures
            r.mirrors(*l),
    {
        match *l {
            Logic::Disabled => LogicDto::Disabled,
            Logic::Enabled(m) => LogicDto::Enabled { mode: MotorModeDto::from(m) },
            Logic::Error { kind, raw_code } => LogicDto::Error {
                kind: motor_error_kind_name(kind).to_string(),
                raw_code,
            },
        }
    }
}

fn logic_dto(logic: &Option<Logic>) -> (r: Option<LogicDto>)
    ensures
        mirrors_logic(r, *logic),
{
    match logic {
        Some(l) => Some(LogicDto::from(l)),
        None => None,
    }
}

/// Modes as plain tags.
#[derive(Debug, Clone, Copy, PartialEq, Eq, Structural)]
pub enum MotorModeDto {
    ProfilePosition,
    ProfileVelocity,
    Torque,
    Mit,
}

/// The tag of a mode.
pub open spec fn mode_tag(m: MotorMode) -> MotorModeDto {
    match m {
        MotorMode::ProfilePosition => MotorModeDto::ProfilePosition,
        MotorMode::ProfileVelocity => MotorModeDto::ProfileVelocity,
        MotorMode::Torque => MotorModeDto::Torque,
        MotorMode::Mit => MotorModeDto::Mit,
    }
}

/// The mode of a tag.
pub open spec fn tagged_mode(m: MotorModeDto) -> MotorMode {
    match m {
        MotorModeDto::ProfilePosition => MotorMode::ProfilePosition,
        MotorModeDto::ProfileVelocity => MotorMode::ProfileVelocity,
        MotorModeDto::Torque => MotorMode::Torque,
        MotorModeDto::Mit => MotorMode::Mit,
    }
}

impl FromSpecImpl<MotorMode> for MotorModeDto {
    open spec fn obeys_from_spec() -> bool {
        true
    }

    open spec fn from_spec(m: MotorMode) -> Self {
        mode_tag(m)
    }
}

impl From<MotorMode> for MotorModeDto {
    fn from(m: MotorMode) -> Self {
        match m {
            MotorMode::ProfilePosition => MotorModeDto::ProfilePosition,
            MotorMode::ProfileVelocity => MotorModeDto::ProfileVelocity,
            MotorMode::Torque => MotorModeDto::Torque,
            MotorMode::Mit => MotorModeDto::Mit,
        }
    }
}

impl FromSpecImpl<MotorModeDto> for MotorMode {
    open spec fn obeys_from_spec() -> bool {
        true
    }

    open spec fn from_spec(m: MotorModeDto) -> Self {
        tagged_mode(m)
    }
}

impl From<MotorModeDto> for MotorMode {
    fn from(m: MotorModeDto) -> Self {
        match m {
            MotorModeDto::ProfilePosition => MotorMode::ProfilePosition,
            MotorModeDto::ProfileVelocity => MotorMode::ProfileVelocity,
            MotorModeDto::Torque => MotorMode::Torque,
            MotorModeDto::Mit => MotorMode::Mit,
        }
    }
}

/// A mode survives the way to the frontend and back, and so does a tag.
pub proof fn modes_round_trip(m: MotorMode, tag: MotorModeDto)
    ensures
        tagged_mode(mode_tag(m)) == m,
        mode_tag(tagged_mode(tag)) == tag,
{
}

/// A control target as the frontend sends it.
#[derive(Debug, Clone, Copy, PartialEq, Eq, Structural)]
pub enum MotorTargetDto {
    Disable,
    Position { rev: F32Bits },
    Velocity { rev_per_s: F32Bits },
    Torque { nm: F32Bits },
    Mit { pos: F32Bits, vel: F32Bits, tor: F32Bits, kp: F32Bits, kd: F32Bits },
}

/// The target that the frontend asked for.
pub open spec fn target_of(t: MotorTargetDto) -> MotorTarget {
    match t {
        MotorTargetDto::Disable => MotorTarget::Disable,
        MotorTargetDto::Position { rev } => MotorTarget::Position { rev },
        MotorTargetDto::Velocity { rev_per_s } => MotorTarget::Velocity { rev_per_s },
        MotorTargetDto::Torque { nm } => MotorTarget::Torque { nm },
        MotorTargetDto::Mit { pos, vel, tor, kp, kd } => MotorTarget::Mit {
            pos,
            vel,
            tor,
            kp,
            kd,
        },
    }
}

impl FromSpecImpl<MotorTargetDto> for MotorTarget {
    open spec fn obeys_from_spec() -> bool {
        true
    }

    open spec fn from_spec(t: MotorTargetDto) -> Self {
        target_of(t)
    }
}

impl From<MotorTargetDto> for MotorTarget {
    fn from(t: MotorTargetDto) -> Self {
        match t {
            MotorTargetDto::Disable => MotorTarget::Disable,
            MotorTargetDto::Position { rev } => MotorTarget::Position { rev },
            MotorTargetDto::Velocity { rev_per_s } => MotorTarget::Velocity { rev_per_s },
            MotorTargetDto::Torque { nm } => MotorTarget::Torque { nm },
            MotorTargetDto::Mit { pos, vel, tor, kp, kd } => MotorTarget::Mit {
                pos,
                vel,
                tor,
                kp,
                kd,
            },
        }
    }
}

/// NMT state as a plain tag.
#[derive(Debug, Clone, Copy, PartialEq, Eq, Structural)]
pub enum NmtStateDto {
    BootUp,
    Stopped,
    Operational,
    PreOperational,
}

impl FromSpecImpl<NmtState> for NmtStateDto {
    open spec fn obeys_from_spec() -> bool {
        true
    }

    open spec fn from_spec(s: NmtState) -> Self {
        match s {
            NmtState::BootUp => NmtStateDto::BootUp,
            NmtState::Stopped => NmtStateDto::Stopped,
            NmtState::Operational => NmtStateDto::Operational,
            NmtState::PreOperational => NmtStateDto::PreOperational,
        }
    }
}

impl From<NmtState> for NmtStateDto {
    fn from(s: NmtState) -> Self {
        match s {
            NmtState::BootUp => NmtStateDto::BootUp,
            NmtState::Stopped => NmtStateDto::Stopped,
            NmtState::Operational => NmtStateDto::Operational,
            NmtState::PreOperational => NmtStateDto::PreOperational,
        }
    }
}

/// The tag of an NMT state, where one is known.
pub open spec fn nmt_tag(s: Option<NmtState>) -> Option<NmtStateDto> {
    match s {
        Some(NmtState::BootUp) => Some(NmtStateDto::BootUp),
        Some(NmtState::Stopped) => Some(NmtStateDto::Stopped),
        Some(NmtState::Operational) => Some(NmtStateDto::Operational),
        Some(NmtState::PreOperational) => Some(NmtStateDto::PreOperational),
        None => None,
    }
}

fn nmt_dto(s: Option<NmtState>) -> (r: Option<NmtStateDto>)
    ensures
        r == nmt_tag(s),
{
    match s {
        Some(n) => Some(NmtStateDto::from(n)),
        None => None,
    }
}

/// A motor's state of the moment.
#[derive(Debug, Clone)]
pub struct LiveStateDto {
    pub connection: ConnectionDto,
    pub logic: Option<LogicDto>,
    pub measurements: MeasurementsDto,
}

impl FromSpecImpl<&LiveState> for LiveStateDto {
    open spec fn obeys_from_spec() -> bool {
        false
    }

    open spec fn from_spec(s: &LiveState) -> Self {
        arbitrary()
    }
}

impl From<&LiveState> for LiveStateDto {
    fn from(s: &LiveState) -> (r: Self)
        ensures
            r.connection.mirrors(s.connection),
            mirrors_logic(r.logic, s.logic),
            r.measurements.mirrors(s.measurements),
    {
        LiveStateDto {
            connection: ConnectionDto::from(&s.connection),
            logic: logic_dto(&s.logic),
            measurements: MeasurementsDto::from(&s.measurements),
        }
    }
}

/// Liveness of a node; of arrivals only whether there ever was one.
#[derive(Debug, Clone, Copy, PartialEq, Eq, Structural)]
pub struct ConnectionDto {
    pub online: bool,
    pub nmt_state: Option<NmtStateDto>,
    pub has_heartbeat: bool,
    pub has_tpdo: bool,
}

impl ConnectionDto {
    pub open spec fn mirrors(self, c: Connection) -> bool {
        &&& self.online == c.online
        &&& self.nmt_state == nmt_tag(c.nmt_state)
        &&& self.has_heartbeat == (c.heartbeat_age_us is Some)
        &&& self.has_tpdo == (c.tpdo_age_us is Some)
    }
}

impl FromSpecImpl<&Connection> for ConnectionDto {
    open spec fn obeys_from_spec() -> bool {
        true
    }

    open spec fn from_spec(c: &Connection) -> Self {
        ConnectionDto {
            online: c.online,
            nmt_state: nmt_tag(c.nmt_state),
            has_heartbeat: c.heartbeat_age_us is Some,
            has_tpdo: c.tpdo_age_us is Some,
        }
    }
}

impl From<&Connection> for ConnectionDto {
    fn from(c: &Connection) -> Self {
        ConnectionDto {
            online: c.online,
            nmt_state: nmt_dto(c.nmt_state),
            has_heartbeat: c.heartbeat_age_us.is_some(),
            has_tpdo: c.tpdo_age_us.is_some(),
        }
    }
}

/// Decoded feedback.
#[derive(Debug, Clone, Copy, PartialEq, Eq, Structural)]
pub struct MeasurementsDto {
    pub position_rev: Option<F32Bits>,
    pub velocity_rev_per_s: Option<F32Bits>,
    pub torque_nm: Option<F32Bits>,
    pub driver_temp_c: Option<F32Bits>,
    pub motor_temp_c: Option<F32Bits>,
    pub status_word: Option<u16>,
    pub mode_display: Option<u8>,
    pub error_register: Option<u8>,
    /// The motor's `0x1013` clock in microseconds (wraps).
    pub timestamp_us: Option<u32>,
}

impl MeasurementsDto {
    pub open spec fn mirrors(self, m: Measurements) -> bool {
        &&& self.position_rev == m.position_rev
        &&& self.velocity_rev_per_s == m.velocity_rev_per_s
        &&& self.torque_nm == m.torque_nm
        &&& self.driver_temp_c == m.driver_temp_c
        &&& self.motor_temp_c == m.motor_temp_c
        &&& self.status_word == m.status_word
        &&& self.mode_display == m.mode_display
        &&& self.error_register == m.error_register
        &&& self.timestamp_us == m.timestamp_us
    }
}

impl Default for MeasurementsDto {
    fn default() -> (r: Self)
        ensures
            r == (MeasurementsDto {
                position_rev: None,
                velocity_rev_per_s: None,
                torque_nm: None,
                driver_temp_c: None,
                motor_temp_c: None,
                status_word: None,
                mode_display: None,
                error_register: None,
                timestamp_us: None,
            }),
    {
        MeasurementsDto {
            position_rev: None,
            velocity_rev_per_s: None,
            torque_nm: None,
            driver_temp_c: None,
            motor_temp_c: None,
            status_word: None,
            mode_display: None,
            error_register: None,
            timestamp_us: None,
        }
    }
}

impl FromSpecImpl<&Measurements> for MeasurementsDto {
    open spec fn obeys_from_spec() -> bool {
        true
    }

    open spec fn from_spec(m: &Measurements) -> Self {
        MeasurementsDto {
            position_rev: m.position_rev,
            velocity_rev_per_s: m.velocity_rev_per_s,
            torque_nm: m.torque_nm,
            driver_temp_c: m.driver_temp_c,
            motor_temp_c: m.motor_temp_c,
            status_word: m.status_word,
            mode_display: m.mode_display,
            error_register: m.error_register,
            timestamp_us: m.timestamp_us,
        }
    }
}

impl From<&Measurements> for MeasurementsDto {
    fn from(m: &Measurements) -> Self {
        MeasurementsDto {
            position_rev: m.position_rev,
            velocity_rev_per_s: m.velocity_rev_per_s,
            torque_nm: m.torque_nm,
            driver_temp_c: m.driver_temp_c,
            motor_temp_c: m.motor_temp_c,
            status_word: m.status_word,
            mode_display: m.mode_display,
            error_register: m.error_register,
            timestamp_us: m.timestamp_us,
        }
    }
}

/// A motor never takes commands and asks for initialization at once; an offline
/// motor takes none.
pub proof fn ready_excludes_initialize(dto: MotorInfoDto, m: MotorInfo)
    requires
        dto.mirrors(m),
    ensures
        !(dto.is_ready && dto.can_initialize),
        dto.is_ready ==> dto.online && dto.lifecycle is Initialized,
{
}

/// The panel follows from vendor and product alone: two entries with the same
/// identity numbers open the same panel, and an entry without identity opens the
/// motor panel.
pub proof fn panel_follows_identity(a: MotorInfoDto, m: MotorInfo, b: MotorInfoDto, n: MotorInfo)
    requires
        a.mirrors(m),
        b.mirrors(n),
    ensures
        m.identity matches Some(x) ==> (n.identity matches Some(y) ==> x.vendor_id == y.vendor_id
            && x.product_code == y.product_code ==> a.device_type@ == b.device_type@),
        m.identity is None ==> a.device_type@ == "motor"@,
{
}

/// What an entry shows of a motor, field by field.
pub proof fn entry_shows_the_motor(dto: MotorInfoDto, m: MotorInfo)
    requires
        dto.mirrors(m),
    ensures
        dto.node_id == m.node_id,
        dto.online == m.online,
        dto.peak_torque_nm == m.peak_torque_nm,
        dto.is_ready <==> m.online && m.lifecycle is Initialized,
        dto.can_initialize <==> m.lifecycle is Identified || m.lifecycle is NeedsReinit,
        dto.identity is Some <==> m.identity is Some,
        dto.logic is Some <==> m.logic is Some,
        dto.nmt_state is Some <==> m.nmt_state is Some,
        m.identity matches Some(id) ==> ({
            let shown = dto.identity->Some_0;
            &&& shown.node_id == id.node_id
            &&& shown.vendor_id == id.vendor_id
            &&& shown.product_code == id.product_code
            &&& shown.revision_number == id.revision_number
            &&& shown.serial_number == id.serial_number
            &&& shown.product_name is Some <==> id.product_name is Some
            &&& id.product_name matches Some(n) ==> shown.product_name->Some_0@ == n@
        }),
        m.lifecycle is NeedsReinit <==> dto.lifecycle is NeedsReinit,
        m.lifecycle is Initialized <==> dto.lifecycle is Initialized,
        m.lifecycle is Initializing <==> dto.lifecycle is Initializing,
        m.lifecycle is Identified <==> dto.lifecycle is Identified,
        m.lifecycle is Unknown <==> dto.lifecycle is Unknown,
        dto.lifecycle matches MotorLifecycleDto::NeedsReinit { reason } ==> reason@
            == "LeftOperational"@,
        dto.device_type@ == (if m.identity is Some && m.identity->Some_0.vendor_id == 0x6865_786D
            && m.identity->Some_0.product_code == 0x0049_4D55 {
            "imu"@
        } else {
            "motor"@
        }),
{
    reveal_with_fuel(kind_in, 2);
}

/// What is shown of the control logic: its state, an enabled motor's mode, and a fault's
/// category and raw code.
pub proof fn logic_is_shown(dto: LogicDto, l: Logic)
    requires
        dto.mirrors(l),
    ensures
        l is Disabled <==> dto is Disabled,
        l matches Logic::Enabled(m) ==> dto matches LogicDto::Enabled { mode } && tagged_mode(mode)
            == m,
        l matches Logic::Error { kind, raw_code } ==> dto matches LogicDto::Error {
            kind: name,
            raw_code: code,
        } && name@ == kind.text() && code == raw_code,
{
}

/// Different NMT states have different tags.
pub proof fn nmt_tags_differ(a: Option<NmtState>, b: Option<NmtState>)
    ensures
        nmt_tag(a) == nmt_tag(b) ==> a == b,
        nmt_tag(Some(NmtState::BootUp)) == Some(NmtStateDto::BootUp),
        nmt_tag(Some(NmtState::Stopped)) == Some(NmtStateDto::Stopped),
        nmt_tag(Some(NmtState::Operational)) == Some(NmtStateDto::Operational),
{
}

/// What is shown of a connection and of measurements: every value as it was read, and of
/// arrivals whether there ever was one.
pub proof fn readings_are_shown(
    c: ConnectionDto,
    connection: Connection,
    d: MeasurementsDto,
    measurements: Measurements,
)
    requires
        c.mirrors(connection),
        d.mirrors(measurements),
    ensures
        c.online == connection.online,
        c.has_heartbeat <==> connection.heartbeat_age_us is Some,
        c.has_tpdo <==> connection.tpdo_age_us is Some,
        d.position_rev == measurements.position_rev,
        d.velocity_rev_per_s == measurements.velocity_rev_per_s,
        d.torque_nm == measurements.torque_nm,
        d.driver_temp_c == measurements.driver_temp_c,
        d.motor_temp_c == measurements.motor_temp_c,
        d.status_word == measurements.status_word,
        d.mode_display == measurements.mode_display,
        d.error_register == measurements.error_register,
        d.timestamp_us == measurements.timestamp_us,
{
}

/// A target keeps its kind and every number in its place.
pub proof fn targets_keep_their_numbers(
    pos: F32Bits,
    vel: F32Bits,
    tor: F32Bits,
    kp: F32Bits,
    kd: F32Bits,
)
    ensures
        target_of(MotorTargetDto::Disable) == MotorTarget::Disable,
        target_of(MotorTargetDto::Position { rev: pos }) == (MotorTarget::Position { rev: pos }),
        target_of(MotorTargetDto::Velocity { rev_per_s: vel }) == (MotorTarget::Velocity {
            rev_per_s: vel,
        }),
        target_of(MotorTargetDto::Torque { nm: tor }) == (MotorTarget::Torque { nm: tor }),
        target_of(MotorTargetDto::Mit { pos, vel, tor, kp, kd }) == (MotorTarget::Mit {
            pos,
            vel,
            tor,
            kp,
            kd,
        }),
{
}

} // verus!
