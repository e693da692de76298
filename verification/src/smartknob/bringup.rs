//! Bringing a motor up for torque streaming.

use vstd::prelude::*;

use crate::canopen::{
    build_rpdo_config_writes, total_bits, Mapping, ObjectWrite, PdoEntry, RpdoRecipe, SdoWrite,
};
use crate::text::{push_decimal, push_upper2, push_upper4, decimal_text, upper2_text, upper4_text};

verus! {

/// MIT control object.
pub const OD_MIT: u16 = 0x2003;

/// Position target (f32, rev).
pub const MIT_SUB_PDES: u8 = 0x01;

/// Velocity target (f32, rev/s).
pub const MIT_SUB_VDES: u8 = 0x02;

/// Torque feed-forward (f32, Nm); streamed.
pub const MIT_SUB_TFF: u8 = 0x03;

/// Position gain (u16).
pub const MIT_SUB_KP: u8 = 0x04;

/// Velocity gain (u16); streamed.
pub const MIT_SUB_KD: u8 = 0x05;

/// Torque limit, per mille of peak (u16); streamed.
pub const OD_MAX_TORQUE: u16 = 0x6072;

/// Bytes streamed each tick: torque (4), velocity gain (2), torque limit (2).
pub const FRAME_LEN: usize = 8;

/// Wait between two mapping writes.
pub const WRITE_PAUSE_MS: u64 = 10;

/// How many times to attempt motor init before giving up.
pub const INIT_ATTEMPTS: u8 = 3;

/// Wait after a failed attempt.
pub const RETRY_PAUSE_MS: u64 = 300;

/// RPDO1 identifier that the motor listens on.
pub fn rpdo_cob_id(nid: u8) -> (id: u16)
    ensures
        id == 0x200 + nid,
{
    0x200 + nid as u16
}

/// The entries of the torque-stream frame.
pub open spec fn stream_entries() -> Seq<PdoEntry> {
    seq![
        PdoEntry { index: OD_MIT, subindex: MIT_SUB_TFF, bit_len: 32 },
        PdoEntry { index: OD_MIT, subindex: MIT_SUB_KD, bit_len: 16 },
        PdoEntry { index: OD_MAX_TORQUE, subindex: 0, bit_len: 16 },
    ]
}

/// The mapped objects fill the streamed frame exactly.
pub proof fn stream_fills_the_frame()
    ensures
        total_bits(stream_entries()) == 8 * FRAME_LEN,
{
    let e = stream_entries();
    assert(e.drop_last() =~= seq![e[0], e[1]]);
    assert(e.drop_last().drop_last() =~= seq![e[0]]);
    assert(e.drop_last().drop_last().drop_last() =~= seq![]);
    reveal_with_fuel(total_bits, 5);
}

/// The mapping for torque streaming to node `nid`: RPDO1, applied on reception.
pub open spec fn stream_mapping(nid: u8) -> Mapping {
    Mapping {
        rpdo_index: 0,
        cob_id: (0x200 + nid) as u16,
        entries: stream_entries(),
        transmission_type: 255,
    }
}

/// The recipe of [`stream_mapping`].
pub fn stream_recipe(nid: u8) -> (r: RpdoRecipe)
    ensures
        r@ == stream_mapping(nid),
        r@.valid(),
{
    let entries: Vec<PdoEntry> = vec![
        PdoEntry { index: OD_MIT, subindex: MIT_SUB_TFF, bit_len: 32 },
        PdoEntry { index: OD_MIT, subindex: MIT_SUB_KD, bit_len: 16 },
        PdoEntry { index: OD_MAX_TORQUE, subindex: 0, bit_len: 16 },
    ];
    proof {
        assert(entries@ =~= stream_entries());
        stream_fills_the_frame();
    }
    RpdoRecipe { rpdo_index: 0, cob_id: rpdo_cob_id(nid), entries, transmission_type: 255 }
}

/// One step of bringing a motor up.
#[derive(Debug, Clone)]
pub enum InitStep {
    /// CiA402 initialization.
    Initialize,
    /// A write of the stream mapping.
    RpdoWrite(SdoWrite),
    Pause { ms: u64 },
    /// Zero a static MIT parameter.
    ZeroPdes(SdoWrite),
    ZeroVdes(SdoWrite),
    ZeroKp(SdoWrite),
    SetMaxTorque { permille: u16 },
    /// Switch to MIT mode, which enables the motor.
    SetMitMode,
}

/// A step as a mathematical value.
pub enum Step {
    Initialize,
    RpdoWrite(ObjectWrite),
    Pause { ms: u64 },
    ZeroPdes(ObjectWrite),
    ZeroVdes(ObjectWrite),
    ZeroKp(ObjectWrite),
    SetMaxTorque { permille: u16 },
    SetMitMode,
}

impl View for InitStep {
    type V = Step;

    open spec fn view(&self) -> Step {
        match *self {
            InitStep::Initialize => Step::Initialize,
            InitStep::RpdoWrite(w) => Step::RpdoWrite(w@),
            InitStep::Pause { ms } => Step::Pause { ms },
            InitStep::ZeroPdes(w) => Step::ZeroPdes(w@),
            InitStep::ZeroVdes(w) => Step::ZeroVdes(w@),
            InitStep::ZeroKp(w) => Step::ZeroKp(w@),
            InitStep::SetMaxTorque { permille } => Step::SetMaxTorque { permille },
            InitStep::SetMitMode => Step::SetMitMode,
        }
    }
}

impl InitStep {
    /// What a failure of the step is reported as.
    pub open spec fn label_text(self) -> Seq<char> {
        match self {
            InitStep::Initialize => "initialize"@,
            InitStep::RpdoWrite(w) => "rpdo write "@ + upper4_text(w.index) + ":"@ + decimal_text(
                w.subindex as nat,
            ),
            InitStep::Pause { .. } => "pause"@,
            InitStep::ZeroPdes(_) => "zero PDES"@,
            InitStep::ZeroVdes(_) => "zero VDES"@,
            InitStep::ZeroKp(_) => "zero KP"@,
            InitStep::SetMaxTorque { .. } => "set_max_torque"@,
            InitStep::SetMitMode => "set_mode MIT"@,
        }
    }

    pub fn label(&self) -> (s: String)
        ensures
            s@ == self.label_text(),
    {
        match self {
            InitStep::Initialize => "initialize".to_string(),
            InitStep::RpdoWrite(w) => {
                let mut s: String = "rpdo write ".to_string();
                push_upper4(&mut s, w.index);
                s.append(":");
                push_decimal(&mut s, w.subindex as u64);
                s
            },
            InitStep::Pause { .. } => "pause".to_string(),
            InitStep::ZeroPdes(_) => "zero PDES".to_string(),
            InitStep::ZeroVdes(_) => "zero VDES".to_string(),
            InitStep::ZeroKp(_) => "zero KP".to_string(),
            InitStep::SetMaxTorque { .. } => "set_max_torque".to_string(),
            InitStep::SetMitMode => "set_mode MIT".to_string(),
        }
    }
}

/// Each mapping write, with a pause after it.
pub open spec fn paced(writes: Seq<ObjectWrite>) -> Seq<Step>
    decreases writes.len(),
{
    if writes.len() == 0 {
        seq![]
    } else {
        paced(writes.drop_last()) + seq![
            Step::RpdoWrite(writes.last()),
            Step::Pause { ms: WRITE_PAUSE_MS },
        ]
    }
}

/// All steps for node `nid`: initialize, map the stream, zero the static MIT
/// parameters (only torque is streamed), limit the torque, enable in MIT mode.
pub open spec fn bringup(mapping: Mapping, max_torque: u16) -> Seq<Step> {
    seq![Step::Initialize] + paced(mapping.writes()) + seq![
        Step::ZeroPdes(
            ObjectWrite { index: OD_MIT, subindex: MIT_SUB_PDES, data: seq![0u8, 0u8, 0u8, 0u8] },
        ),
        Step::ZeroVdes(
            ObjectWrite { index: OD_MIT, subindex: MIT_SUB_VDES, data: seq![0u8, 0u8, 0u8, 0u8] },
        ),
        Step::ZeroKp(ObjectWrite { index: OD_MIT, subindex: MIT_SUB_KP, data: seq![0u8, 0u8] }),
        Step::SetMaxTorque { permille: max_torque },
        Step::SetMitMode,
    ]
}

/// The motor is enabled last, right after its torque was limited.
pub proof fn enabled_last(mapping: Mapping, max_torque: u16)
    ensures
        ({
            let steps = bringup(mapping, max_torque);
            &&& steps.last() == Step::SetMitMode
            &&& steps[steps.len() - 2] == (Step::SetMaxTorque { permille: max_torque })
            &&& forall|i: int| 0 <= i < steps.len() - 1 ==> #[trigger] steps[i] !is SetMitMode
        }),
{
    let writes = mapping.writes();
    paced_only_writes(writes);
}

/// Pacing adds writes and pauses only.
proof fn paced_only_writes(writes: Seq<ObjectWrite>)
    ensures
        forall|i: int|
            0 <= i < paced(writes).len() ==> (#[trigger] paced(writes)[i] is RpdoWrite || paced(
                writes,
            )[i] is Pause),
    decreases writes.len(),
{
    if writes.len() > 0 {
        paced_only_writes(writes.drop_last());
    }
}

/// The stream mapping was refused.
#[derive(Debug, Clone, Copy, PartialEq, Eq, Structural)]
pub struct RecipeError;

/// The steps of a bring-up with this mapping; fails exactly on mappings that
/// cannot be configured.
pub fn recipe_steps(recipe: &RpdoRecipe, max_torque: u16) -> (r: Result<
    Vec<InitStep>,
    RecipeError,
>)
    ensures
        r is Ok <==> recipe@.valid(),
        r matches Ok(steps) ==> steps@.map_values(|s: InitStep| s@) == bringup(recipe@, max_torque),
{
    let writes: Vec<SdoWrite> = match build_rpdo_config_writes(recipe) {
        Ok(w) => w,
        Err(_) => return Err(RecipeError),
    };
    let ghost all = writes@.map_values(|w: SdoWrite| w@);
    let mut steps: Vec<InitStep> = vec![InitStep::Initialize];
    proof {
        assert(steps@.map_values(|s: InitStep| s@) =~= seq![Step::Initialize] + paced(
            all.take(0),
        ));
    }
    let n: usize = writes.len();
    for i in 0..n
        invariant
            n == writes@.len(),
            all == writes@.map_values(|w: SdoWrite| w@),
            steps@.map_values(|s: InitStep| s@) == seq![Step::Initialize] + paced(
                all.take(i as int),
            ),
    {
        let w: &SdoWrite = &writes[i];
        let write: SdoWrite = SdoWrite {
            index: w.index,
            subindex: w.subindex,
            data: copy_bytes(&w.data),
        };
        proof {
            assert(write@ =~= all[i as int]);
            assert(all.take(i as int + 1).drop_last() =~= all.take(i as int));
        }
        let ghost before = steps@;
        steps.push(InitStep::RpdoWrite(write));
        steps.push(InitStep::Pause { ms: WRITE_PAUSE_MS });
        proof {
            assert(all.take(i as int + 1).last() == write@);
            assert(steps@.map_values(|s: InitStep| s@) =~= before.map_values(|s: InitStep| s@)
                + seq![Step::RpdoWrite(write@), Step::Pause { ms: WRITE_PAUSE_MS }]);
            assert(steps@.map_values(|s: InitStep| s@) =~= seq![Step::Initialize] + paced(
                all.take(i as int + 1),
            ));
        }
    }
    proof {
        assert(all.take(n as int) =~= all);
    }
    let pdes: SdoWrite = SdoWrite {
        index: OD_MIT,
        subindex: MIT_SUB_PDES,
        data: vec![0u8, 0u8, 0u8, 0u8],
    };
    let vdes: SdoWrite = SdoWrite {
        index: OD_MIT,
        subindex: MIT_SUB_VDES,
        data: vec![0u8, 0u8, 0u8, 0u8],
    };
    let kp: SdoWrite = SdoWrite { index: OD_MIT, subindex: MIT_SUB_KP, data: vec![0u8, 0u8] };
    proof {
        assert(pdes.data@ =~= seq![0u8, 0u8, 0u8, 0u8]);
        assert(vdes.data@ =~= seq![0u8, 0u8, 0u8, 0u8]);
        assert(kp.data@ =~= seq![0u8, 0u8]);
    }
    steps.push(InitStep::ZeroPdes(pdes));
    steps.push(InitStep::ZeroVdes(vdes));
    steps.push(InitStep::ZeroKp(kp));
    steps.push(InitStep::SetMaxTorque { permille: max_torque });
    steps.push(InitStep::SetMitMode);
    proof {
        assert(steps@.map_values(|s: InitStep| s@) =~= bringup(recipe@, max_torque));
    }
    Ok(steps)
}

/// The steps that bring node `nid` up for torque streaming. The stream mapping of
/// every node can be configured, so this never fails.
pub fn init_motor(nid: u8, max_torque: u16) -> (r: Result<Vec<InitStep>, RecipeError>)
    ensures
        r is Ok,
        r->Ok_0@.map_values(|s: InitStep| s@) == bringup(stream_mapping(nid), max_torque),
{
    let recipe: RpdoRecipe = stream_recipe(nid);
    recipe_steps(&recipe, max_torque)
}

fn copy_bytes(v: &Vec<u8>) -> (r: Vec<u8>)
    ensures
        r@ == v@,
{
    let r: Vec<u8> = v.clone();
    assert(r@ =~= v@);
    r
}

/// Where the start of a knob stands.
#[derive(Debug, Clone, Copy, PartialEq, Eq, Structural)]
pub enum Startup {
    /// Attempt number `attempt` is to be made.
    Trying { attempt: u8 },
    /// Attempt number `attempt` brought the motor up.
    Ready { attempt: u8 },
    /// Every attempt failed.
    GivenUp,
}

impl Startup {
    /// After one attempt: success is final, and failure leads to the next attempt
    /// while there is one.
    pub open spec fn next(self, ok: bool) -> Self {
        match self {
            Startup::Trying { attempt } => if ok {
                Startup::Ready { attempt }
            } else if attempt < INIT_ATTEMPTS {
                Startup::Trying { attempt: (attempt + 1) as u8 }
            } else {
                Startup::GivenUp
            },
            _ => self,
        }
    }

    /// After attempts with these outcomes.
    pub open spec fn after(outcomes: Seq<bool>) -> Self
        decreases outcomes.len(),
    {
        if outcomes.len() == 0 {
            Startup::Trying { attempt: 1 }
        } else {
            Startup::after(outcomes.drop_last()).next(outcomes.last())
        }
    }

    /// The first attempt.
    pub fn first() -> (s: Self)
        ensures
            s == Startup::after(seq![]),
    {
        Startup::Trying { attempt: 1 }
    }

    /// Takes the outcome of an attempt.
    pub fn advance(self, ok: bool) -> (s: Self)
        ensures
            s == self.next(ok),
    {
        match self {
            Startup::Trying { attempt } => if ok {
                Startup::Ready { attempt }
            } else if attempt < INIT_ATTEMPTS {
                Startup::Trying { attempt: attempt + 1 }
            } else {
                Startup::GivenUp
            },
            _ => self,
        }
    }
}

/// What to do once an attempt has ended.
#[derive(Debug, Clone, Copy, PartialEq, Eq, Structural)]
pub enum Recovery {
    Nothing,
    /// Clear the motor's fault, whatever comes of it, then wait.
    ClearAndWait { ms: u64 },
}

impl Startup {
    /// What to do once an attempt has ended: after every failure, the last included,
    /// the motor's fault is cleared and a pause made.
    pub fn recovery(self, ok: bool) -> (r: Recovery)
        ensures
            r == (if self is Trying && !ok {
                Recovery::ClearAndWait { ms: RETRY_PAUSE_MS }
            } else {
                Recovery::Nothing
            }),
    {
        match self {
            Startup::Trying { .. } => if ok {
                Recovery::Nothing
            } else {
                Recovery::ClearAndWait { ms: RETRY_PAUSE_MS }
            },
            _ => Recovery::Nothing,
        }
    }
}

/// Three failures end the start, one success within three attempts makes it, and
/// nothing else does either.
pub proof fn startup_outcome(outcomes: Seq<bool>)
    ensures
        Startup::after(outcomes) is GivenUp <==> outcomes.len() >= INIT_ATTEMPTS && (forall|i: int|
            0 <= i < INIT_ATTEMPTS ==> !outcomes[i]),
        Startup::after(outcomes) is Ready <==> exists|i: int|
            0 <= i < outcomes.len() && i < INIT_ATTEMPTS && outcomes[i],
        Startup::after(outcomes) matches Startup::Trying { attempt } ==> attempt == outcomes.len()
            + 1,
        Startup::after(outcomes) matches Startup::Ready { attempt } ==> 1 <= attempt
            <= INIT_ATTEMPTS && outcomes[attempt - 1] && (forall|i: int|
            0 <= i < attempt - 1 ==> !outcomes[i]),
    decreases outcomes.len(),
{
    if outcomes.len() > 0 {
        let before = outcomes.drop_last();
        startup_outcome(before);
        assert(forall|i: int| 0 <= i < before.len() ==> before[i] == outcomes[i]);
        match Startup::after(before) {
            Startup::Trying { attempt } => {
                assert(forall|i: int| 0 <= i < before.len() ==> !outcomes[i]);
                if outcomes.last() {
                    assert(outcomes[before.len() as int]);
                }
            },
            Startup::Ready { attempt } => {
                assert(outcomes[attempt - 1]);
            },
            Startup::GivenUp => {},
        }
    }
}

/// How a failed step is reported: the step, and what went wrong.
pub fn step_error(step: &InitStep, cause: &str) -> (s: String)
    ensures
        s@ == step.label_text() + ": "@ + cause@,
{
    let mut s: String = step.label();
    s.append(": ");
    s.append(cause);
    s
}

/// How a start that was given up is reported.
pub fn give_up_text(nid: u8) -> (s: String)
    ensures
        s@ == "motor 0x"@ + upper2_text(nid) + " failed after "@ + decimal_text(
            INIT_ATTEMPTS as nat,
        ) + " attempts"@,
{
    let mut s: String = "motor 0x".to_string();
    push_upper2(&mut s, nid);
    s.append(" failed after ");
    push_decimal(&mut s, INIT_ATTEMPTS as u64);
    s.append(" attempts");
    s
}

} // verus!
