//! CAN identifiers, frames and receive filters as plain values, and their
//! construction through `can_transport`.

use can_transport::CanFilter as TransportFilter;
use can_transport::CanFrame as TransportFrame;
use can_transport::CanId as TransportId;
use vstd::prelude::*;

use crate::text::{decimal_text, push_decimal};

verus! {

/// Largest 11-bit identifier.
pub const STANDARD_MAX: u16 = 0x7FF;

/// Largest 29-bit identifier.
pub const EXTENDED_MAX: u32 = 0x1FFF_FFFF;

/// Payload limit of a classic frame.
pub const CLASSIC_MAX_DLEN: usize = 8;

/// Payload limit of a CAN-FD frame.
pub const MAX_DLEN: usize = 64;

/// 11-bit standard or 29-bit extended CAN identifier.
#[derive(Debug, Clone, Copy, PartialEq, Eq, Structural)]
pub enum CanId {
    Standard(u16),
    Extended(u32),
}

impl CanId {
    /// The identifier's number, whatever its width.
    pub open spec fn raw_value(self) -> u32 {
        match self {
            CanId::Standard(id) => id as u32,
            CanId::Extended(id) => id,
        }
    }

    /// The number fits the identifier's width, as on every bus.
    pub open spec fn on_bus(self) -> bool {
        match self {
            CanId::Standard(id) => id <= STANDARD_MAX,
            CanId::Extended(id) => id <= EXTENDED_MAX,
        }
    }

    pub fn raw(self) -> (r: u32)
        ensures
            r == self.raw_value(),
    {
        match self {
            CanId::Standard(id) => id as u32,
            CanId::Extended(id) => id,
        }
    }

    pub fn is_extended(self) -> (r: bool)
        ensures
            r == (self is Extended),
    {
        match self {
            CanId::Standard(_) => false,
            CanId::Extended(_) => true,
        }
    }
}

/// Frame classification.
#[derive(Debug, Clone, Copy, PartialEq, Eq, Structural)]
pub enum FrameKind {
    /// Classic data frame.
    Data,
    /// CAN-FD data frame; `brs` is the bit-rate switch.
    Fd { brs: bool },
    /// Remote transmission request: a requested length and no payload.
    Remote,
}

/// A frame: what goes on the bus, or came off it.
#[derive(Debug, Clone)]
pub struct CanFrame {
    pub id: CanId,
    pub kind: FrameKind,
    /// Payload length; for a remote frame the requested length.
    pub dlc: u8,
    pub data: Vec<u8>,
}

impl CanFrame {
    /// The shape every frame on a bus has: the payload fits its kind, `dlc` is
    /// its length, and a remote frame carries none.
    pub open spec fn well_formed(self) -> bool {
        match self.kind {
            FrameKind::Data => self.data@.len() == self.dlc && self.dlc <= CLASSIC_MAX_DLEN,
            FrameKind::Fd { .. } => self.data@.len() == self.dlc && self.dlc <= MAX_DLEN,
            FrameKind::Remote => self.data@.len() == 0 && self.dlc <= CLASSIC_MAX_DLEN,
        }
    }
}

/// A bit-mask receive filter within one identifier width.
#[derive(Debug, Clone, Copy, PartialEq, Eq, Structural)]
pub struct CanFilter {
    pub id: u32,
    pub mask: u32,
    pub extended: bool,
}

/// The frames a masked filter lets through: the same width, and the same bits
/// where the mask has ones.
pub open spec fn mask_passes(filter: CanFilter, id: CanId) -> bool {
    &&& (id is Extended) == filter.extended
    &&& id.raw_value() & filter.mask == filter.id & filter.mask
}

/// `can_transport`'s error, carried through unread.
#[verifier::external_type_specification]
#[verifier::external_body]
pub struct ExCanIoError(can_transport::CanIoError);

/// A frame as `can_transport`'s accessors report it.
struct FrameParts {
    raw_id: u32,
    extended: bool,
    fd: bool,
    brs: bool,
    remote: bool,
    dlc: usize,
    data: Vec<u8>,
}

/// `can_transport::CanId::new_standard`: accepts exactly the 11-bit numbers and
/// keeps the number.
#[verifier::external_body]
fn new_standard(id: u16) -> (r: Result<CanId, can_transport::CanIoError>)
    ensures
        r is Ok <==> id <= STANDARD_MAX,
        r matches Ok(v) ==> v == CanId::Standard(id),
{
    match TransportId::new_standard(id)? {
        TransportId::Standard(raw) => Ok(CanId::Standard(raw)),
        TransportId::Extended(raw) => Ok(CanId::Extended(raw)),
    }
}

/// `can_transport::CanId::new_extended`: accepts exactly the 29-bit numbers and
/// keeps the number.
#[verifier::external_body]
fn new_extended(id: u32) -> (r: Result<CanId, can_transport::CanIoError>)
    ensures
        r is Ok <==> id <= EXTENDED_MAX,
        r matches Ok(v) ==> v == CanId::Extended(id),
{
    match TransportId::new_extended(id)? {
        TransportId::Standard(raw) => Ok(CanId::Standard(raw)),
        TransportId::Extended(raw) => Ok(CanId::Extended(raw)),
    }
}

/// `can_transport::CanFrame::new_data`: refuses payloads over eight bytes, and
/// otherwise reports back the identifier and the payload, as neither FD nor
/// remote.
#[verifier::external_body]
fn new_data(id: CanId, payload: &[u8]) -> (r: Result<FrameParts, can_transport::CanIoError>)
    ensures
        r is Ok <==> payload@.len() <= CLASSIC_MAX_DLEN,
        r matches Ok(f) ==> {
            &&& f.raw_id == id.raw_value()
            &&& f.extended == (id is Extended)
            &&& !f.fd && !f.brs && !f.remote
            &&& f.dlc == payload@.len()
            &&& f.data@ == payload@
        },
{
    let id: TransportId = match id {
        CanId::Standard(raw) => TransportId::Standard(raw),
        CanId::Extended(raw) => TransportId::Extended(raw),
    };
    let f: TransportFrame = TransportFrame::new_data(id, payload)?;
    Ok(FrameParts {
        raw_id: f.id().raw(),
        extended: f.id().is_extended(),
        fd: f.is_fd(),
        brs: f.brs(),
        remote: f.is_remote(),
        dlc: f.dlc(),
        data: f.data().to_vec(),
    })
}

/// `can_transport::CanFrame::new_fd`: refuses payloads over 64 bytes, and
/// otherwise reports back the identifier, the payload and the bit-rate switch,
/// as an FD frame.
#[verifier::external_body]
fn new_fd(id: CanId, payload: &[u8], brs: bool) -> (r: Result<
    FrameParts,
    can_transport::CanIoError,
>)
    ensures
        r is Ok <==> payload@.len() <= MAX_DLEN,
        r matches Ok(f) ==> {
            &&& f.raw_id == id.raw_value()
            &&& f.extended == (id is Extended)
            &&& f.fd && f.brs == brs && !f.remote
            &&& f.dlc == payload@.len()
            &&& f.data@ == payload@
        },
{
    let id: TransportId = match id {
        CanId::Standard(raw) => TransportId::Standard(raw),
        CanId::Extended(raw) => TransportId::Extended(raw),
    };
    let f: TransportFrame = TransportFrame::new_fd(id, payload, brs)?;
    Ok(FrameParts {
        raw_id: f.id().raw(),
        extended: f.id().is_extended(),
        fd: f.is_fd(),
        brs: f.brs(),
        remote: f.is_remote(),
        dlc: f.dlc(),
        data: f.data().to_vec(),
    })
}

/// `can_transport::CanFrame::new_remote`: refuses requests for more than eight
/// bytes, and otherwise reports back the identifier and the requested length,
/// as a remote frame without payload.
#[verifier::external_body]
fn new_remote(id: CanId, dlc: u8) -> (r: Result<FrameParts, can_transport::CanIoError>)
    ensures
        r is Ok <==> dlc <= CLASSIC_MAX_DLEN,
        r matches Ok(f) ==> {
            &&& f.raw_id == id.raw_value()
            &&& f.extended == (id is Extended)
            &&& !f.fd && !f.brs && f.remote
            &&& f.dlc == dlc
            &&& f.data@.len() == 0
        },
{
    let id: TransportId = match id {
        CanId::Standard(raw) => TransportId::Standard(raw),
        CanId::Extended(raw) => TransportId::Extended(raw),
    };
    let f: TransportFrame = TransportFrame::new_remote(id, dlc)?;
    Ok(FrameParts {
        raw_id: f.id().raw(),
        extended: f.id().is_extended(),
        fd: f.is_fd(),
        brs: f.brs(),
        remote: f.is_remote(),
        dlc: f.dlc(),
        data: f.data().to_vec(),
    })
}

/// `can_transport::CanFilter::exact_standard`: all eleven bits of `id`, standard
/// width.
#[verifier::external_body]
pub(crate) fn exact_standard(id: u16) -> (r: CanFilter)
    ensures
        r == (CanFilter { id: id as u32, mask: 0x7FF, extended: false }),
{
    let f: TransportFilter = TransportFilter::exact_standard(id);
    CanFilter { id: f.id, mask: f.mask, extended: f.extended }
}

/// `can_transport::CanFilter::pass_all_standard`: an empty mask, standard width.
#[verifier::external_body]
pub(crate) fn pass_all_standard() -> (r: CanFilter)
    ensures
        r == (CanFilter { id: 0, mask: 0, extended: false }),
{
    let f: TransportFilter = TransportFilter::pass_all_standard();
    CanFilter { id: f.id, mask: f.mask, extended: f.extended }
}

/// `can_transport::CanFilter::pass_all_extended`: an empty mask, extended width.
#[verifier::external_body]
pub(crate) fn pass_all_extended() -> (r: CanFilter)
    ensures
        r == (CanFilter { id: 0, mask: 0, extended: true }),
{
    let f: TransportFilter = TransportFilter::pass_all_extended();
    CanFilter { id: f.id, mask: f.mask, extended: f.extended }
}

/// Why an identifier or a frame could not be built.
#[derive(Debug, Clone, Copy, PartialEq, Eq, Structural)]
pub enum CanError {
    /// The number is out of range for its width.
    InvalidId,
    /// The payload is too long for the frame kind.
    DataTooLong { got: usize, max: usize },
}

impl CanError {
    /// The message's characters.
    pub open spec fn message_text(self) -> Seq<char> {
        match self {
            CanError::InvalidId => "invalid CAN identifier"@,
            CanError::DataTooLong { got, max } => "frame data too long: got "@ + decimal_text(
                got as nat,
            ) + " bytes, max "@ + decimal_text(max as nat),
        }
    }

    /// The message shown to the user.
    pub fn message(&self) -> (s: String)
        ensures
            s@ == self.message_text(),
    {
        match *self {
            CanError::InvalidId => "invalid CAN identifier".to_string(),
            CanError::DataTooLong { got, max } => {
                let mut s: String = "frame data too long: got ".to_string();
                push_decimal(&mut s, got as u64);
                s.append(" bytes, max ");
                push_decimal(&mut s, max as u64);
                s
            },
        }
    }
}

/// An 11-bit identifier, or [`CanError::InvalidId`] for a larger number.
pub fn standard_id(id: u16) -> (r: Result<CanId, CanError>)
    ensures
        r == (if id <= STANDARD_MAX {
            Ok(CanId::Standard(id))
        } else {
            Err(CanError::InvalidId)
        }),
{
    match new_standard(id) {
        Ok(v) => Ok(v),
        Err(_) => Err(CanError::InvalidId),
    }
}

/// A 29-bit identifier, or [`CanError::InvalidId`] for a larger number.
pub fn extended_id(id: u32) -> (r: Result<CanId, CanError>)
    ensures
        r == (if id <= EXTENDED_MAX {
            Ok(CanId::Extended(id))
        } else {
            Err(CanError::InvalidId)
        }),
{
    match new_extended(id) {
        Ok(v) => Ok(v),
        Err(_) => Err(CanError::InvalidId),
    }
}

/// Puts the reported parts of a frame together.
fn assemble(parts: FrameParts) -> (f: CanFrame)
    requires
        !parts.extended ==> parts.raw_id <= u16::MAX,
        parts.dlc <= u8::MAX,
    ensures
        f.id == (if parts.extended {
            CanId::Extended(parts.raw_id)
        } else {
            CanId::Standard(parts.raw_id as u16)
        }),
        f.kind == (if parts.remote {
            FrameKind::Remote
        } else if parts.fd {
            FrameKind::Fd { brs: parts.brs }
        } else {
            FrameKind::Data
        }),
        f.dlc == parts.dlc,
        f.data@ == parts.data@,
{
    let id: CanId = if parts.extended {
        CanId::Extended(parts.raw_id)
    } else {
        CanId::Standard(parts.raw_id as u16)
    };
    let kind: FrameKind = if parts.remote {
        FrameKind::Remote
    } else if parts.fd {
        FrameKind::Fd { brs: parts.brs }
    } else {
        FrameKind::Data
    };
    CanFrame { id, kind, dlc: parts.dlc as u8, data: parts.data }
}

/// A classic data frame; fails exactly on payloads over eight bytes.
pub fn data_frame(id: CanId, payload: &[u8]) -> (r: Result<CanFrame, CanError>)
    ensures
        r is Ok <==> payload@.len() <= CLASSIC_MAX_DLEN,
        r matches Ok(f) ==> {
            &&& f.well_formed()
            &&& f.id == id
            &&& f.kind == FrameKind::Data
            &&& f.data@ == payload@
        },
        r matches Err(e) ==> e == (CanError::DataTooLong {
            got: payload@.len() as usize,
            max: CLASSIC_MAX_DLEN,
        }),
{
    match new_data(id, payload) {
        Ok(parts) => Ok(assemble(parts)),
        Err(_) => Err(CanError::DataTooLong { got: payload.len(), max: CLASSIC_MAX_DLEN }),
    }
}

/// A CAN-FD frame; fails exactly on payloads over 64 bytes.
pub fn fd_frame(id: CanId, payload: &[u8], brs: bool) -> (r: Result<CanFrame, CanError>)
    ensures
        r is Ok <==> payload@.len() <= MAX_DLEN,
        r matches Ok(f) ==> {
            &&& f.well_formed()
            &&& f.id == id
            &&& f.kind == (FrameKind::Fd { brs })
            &&& f.data@ == payload@
        },
        r matches Err(e) ==> e == (CanError::DataTooLong {
            got: payload@.len() as usize,
            max: MAX_DLEN,
        }),
{
    match new_fd(id, payload, brs) {
        Ok(parts) => Ok(assemble(parts)),
        Err(_) => Err(CanError::DataTooLong { got: payload.len(), max: MAX_DLEN }),
    }
}

/// A remote frame; fails exactly on requests for more than eight bytes.
pub fn remote_frame(id: CanId, dlc: u8) -> (r: Result<CanFrame, CanError>)
    ensures
        r is Ok <==> dlc <= CLASSIC_MAX_DLEN,
        r matches Ok(f) ==> {
            &&& f.well_formed()
            &&& f.id == id
            &&& f.kind == FrameKind::Remote
            &&& f.dlc == dlc
        },
        r matches Err(e) ==> e == (CanError::DataTooLong {
            got: dlc as usize,
            max: CLASSIC_MAX_DLEN,
        }),
{
    match new_remote(id, dlc) {
        Ok(parts) => Ok(assemble(parts)),
        Err(_) => Err(CanError::DataTooLong { got: dlc as usize, max: CLASSIC_MAX_DLEN }),
    }
}

/// A masked filter passes an identifier of its width exactly where the two numbers differ
/// in no bit of the mask.
pub proof fn mask_compares_its_bits(filter: CanFilter, id: CanId)
    ensures
        match id {
            CanId::Standard(raw) => mask_passes(filter, id) <==> !filter.extended && (raw as u32
                ^ filter.id) & filter.mask == 0,
            CanId::Extended(raw) => mask_passes(filter, id) <==> filter.extended && (raw
                ^ filter.id) & filter.mask == 0,
        },
{
    let (raw, want, mask) = (id.raw_value(), filter.id, filter.mask);
    assert(raw & mask == want & mask <==> (raw ^ want) & mask == 0) by (bit_vector);
}

/// A well-formed frame's length is that of its payload, within its kind; a remote frame
/// has a length of at most eight and no payload.
pub proof fn well_formed_lengths(f: CanFrame)
    ensures
        f.well_formed() <==> match f.kind {
            FrameKind::Data => f.data@.len() == f.dlc && f.data@.len() <= 8,
            FrameKind::Fd { .. } => f.data@.len() == f.dlc && f.data@.len() <= 64,
            FrameKind::Remote => f.data@.len() == 0 && f.dlc <= 8,
        },
{
}

/// Numbers and widths: an identifier is on the bus where its number fits eleven bits, or
/// twenty-nine.
pub proof fn identifier_widths(s: u16, e: u32)
    ensures
        CanId::Standard(s).raw_value() == s,
        CanId::Extended(e).raw_value() == e,
        CanId::Standard(s).on_bus() <==> s < 0x800,
        CanId::Extended(e).on_bus() <==> e < 0x2000_0000,
{
}

/// An error names what went wrong with its numbers.
pub proof fn errors_name_their_numbers(got: usize, max: usize)
    ensures
        CanError::InvalidId.message_text() == "invalid CAN identifier"@,
        (CanError::DataTooLong { got, max }).message_text() == "frame data too long: got "@
            + decimal_text(got as nat) + " bytes, max "@ + decimal_text(max as nat),
{
}

} // verus!
