use crate::error::Error;
use crate::identity::{spec_identity_bytes, spec_parse_identity, Identity, IdentityView};
use crate::wire::{le_u16, push_bytes, push_u16, read_u16_at, u16_le_bytes};
use vstd::array::array_as_slice;
use vstd::prelude::*;
use vstd::slice::slice_subrange;

verus! {

/// Number of parameter bytes of a command.
pub const NUM_CMD_PARAMS: usize = 8;

/// Number of bytes of a status report.
pub const NUM_STATUS_BYTES: usize = 8;

/// The outcome that a device reports for a request.
#[derive(Debug, Clone, Copy, PartialEq, Eq, Structural)]
pub enum ResponseCode {
    Success,
    Unknown,
    InvalidPacketType,
    InvalidCommand,
    InsufficientFunctionParameters,
}

impl ResponseCode {
    /// The byte that stands for the code on the wire.
    pub open spec fn spec_to_u8(self) -> u8 {
        match self {
            ResponseCode::Success => 0,
            ResponseCode::Unknown => 1,
            ResponseCode::InvalidPacketType => 2,
            ResponseCode::InvalidCommand => 3,
            ResponseCode::InsufficientFunctionParameters => 5,
        }
    }

    /// The code that a wire byte stands for, if any.
    pub open spec fn spec_from_u8(b: u8) -> Option<ResponseCode> {
        if b == 0 {
            Some(ResponseCode::Success)
        } else if b == 1 {
            Some(ResponseCode::Unknown)
        } else if b == 2 {
            Some(ResponseCode::InvalidPacketType)
        } else if b == 3 {
            Some(ResponseCode::InvalidCommand)
        } else if b == 5 {
            Some(ResponseCode::InsufficientFunctionParameters)
        } else {
            None
        }
    }

    pub fn to_u8(&self) -> (r: u8)
        ensures
            r == self.spec_to_u8(),
            ResponseCode::spec_from_u8(r) == Some(*self),
    {
        match self {
            ResponseCode::Success => 0,
            ResponseCode::Unknown => 1,
            ResponseCode::InvalidPacketType => 2,
            ResponseCode::InvalidCommand => 3,
            ResponseCode::InsufficientFunctionParameters => 5,
        }
    }

    pub fn from_u8(b: u8) -> (r: Option<ResponseCode>)
        ensures
            r == ResponseCode::spec_from_u8(b),
    {
        if b == 0 {
            Some(ResponseCode::Success)
        } else if b == 1 {
            Some(ResponseCode::Unknown)
        } else if b == 2 {
            Some(ResponseCode::InvalidPacketType)
        } else if b == 3 {
            Some(ResponseCode::InvalidCommand)
        } else if b == 5 {
            Some(ResponseCode::InsufficientFunctionParameters)
        } else {
            None
        }
    }
}

/// The variant of a packet, with the fields that its payload carries.
#[derive(Debug, Clone, PartialEq, Eq)]
pub enum PacketType {
    Connect { send_status: bool, status_time: u16 },
    Disconnect,
    Error { code: ResponseCode },
    Cmd { index: u8, params: [u8; NUM_CMD_PARAMS] },
    Identify,
    Status,
    OnConnect,
    OnCmd,
    OnIdentify(Identity),
    OnStatus([u8; NUM_STATUS_BYTES]),
}

/// A packet variant as values.
pub enum PacketTypeView {
    Connect { send_status: bool, status_time: u16 },
    Disconnect,
    Error { code: ResponseCode },
    Cmd { index: u8, params: Seq<u8> },
    Identify,
    Status,
    OnConnect,
    OnCmd,
    OnIdentify(IdentityView),
    OnStatus(Seq<u8>),
}

impl View for PacketType {
    type V = PacketTypeView;

    open spec fn view(&self) -> PacketTypeView {
        match self {
            PacketType::Connect { send_status, status_time } => PacketTypeView::Connect {
                send_status: *send_status,
                status_time: *status_time,
            },
            PacketType::Disconnect => PacketTypeView::Disconnect,
            PacketType::Error { code } => PacketTypeView::Error { code: *code },
            PacketType::Cmd { index, params } => PacketTypeView::Cmd {
                index: *index,
                params: params@,
            },
            PacketType::Identify => PacketTypeView::Identify,
            PacketType::Status => PacketTypeView::Status,
            PacketType::OnConnect => PacketTypeView::OnConnect,
            PacketType::OnCmd => PacketTypeView::OnCmd,
            PacketType::OnIdentify(identity) => PacketTypeView::OnIdentify(identity@),
            PacketType::OnStatus(status) => PacketTypeView::OnStatus(status@),
        }
    }
}

impl PacketTypeView {
    /// The tag byte that selects the variant on the wire.
    pub open spec fn spec_tag(self) -> u8 {
        match self {
            PacketTypeView::Connect { .. } => 0,
            PacketTypeView::Disconnect => 1,
            PacketTypeView::Error { .. } => 2,
            PacketTypeView::Cmd { .. } => 3,
            PacketTypeView::Identify => 4,
            PacketTypeView::Status => 5,
            PacketTypeView::OnConnect => 6,
            PacketTypeView::OnCmd => 7,
            PacketTypeView::OnIdentify(_) => 8,
            PacketTypeView::OnStatus(_) => 9,
        }
    }

    /// The variants that the wire form can carry: fixed-size fields have their
    /// size, and an identity can be carried.
    pub open spec fn wf(self) -> bool {
        match self {
            PacketTypeView::Cmd { params, .. } => params.len() == NUM_CMD_PARAMS,
            PacketTypeView::OnIdentify(identity) => identity.wf(),
            PacketTypeView::OnStatus(status) => status.len() == NUM_STATUS_BYTES,
            _ => true,
        }
    }
}

impl PacketType {
    /// The tag byte that selects the variant on the wire.
    pub fn to_u8(&self) -> (r: u8)
        ensures
            r == self@.spec_tag(),
    {
        match self {
            PacketType::Connect { .. } => 0,
            PacketType::Disconnect => 1,
            PacketType::Error { .. } => 2,
            PacketType::Cmd { .. } => 3,
            PacketType::Identify => 4,
            PacketType::Status => 5,
            PacketType::OnConnect => 6,
            PacketType::OnCmd => 7,
            PacketType::OnIdentify(_) => 8,
            PacketType::OnStatus(_) => 9,
        }
    }
}

/// One message of the link: a correlation id chosen by the sender, and a
/// variant with its payload.
#[derive(Debug, Clone, PartialEq, Eq)]
pub struct Packet {
    id: u16,
    typ: PacketType,
}

/// A packet as values.
pub struct PacketView {
    pub id: u16,
    pub typ: PacketTypeView,
}

impl View for Packet {
    type V = PacketView;

    closed spec fn view(&self) -> PacketView {
        PacketView { id: self.id, typ: self.typ@ }
    }
}

/// The payload bytes that follow the tag byte.
pub open spec fn spec_payload_bytes(t: PacketTypeView) -> Seq<u8> {
    match t {
        PacketTypeView::Connect { send_status, status_time } => seq![
            if send_status {
                1u8
            } else {
                0u8
            },
        ] + u16_le_bytes(status_time),
        PacketTypeView::Error { code } => seq![code.spec_to_u8()],
        PacketTypeView::Cmd { index, params } => seq![index] + params,
        PacketTypeView::OnIdentify(identity) => spec_identity_bytes(identity),
        PacketTypeView::OnStatus(status) => status,
        _ => Seq::empty(),
    }
}

/// The wire form of a packet: the id (little-endian), the tag byte, then the
/// payload.
pub open spec fn spec_packet_bytes(p: PacketView) -> Seq<u8> {
    u16_le_bytes(p.id) + seq![p.typ.spec_tag()] + spec_payload_bytes(p.typ)
}

/// Reads the payload of the variant with tag `tag` from the front of `d`:
/// the variant and the number of bytes it took, or why that failed.
pub open spec fn spec_parse_payload(tag: u8, d: Seq<u8>) -> Result<(PacketTypeView, nat), Error> {
    if tag == 0 {
        if d.len() < 3 {
            Err(Error::PacketDeserialize)
        } else {
            Ok(
                (
                    PacketTypeView::Connect {
                        send_status: d[0] > 0,
                        status_time: le_u16(d[1], d[2]),
                    },
                    3,
                ),
            )
        }
    } else if tag == 1 {
        Ok((PacketTypeView::Disconnect, 0))
    } else if tag == 2 {
        if d.len() < 1 {
            Err(Error::PacketDeserialize)
        } else {
            match ResponseCode::spec_from_u8(d[0]) {
                Some(code) => Ok((PacketTypeView::Error { code }, 1)),
                None => Err(Error::InvalidResponseCode(d[0])),
            }
        }
    } else if tag == 3 {
        if d.len() < 1 + NUM_CMD_PARAMS {
            Err(Error::PacketDeserialize)
        } else {
            Ok(
                (
                    PacketTypeView::Cmd {
                        index: d[0],
                        params: d.subrange(1, 1 + NUM_CMD_PARAMS),
                    },
                    (1 + NUM_CMD_PARAMS) as nat,
                ),
            )
        }
    } else if tag == 4 {
        Ok((PacketTypeView::Identify, 0))
    } else if tag == 5 {
        Ok((PacketTypeView::Status, 0))
    } else if tag == 6 {
        Ok((PacketTypeView::OnConnect, 0))
    } else if tag == 7 {
        Ok((PacketTypeView::OnCmd, 0))
    } else if tag == 8 {
        match spec_parse_identity(d) {
            Ok((identity, n)) => Ok((PacketTypeView::OnIdentify(identity), n)),
            Err(e) => Err(e),
        }
    } else if tag == 9 {
        if d.len() < NUM_STATUS_BYTES {
            Err(Error::PacketDeserialize)
        } else {
            Ok(
                (
                    PacketTypeView::OnStatus(d.subrange(0, NUM_STATUS_BYTES as int)),
                    NUM_STATUS_BYTES as nat,
                ),
            )
        }
    } else {
        Err(Error::InvalidPacketType(tag))
    }
}

/// Reads a packet from the front of `d`: the packet and the number of bytes
/// it took, or why that failed.
pub open spec fn spec_parse_packet(d: Seq<u8>) -> Result<(PacketView, nat), Error> {
    if d.len() < 3 {
        Err(Error::PacketDeserialize)
    } else {
        match spec_parse_payload(d[2], d.subrange(3, d.len() as int)) {
            Ok((typ, n)) => Ok((PacketView { id: le_u16(d[0], d[1]), typ }, 3 + n)),
            Err(e) => Err(e),
        }
    }
}

/// Copies the eight bytes at `pos`.
fn read_array8(d: &[u8], pos: usize) -> (r: [u8; 8])
    requires
        pos + 8 <= d@.len(),
    ensures
        r@ == d@.subrange(pos as int, pos + 8),
{
    let r = [
        d[pos],
        d[pos + 1],
        d[pos + 2],
        d[pos + 3],
        d[pos + 4],
        d[pos + 5],
        d[pos + 6],
        d[pos + 7],
    ];
    assert(r@ =~= d@.subrange(pos as int, pos + 8));
    r
}

impl Packet {
    pub fn new(id: u16, typ: PacketType) -> (r: Packet)
        ensures
            r@ == (PacketView { id, typ: typ@ }),
    {
        Packet { id, typ }
    }

    pub fn id(&self) -> (r: u16)
        ensures
            r == self@.id,
    {
        self.id
    }

    pub fn typ(&self) -> (r: &PacketType)
        ensures
            r@ == self@.typ,
    {
        &self.typ
    }

    /// Appends the wire form of the packet.
    pub fn serialize(&self, out: &mut Vec<u8>)
        ensures
            final(out)@ == old(out)@ + spec_packet_bytes(self@),
    {
        push_u16(out, self.id);
        out.push(self.typ.to_u8());
        let ghost head = out@;
        match &self.typ {
            PacketType::Connect { send_status, status_time } => {
                out.push(
                    if *send_status {
                        1u8
                    } else {
                        0u8
                    },
                );
                push_u16(out, *status_time);
            },
            PacketType::Error { code } => {
                out.push(code.to_u8());
            },
            PacketType::Cmd { index, params } => {
                out.push(*index);
                push_bytes(out, array_as_slice(params));
            },
            PacketType::OnIdentify(identity) => {
                identity.serialize(out);
            },
            PacketType::OnStatus(status) => {
                push_bytes(out, array_as_slice(status));
            },
            _ => {},
        }
        assert(out@ =~= head + spec_payload_bytes(self.typ@));
        assert(final(out)@ =~= old(out)@ + spec_packet_bytes(self@));
    }

    /// Reads a packet from the front of `data`, with the number of bytes it
    /// took. Only the bytes that the packet's fields need are read.
    pub fn deserialize(data: &[u8]) -> (r: Result<(Packet, usize), Error>)
        ensures
            match (r, spec_parse_packet(data@)) {
                (Ok((p, n)), Ok((v, m))) => p@ == v && n == m,
                (Err(e), Err(f)) => e == f,
                _ => false,
            },
    {
        if data.len() < 3 {
            return Err(Error::PacketDeserialize);
        }
        let id = read_u16_at(data, 0);
        let tag = data[2];
        let rest = slice_subrange(data, 3, data.len());
        let (typ, n): (PacketType, usize) = if tag == 0 {
            if rest.len() < 3 {
                return Err(Error::PacketDeserialize);
            }
            let send_status = rest[0] > 0;
            let status_time = read_u16_at(rest, 1);
            (PacketType::Connect { send_status, status_time }, 3)
        } else if tag == 1 {
            (PacketType::Disconnect, 0)
        } else if tag == 2 {
            if rest.len() < 1 {
                return Err(Error::PacketDeserialize);
            }
            match ResponseCode::from_u8(rest[0]) {
                Some(code) => (PacketType::Error { code }, 1),
                None => {
                    return Err(Error::InvalidResponseCode(rest[0]));
                },
            }
        } else if tag == 3 {
            if rest.len() < 1 + NUM_CMD_PARAMS {
                return Err(Error::PacketDeserialize);
            }
            let index = rest[0];
            let params = read_array8(rest, 1);
            (PacketType::Cmd { index, params }, 1 + NUM_CMD_PARAMS)
        } else if tag == 4 {
            (PacketType::Identify, 0)
        } else if tag == 5 {
            (PacketType::Status, 0)
        } else if tag == 6 {
            (PacketType::OnConnect, 0)
        } else if tag == 7 {
            (PacketType::OnCmd, 0)
        } else if tag == 8 {
            match Identity::deserialize(rest) {
                Ok((identity, n)) => (PacketType::OnIdentify(identity), n),
                Err(e) => {
                    return Err(e);
                },
            }
        } else if tag == 9 {
            if rest.len() < NUM_STATUS_BYTES {
                return Err(Error::PacketDeserialize);
            }
            let status = read_array8(rest, 0);
            (PacketType::OnStatus(status), NUM_STATUS_BYTES)
        } else {
            return Err(Error::InvalidPacketType(tag));
        };
        Ok((Packet { id, typ }, 3 + n))
    }
}

/// Reading back the wire form of a packet that the wire form can carry gives
/// that packet, and takes exactly the bytes written.
pub proof fn lemma_packet_round_trip(p: PacketView)
    requires
        p.typ.wf(),
    ensures
        spec_parse_packet(spec_packet_bytes(p)) == Ok::<(PacketView, nat), Error>(
            (p, spec_packet_bytes(p).len()),
        ),
{
    let d = spec_packet_bytes(p);
    let payload = spec_payload_bytes(p.typ);
    assert(d.subrange(3, d.len() as int) =~= payload);
    crate::wire::lemma_u16_le_round_trip(p.id);
    match p.typ {
        PacketTypeView::Connect { send_status, status_time } => {
            crate::wire::lemma_u16_le_round_trip(status_time);
        },
        PacketTypeView::Cmd { index, params } => {
            assert(payload.subrange(1, 1 + NUM_CMD_PARAMS) =~= params);
        },
        PacketTypeView::OnIdentify(identity) => {
            crate::identity::lemma_identity_round_trip(identity);
        },
        PacketTypeView::OnStatus(status) => {
            assert(payload.subrange(0, NUM_STATUS_BYTES as int) =~= status);
        },
        _ => {},
    }
}

/// A tag byte that names no variant is rejected with that byte, whatever
/// follows it.
pub proof fn lemma_unknown_tag_rejected(d: Seq<u8>)
    requires
        d.len() >= 3,
        d[2] > 9,
    ensures
        spec_parse_packet(d) == Err::<(PacketView, nat), Error>(Error::InvalidPacketType(d[2])),
{
}

/// Every proper prefix of the wire form of a packet that the wire form can
/// carry is rejected as input that ended too soon.
pub proof fn lemma_truncated_packet_rejected(p: PacketView, k: nat)
    requires
        p.typ.wf(),
        k < spec_packet_bytes(p).len(),
    ensures
        spec_parse_packet(spec_packet_bytes(p).take(k as int)) == Err::<(PacketView, nat), Error>(
            Error::PacketDeserialize,
        ) || spec_parse_packet(spec_packet_bytes(p).take(k as int)) == Err::<
            (PacketView, nat),
            Error,
        >(Error::IdentityDeserialize),
{
    let full = spec_packet_bytes(p);
    let d = full.take(k as int);
    if k >= 3 {
        let payload = spec_payload_bytes(p.typ);
        let rest = d.subrange(3, d.len() as int);
        assert(full.subrange(3, full.len() as int) =~= payload);
        assert(rest =~= payload.take(k - 3));
        assert(d[2] == full[2]);
        match p.typ {
            PacketTypeView::OnIdentify(identity) => {
                let b = spec_identity_bytes(identity);
                assert(rest.len() < b.len());
                if rest.len() >= 4 {
                    assert(rest[3] == b[3]);
                }
            },
            _ => {},
        }
    }
}

} // verus!
