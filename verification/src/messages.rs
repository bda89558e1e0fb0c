//! Wire-format codec for the rendezvous protocol.
//!
//! Every message is one UDP datagram: a 4-byte header (big-endian total
//! length, big-endian type code) followed by a variant-dependent payload.
//! `serialize` and `deserialize` are proved against the mathematical wire
//! format given by `encode_spec` and `decode_spec`.

use vstd::prelude::*;

verus! {

use vstd::arithmetic::div_mod::lemma_fundamental_div_mod_converse;

pub const LOCAL_INTERRUPT: u16 = 1;

pub const REGISTER: u16 = 2;

pub const JOIN: u16 = 3;

pub const PEER_INFO: u16 = 4;

pub const DATA: u16 = 5;

pub const REGISTER_ACK: u16 = 6;

pub const SESSION_NOT_FOUND: u16 = 7;

pub const HELLO_REQ: u16 = 8;

pub const HELLO_RESP: u16 = 9;

/// Largest admissible Data payload, in bytes.
pub const MAX_DATA_SIZE: usize = 1024;

/// Largest admissible session identifier, in bytes.
pub const MAX_SESSION_ID_SIZE: usize = 20;

/// A transport address: an IPv4 or IPv6 address together with a UDP port.
///
/// The codec carries exactly these fields on the wire (family, address
/// octets, port); IPv6 flow-info and scope-id are not carried.
#[derive(Clone, Copy, Debug, PartialEq, Eq)]
pub enum PeerAddr {
    V4 { octets: [u8; 4], port: u16 },
    V6 { octets: [u8; 16], port: u16 },
}

/// Mathematical model of a transport address.
pub enum AddrModel {
    V4 { octets: Seq<u8>, port: u16 },
    V6 { octets: Seq<u8>, port: u16 },
}

impl View for PeerAddr {
    type V = AddrModel;

    open spec fn view(&self) -> AddrModel {
        match self {
            PeerAddr::V4 { octets, port } => AddrModel::V4 { octets: octets@, port: *port },
            PeerAddr::V6 { octets, port } => AddrModel::V6 { octets: octets@, port: *port },
        }
    }
}

/// An address model is well formed when it has the right number of octets.
/// Every value of `PeerAddr` views to a well-formed model.
pub open spec fn wf_addr(a: AddrModel) -> bool {
    match a {
        AddrModel::V4 { octets, .. } => octets.len() == 4,
        AddrModel::V6 { octets, .. } => octets.len() == 16,
    }
}

/// A loopback address: 127.x.y.z for IPv4, ::1 for IPv6.
pub open spec fn is_loopback_addr(a: AddrModel) -> bool {
    match a {
        AddrModel::V4 { octets, .. } => octets.len() == 4 && octets[0] == 127,
        AddrModel::V6 { octets, .. } => octets =~= seq![
            0u8, 0u8, 0u8, 0u8, 0u8, 0u8, 0u8, 0u8,
            0u8, 0u8, 0u8, 0u8, 0u8, 0u8, 0u8, 1u8,
        ],
    }
}

impl PeerAddr {
    /// Byte-exact equality of two addresses.
    #[verifier::loop_isolation(false)]
    pub fn eq_addr(&self, other: &PeerAddr) -> (r: bool)
        ensures
            r == (self@ == other@),
    {
        match (self, other) {
            (
                PeerAddr::V4 { octets: a, port: pa },
                PeerAddr::V4 { octets: b, port: pb },
            ) => {
                if *pa != *pb {
                    return false;
                }
                let mut i: usize = 0;
                while i < 4
                    invariant
                        i <= 4,
                        forall|j: int| 0 <= j < i ==> a@[j] == b@[j],
                    decreases 4 - i,
                {
                    if a[i] != b[i] {
                        return false;
                    }
                    i = i + 1;
                }
                proof {
                    assert(a@ =~= b@);
                }
                true
            },
            (
                PeerAddr::V6 { octets: a, port: pa },
                PeerAddr::V6 { octets: b, port: pb },
            ) => {
                if *pa != *pb {
                    return false;
                }
                let mut i: usize = 0;
                while i < 16
                    invariant
                        i <= 16,
                        forall|j: int| 0 <= j < i ==> a@[j] == b@[j],
                    decreases 16 - i,
                {
                    if a[i] != b[i] {
                        return false;
                    }
                    i = i + 1;
                }
                proof {
                    assert(a@ =~= b@);
                }
                true
            },
            _ => false,
        }
    }

    /// Whether the address is a loopback address.
    #[verifier::loop_isolation(false)]
    pub fn is_loopback(&self) -> (r: bool)
        ensures
            r == is_loopback_addr(self@),
    {
        match self {
            PeerAddr::V4 { octets, .. } => octets[0] == 127,
            PeerAddr::V6 { octets, .. } => {
                let mut i: usize = 0;
                while i < 15
                    invariant
                        i <= 15,
                        forall|j: int| 0 <= j < i ==> octets@[j] == 0u8,
                    decreases 15 - i,
                {
                    if octets[i] != 0 {
                        return false;
                    }
                    i = i + 1;
                }
                octets[15] == 1
            },
        }
    }
}

/// Payload of a Register message: the session identifier being registered.
#[derive(Clone, Debug, PartialEq, Eq)]
pub struct RegisterContents {
    pub session_id: Vec<u8>,
}

/// Payload of a Join message: the session identifier being looked up.
#[derive(Clone, Debug, PartialEq, Eq)]
pub struct JoinContents {
    pub session_id: Vec<u8>,
}

/// Payload of a Data message: opaque application bytes.
#[derive(Clone, Debug, PartialEq, Eq)]
pub struct DataContents {
    pub data: Vec<u8>,
}

/// Payload of a PeerInfo message: one peer's externally visible address.
#[derive(Clone, Debug, PartialEq, Eq)]
pub struct PeerInfoContents {
    pub peer_addr: PeerAddr,
}

/// Payload of a RegisterAck message: the session identifier acknowledged.
#[derive(Clone, Debug, PartialEq, Eq)]
pub struct RegisterAckContents {
    pub session_id: Vec<u8>,
}

/// Payload of a SessionNotFound message: the identifier that was not found.
#[derive(Clone, Debug, PartialEq, Eq)]
pub struct SessionNotFoundContents {
    pub session_id: Vec<u8>,
}

/// A protocol message, one per wire type code.
#[derive(Clone, Debug, PartialEq, Eq)]
pub enum Message {
    LocalInterrupt,
    Register(RegisterContents),
    Join(JoinContents),
    Data(DataContents),
    PeerInfo(PeerInfoContents),
    RegisterAck(RegisterAckContents),
    SessionNotFound(SessionNotFoundContents),
    HelloReq,
    HelloResp,
}

/// Mathematical model of a protocol message.
pub enum MsgModel {
    LocalInterrupt,
    Register { id: Seq<u8> },
    Join { id: Seq<u8> },
    Data { data: Seq<u8> },
    PeerInfo { addr: AddrModel },
    RegisterAck { id: Seq<u8> },
    SessionNotFound { id: Seq<u8> },
    HelloReq,
    HelloResp,
}

impl View for Message {
    type V = MsgModel;

    open spec fn view(&self) -> MsgModel {
        match self {
            Message::LocalInterrupt => MsgModel::LocalInterrupt,
            Message::Register(c) => MsgModel::Register { id: c.session_id@ },
            Message::Join(c) => MsgModel::Join { id: c.session_id@ },
            Message::Data(c) => MsgModel::Data { data: c.data@ },
            Message::PeerInfo(c) => MsgModel::PeerInfo { addr: c.peer_addr@ },
            Message::RegisterAck(c) => MsgModel::RegisterAck { id: c.session_id@ },
            Message::SessionNotFound(c) => MsgModel::SessionNotFound { id: c.session_id@ },
            Message::HelloReq => MsgModel::HelloReq,
            Message::HelloResp => MsgModel::HelloResp,
        }
    }
}

/// A message model is legal for the wire when its payload respects the
/// protocol bounds: session identifiers of at most `MAX_SESSION_ID_SIZE`
/// bytes, data of at most `MAX_DATA_SIZE` bytes, addresses with the right
/// octet count.
pub open spec fn wf_msg(m: MsgModel) -> bool {
    match m {
        MsgModel::LocalInterrupt => true,
        MsgModel::Register { id } => id.len() <= MAX_SESSION_ID_SIZE,
        MsgModel::Join { id } => id.len() <= MAX_SESSION_ID_SIZE,
        MsgModel::Data { data } => data.len() <= MAX_DATA_SIZE,
        MsgModel::PeerInfo { addr } => wf_addr(addr),
        MsgModel::RegisterAck { id } => id.len() <= MAX_SESSION_ID_SIZE,
        MsgModel::SessionNotFound { id } => id.len() <= MAX_SESSION_ID_SIZE,
        MsgModel::HelloReq => true,
        MsgModel::HelloResp => true,
    }
}

/// The wire type code of a message.
pub open spec fn type_code_of(m: MsgModel) -> u16 {
    match m {
        MsgModel::LocalInterrupt => LOCAL_INTERRUPT,
        MsgModel::Register { .. } => REGISTER,
        MsgModel::Join { .. } => JOIN,
        MsgModel::Data { .. } => DATA,
        MsgModel::PeerInfo { .. } => PEER_INFO,
        MsgModel::RegisterAck { .. } => REGISTER_ACK,
        MsgModel::SessionNotFound { .. } => SESSION_NOT_FOUND,
        MsgModel::HelloReq => HELLO_REQ,
        MsgModel::HelloResp => HELLO_RESP,
    }
}

/// Big-endian encoding of a 16-bit integer.
pub open spec fn u16_be(x: u16) -> Seq<u8> {
    seq![(x / 256) as u8, (x % 256) as u8]
}

/// The wire payload of an address: family octet, address octets, port.
pub open spec fn addr_payload(a: AddrModel) -> Seq<u8> {
    match a {
        AddrModel::V4 { octets, port } => seq![4u8] + octets + u16_be(port),
        AddrModel::V6 { octets, port } => seq![6u8] + octets + u16_be(port),
    }
}

/// The wire payload of a message (everything after the 4-byte header).
pub open spec fn payload_of(m: MsgModel) -> Seq<u8> {
    match m {
        MsgModel::LocalInterrupt => Seq::empty(),
        MsgModel::Register { id } => id,
        MsgModel::Join { id } => id,
        MsgModel::Data { data } => data,
        MsgModel::PeerInfo { addr } => addr_payload(addr),
        MsgModel::RegisterAck { id } => id,
        MsgModel::SessionNotFound { id } => id,
        MsgModel::HelloReq => Seq::empty(),
        MsgModel::HelloResp => Seq::empty(),
    }
}

/// The exact datagram a well-formed message encodes to: a length field
/// covering the whole datagram, the type code, then the payload.
pub open spec fn encode_spec(m: MsgModel) -> Seq<u8> {
    u16_be((4 + payload_of(m).len()) as u16) + u16_be(type_code_of(m)) + payload_of(m)
}

/// The 16-bit big-endian integer at offsets `i`, `i + 1` of `b`.
pub open spec fn be16_at(b: Seq<u8>, i: int) -> int {
    b[i] * 256 + b[i + 1]
}

/// What a received datagram decodes to, if anything.
///
/// A datagram is rejected when it is shorter than the header, when its
/// declared length differs from its actual length, when its type code is
/// unknown, when a fixed-size variant carries a payload, when a PeerInfo
/// payload does not match one of the two address families, or when a
/// session-id or data payload exceeds its bound.
pub open spec fn decode_spec(b: Seq<u8>) -> Option<MsgModel> {
    if b.len() < 4 {
        Option::None
    } else if be16_at(b, 0) != b.len() {
        Option::None
    } else {
        let code = be16_at(b, 2);
        let payload = b.subrange(4, b.len() as int);
        if code == LOCAL_INTERRUPT {
            if b.len() == 4 { Option::Some(MsgModel::LocalInterrupt) } else { Option::None }
        } else if code == HELLO_REQ {
            if b.len() == 4 { Option::Some(MsgModel::HelloReq) } else { Option::None }
        } else if code == HELLO_RESP {
            if b.len() == 4 { Option::Some(MsgModel::HelloResp) } else { Option::None }
        } else if code == REGISTER {
            if payload.len() <= MAX_SESSION_ID_SIZE {
                Option::Some(MsgModel::Register { id: payload })
            } else {
                Option::None
            }
        } else if code == REGISTER_ACK {
            if payload.len() <= MAX_SESSION_ID_SIZE {
                Option::Some(MsgModel::RegisterAck { id: payload })
            } else {
                Option::None
            }
        } else if code == JOIN {
            if payload.len() <= MAX_SESSION_ID_SIZE {
                Option::Some(MsgModel::Join { id: payload })
            } else {
                Option::None
            }
        } else if code == SESSION_NOT_FOUND {
            if payload.len() <= MAX_SESSION_ID_SIZE {
                Option::Some(MsgModel::SessionNotFound { id: payload })
            } else {
                Option::None
            }
        } else if code == PEER_INFO {
            if b.len() == 11 && b[4] == 4 {
                Option::Some(MsgModel::PeerInfo {
                    addr: AddrModel::V4 {
                        octets: b.subrange(5, 9),
                        port: be16_at(b, 9) as u16,
                    },
                })
            } else if b.len() == 23 && b[4] == 6 {
                Option::Some(MsgModel::PeerInfo {
                    addr: AddrModel::V6 {
                        octets: b.subrange(5, 21),
                        port: be16_at(b, 21) as u16,
                    },
                })
            } else {
                Option::None
            }
        } else if code == DATA {
            if payload.len() <= MAX_DATA_SIZE {
                Option::Some(MsgModel::Data { data: payload })
            } else {
                Option::None
            }
        } else {
            Option::None
        }
    }
}

impl Message {
    /// Split a 16-bit integer into its big-endian bytes.
    fn to_net(x: u16) -> (r: (u8, u8))
        ensures
            seq![r.0, r.1] == u16_be(x),
    {
        ((x / 256) as u8, (x % 256) as u8)
    }

    /// Read a 16-bit integer from its big-endian bytes.
    fn from_net(top_byte: u8, bottom_byte: u8) -> (r: u16)
        ensures
            r == top_byte * 256 + bottom_byte,
    {
        (top_byte as u16) * 256 + (bottom_byte as u16)
    }

    /// Build the datagram for a message whose payload is carried verbatim.
    #[verifier::loop_isolation(false)]
    fn serialize_payload_carrier(packet_type: u16, payload: &[u8]) -> (r: Result<Vec<u8>, ()>)
        requires
            payload@.len() + 4 <= u16::MAX,
        ensures
            r matches Ok(v) && v@ == u16_be((4 + payload@.len()) as u16) + u16_be(packet_type)
                + payload@,
    {
        let total_len: u16 = (payload.len() + 4) as u16;
        let (len_top, len_bot) = Self::to_net(total_len);
        let (type_top, type_bot) = Self::to_net(packet_type);

        let mut msg: Vec<u8> = Vec::new();
        msg.push(len_top);
        msg.push(len_bot);
        msg.push(type_top);
        msg.push(type_bot);
        let payload_len = payload.len();
        let mut i: usize = 0;
        while i < payload_len
            invariant
                i <= payload_len,
                msg@ == u16_be(total_len) + u16_be(packet_type) + payload@.subrange(0, i as int),
            decreases payload_len - i,
        {
            msg.push(payload[i]);
            proof {
                assert(payload@.subrange(0, i + 1) =~= payload@.subrange(0, i as int).push(
                    payload@[i as int],
                ));
            }
            i = i + 1;
        }
        proof {
            assert(payload@.subrange(0, payload_len as int) =~= payload@);
        }
        Ok(msg)
    }

    /// Serialize the message to the datagram `encode_spec` describes.
    ///
    /// Fails exactly when the message is not well formed for the wire: a
    /// session identifier over `MAX_SESSION_ID_SIZE` bytes or a data payload
    /// over `MAX_DATA_SIZE` bytes.  (With those bounds respected, the length
    /// field always fits in 16 bits.)
    pub fn serialize(&self) -> (r: Result<Vec<u8>, ()>)
        ensures
            wf_msg(self@) ==> (r matches Ok(v) && v@ == encode_spec(self@)),
            !wf_msg(self@) ==> r matches Err(e),
    {
        match self {
            Message::LocalInterrupt => {
                let (type_top, type_bot) = Self::to_net(LOCAL_INTERRUPT);
                let r: Vec<u8> = vec![0u8, 4u8, type_top, type_bot];
                proof {
                    assert(r@ =~= encode_spec(self@));
                }
                Ok(r)
            },
            Message::HelloReq => {
                let (type_top, type_bot) = Self::to_net(HELLO_REQ);
                let r: Vec<u8> = vec![0u8, 4u8, type_top, type_bot];
                proof {
                    assert(r@ =~= encode_spec(self@));
                }
                Ok(r)
            },
            Message::HelloResp => {
                let (type_top, type_bot) = Self::to_net(HELLO_RESP);
                let r: Vec<u8> = vec![0u8, 4u8, type_top, type_bot];
                proof {
                    assert(r@ =~= encode_spec(self@));
                }
                Ok(r)
            },
            Message::Register(contents) => {
                if contents.session_id.len() > MAX_SESSION_ID_SIZE {
                    return Err(());
                }
                let r = Self::serialize_payload_carrier(REGISTER, contents.session_id.as_slice());
                proof {
                    assert(r matches Ok(v) && v@ =~= encode_spec(self@));
                }
                r
            },
            Message::RegisterAck(contents) => {
                if contents.session_id.len() > MAX_SESSION_ID_SIZE {
                    return Err(());
                }
                let r = Self::serialize_payload_carrier(
                    REGISTER_ACK,
                    contents.session_id.as_slice(),
                );
                proof {
                    assert(r matches Ok(v) && v@ =~= encode_spec(self@));
                }
                r
            },
            Message::Join(contents) => {
                if contents.session_id.len() > MAX_SESSION_ID_SIZE {
                    return Err(());
                }
                let r = Self::serialize_payload_carrier(JOIN, contents.session_id.as_slice());
                proof {
                    assert(r matches Ok(v) && v@ =~= encode_spec(self@));
                }
                r
            },
            Message::SessionNotFound(contents) => {
                if contents.session_id.len() > MAX_SESSION_ID_SIZE {
                    return Err(());
                }
                let r = Self::serialize_payload_carrier(
                    SESSION_NOT_FOUND,
                    contents.session_id.as_slice(),
                );
                proof {
                    assert(r matches Ok(v) && v@ =~= encode_spec(self@));
                }
                r
            },
            Message::PeerInfo(contents) => {
                match &contents.peer_addr {
                    PeerAddr::V4 { octets, port } => {
                        let (port_top, port_bot) = Self::to_net(*port);
                        let (type_top, type_bot) = Self::to_net(PEER_INFO);
                        let r: Vec<u8> = vec![
                            0u8,
                            11u8,
                            type_top,
                            type_bot,
                            4u8,
                            octets[0],
                            octets[1],
                            octets[2],
                            octets[3],
                            port_top,
                            port_bot,
                        ];
                        proof {
                            assert(r@ =~= encode_spec(self@));
                        }
                        Ok(r)
                    },
                    PeerAddr::V6 { octets, port } => {
                        let (port_top, port_bot) = Self::to_net(*port);
                        let (type_top, type_bot) = Self::to_net(PEER_INFO);
                        let r: Vec<u8> = vec![
                            0u8,
                            23u8,
                            type_top,
                            type_bot,
                            6u8,
                            octets[0],
                            octets[1],
                            octets[2],
                            octets[3],
                            octets[4],
                            octets[5],
                            octets[6],
                            octets[7],
                            octets[8],
                            octets[9],
                            octets[10],
                            octets[11],
                            octets[12],
                            octets[13],
                            octets[14],
                            octets[15],
                            port_top,
                            port_bot,
                        ];
                        proof {
                            assert(r@ =~= encode_spec(self@));
                        }
                        Ok(r)
                    },
                }
            },
            Message::Data(contents) => {
                if contents.data.len() > MAX_DATA_SIZE {
                    return Err(());
                }
                let r = Self::serialize_payload_carrier(DATA, contents.data.as_slice());
                proof {
                    assert(r matches Ok(v) && v@ =~= encode_spec(self@));
                }
                r
            },
        }
    }

    /// Copy the payload (everything after the header) out of a datagram.
    #[verifier::loop_isolation(false)]
    fn copy_payload(from: &[u8]) -> (r: Vec<u8>)
        requires
            from@.len() >= 4,
        ensures
            r@ == from@.subrange(4, from@.len() as int),
    {
        let len = from.len();
        let mut payload: Vec<u8> = Vec::new();
        let mut i: usize = 4;
        while i < len
            invariant
                4 <= i <= len,
                payload@ == from@.subrange(4, i as int),
            decreases len - i,
        {
            payload.push(from[i]);
            proof {
                assert(from@.subrange(4, i + 1) =~= from@.subrange(4, i as int).push(
                    from@[i as int],
                ));
            }
            i = i + 1;
        }
        payload
    }

    /// Deserialize one received datagram, as `decode_spec` describes.
    ///
    /// Returns `Err` exactly on the datagrams `decode_spec` rejects.
    pub fn deserialize(from: &[u8]) -> (r: Result<Message, ()>)
        ensures
            r matches Ok(m) ==> decode_spec(from@) == Option::Some(m@),
            r matches Err(e) ==> decode_spec(from@) is None,
    {
        let length = from.len();
        if length < 4 {
            return Err(());
        }

        let declared = Self::from_net(from[0], from[1]);
        if length != declared as usize {
            return Err(());
        }
        let msg_type = Self::from_net(from[2], from[3]);

        if msg_type == LOCAL_INTERRUPT {
            if length == 4 {
                Ok(Message::LocalInterrupt)
            } else {
                Err(())
            }
        } else if msg_type == HELLO_REQ {
            if length == 4 {
                Ok(Message::HelloReq)
            } else {
                Err(())
            }
        } else if msg_type == HELLO_RESP {
            if length == 4 {
                Ok(Message::HelloResp)
            } else {
                Err(())
            }
        } else if msg_type == REGISTER {
            if length - 4 > MAX_SESSION_ID_SIZE {
                return Err(());
            }
            let session_id = Self::copy_payload(from);
            Ok(Message::Register(RegisterContents { session_id }))
        } else if msg_type == REGISTER_ACK {
            if length - 4 > MAX_SESSION_ID_SIZE {
                return Err(());
            }
            let session_id = Self::copy_payload(from);
            Ok(Message::RegisterAck(RegisterAckContents { session_id }))
        } else if msg_type == JOIN {
            if length - 4 > MAX_SESSION_ID_SIZE {
                return Err(());
            }
            let session_id = Self::copy_payload(from);
            Ok(Message::Join(JoinContents { session_id }))
        } else if msg_type == SESSION_NOT_FOUND {
            if length - 4 > MAX_SESSION_ID_SIZE {
                return Err(());
            }
            let session_id = Self::copy_payload(from);
            Ok(Message::SessionNotFound(SessionNotFoundContents { session_id }))
        } else if msg_type == PEER_INFO {
            if length == 11 && from[4] == 4 {
                let port = Self::from_net(from[9], from[10]);
                let octets: [u8; 4] = [from[5], from[6], from[7], from[8]];
                let m = Message::PeerInfo(PeerInfoContents {
                    peer_addr: PeerAddr::V4 { octets, port },
                });
                proof {
                    assert(octets@ =~= from@.subrange(5, 9));
                }
                Ok(m)
            } else if length == 23 && from[4] == 6 {
                let port = Self::from_net(from[21], from[22]);
                let octets: [u8; 16] = [
                    from[5],
                    from[6],
                    from[7],
                    from[8],
                    from[9],
                    from[10],
                    from[11],
                    from[12],
                    from[13],
                    from[14],
                    from[15],
                    from[16],
                    from[17],
                    from[18],
                    from[19],
                    from[20],
                ];
                let m = Message::PeerInfo(PeerInfoContents {
                    peer_addr: PeerAddr::V6 { octets, port },
                });
                proof {
                    assert(octets@ =~= from@.subrange(5, 21));
                }
                Ok(m)
            } else {
                Err(())
            }
        } else if msg_type == DATA {
            if length - 4 > MAX_DATA_SIZE {
                return Err(());
            }
            let data = Self::copy_payload(from);
            Ok(Message::Data(DataContents { data }))
        } else {
            Err(())
        }
    }
}

/// Every transport address the codec can hold is well formed: its octet
/// arrays have exactly the lengths its families ask for.
pub proof fn lemma_peer_addr_wf(a: PeerAddr)
    ensures
        wf_addr(a@),
{
    match a {
        PeerAddr::V4 { .. } => {},
        PeerAddr::V6 { .. } => {},
    }
}

/// Law: encoding any well-formed message and decoding the result yields the
/// message back unchanged.
pub proof fn lemma_decode_of_encode(m: MsgModel)
    requires
        wf_msg(m),
    ensures
        decode_spec(encode_spec(m)) == Option::Some(m),
{
    let b = encode_spec(m);
    let plen = payload_of(m).len();
    let total = (4 + plen) as u16;
    assert(b.len() == 4 + plen);
    assert(be16_at(b, 0) == total);
    assert(be16_at(b, 2) == type_code_of(m));
    assert(b.subrange(4, b.len() as int) =~= payload_of(m));
    match m {
        MsgModel::PeerInfo { addr } => {
            match addr {
                AddrModel::V4 { octets, port } => {
                    assert(b.len() == 11);
                    assert(b[4] == 4);
                    assert(b.subrange(5, 9) =~= octets);
                    assert(be16_at(b, 9) == port);
                },
                AddrModel::V6 { octets, port } => {
                    assert(b.len() == 23);
                    assert(b[4] == 6);
                    assert(b.subrange(5, 21) =~= octets);
                    assert(be16_at(b, 21) == port);
                },
            }
        },
        _ => {},
    }
}

/// Law: any byte string that decodes at all decodes to a well-formed message
/// that encodes back to exactly that byte string.
pub proof fn lemma_encode_of_decode(b: Seq<u8>)
    ensures
        decode_spec(b) matches Option::Some(m) ==> wf_msg(m) && encode_spec(m) == b,
{
    if decode_spec(b) is Some {
        let m = decode_spec(b).unwrap();
        let total = b.len() as u16;
        assert(b[0] * 256 + b[1] == b.len());
        lemma_fundamental_div_mod_converse(total as int, 256, b[0] as int, b[1] as int);
        assert(total / 256 == b[0] && total % 256 == b[1]);
        let code = type_code_of(m);
        assert(b[2] * 256 + b[3] == code);
        lemma_fundamental_div_mod_converse(code as int, 256, b[2] as int, b[3] as int);
        assert(code / 256 == b[2] && code % 256 == b[3]);
        match m {
            MsgModel::PeerInfo { addr } => {
                match addr {
                    AddrModel::V4 { octets, port } => {
                        assert(b[9] * 256 + b[10] == port);
                        lemma_fundamental_div_mod_converse(
                            port as int,
                            256,
                            b[9] as int,
                            b[10] as int,
                        );
                        assert(encode_spec(m) =~= b);
                    },
                    AddrModel::V6 { octets, port } => {
                        assert(b[21] * 256 + b[22] == port);
                        lemma_fundamental_div_mod_converse(
                            port as int,
                            256,
                            b[21] as int,
                            b[22] as int,
                        );
                        assert(encode_spec(m) =~= b);
                    },
                }
            },
            _ => {
                assert(encode_spec(m) =~= b);
            },
        }
    }
}

/// Law: a datagram shorter than the header, or whose declared length field
/// differs from its actual length, is always rejected.
pub proof fn lemma_decode_length_mismatch(b: Seq<u8>)
    ensures
        b.len() < 4 ==> decode_spec(b) is None,
        b.len() >= 4 && be16_at(b, 0) != b.len() ==> decode_spec(b) is None,
{
}

} // verus!
