//! The framed packet: one datagram, or one of several coalesced in a datagram.
//!
//! On the wire a packet is a 12-byte header followed by its payload. The first
//! 16 bits pack the flags into the 5 high bits and the total size into the 11
//! low bits; every integer is big-endian.

use crate::buffer::{
    be_u16, bytes_seq, drain, get_u16, get_u32, put_u16, put_u32, u16_be_bytes, u32_be_bytes,
};
use crate::Error;
use bytes::{Bytes, BytesMut};
use std::ops::Deref;
use vstd::prelude::*;

verus! {

/// Length of the fixed packet header on the wire.
pub const HEADER_SIZE: u16 = 0x0c;

/// Longest payload that the 11-bit size field can announce.
pub const MAX_PAYLOAD: usize = 2035;

/// The flag bits of a packet, a set drawn from a 5-bit space.
///
/// Bits without a name are carried along unchanged and trigger nothing.
#[derive(Debug, Clone, Copy, PartialEq, Eq, Structural)]
pub struct PacketFlag {
    pub bits: u8,
}

impl PacketFlag {
    pub const ACK_REQUEST: u8 = 0x01;

    pub const HELLO: u8 = 0x02;

    pub const RESEND: u8 = 0x04;

    pub const ACK: u8 = 0x10;

    /// Every bit that has a name.
    pub const ALL: u8 = 0x17;

    /// The set with no bit.
    pub fn empty() -> (f: PacketFlag)
        ensures
            f.bits == 0,
    {
        PacketFlag { bits: 0 }
    }

    /// The set with exactly the given bits, if each of them has a name.
    pub fn from_bits(bits: u8) -> (f: Option<PacketFlag>)
        ensures
            f == if bits & !PacketFlag::ALL == 0 {
                Some(PacketFlag { bits })
            } else {
                None
            },
    {
        if bits & !PacketFlag::ALL == 0 {
            Some(PacketFlag { bits })
        } else {
            None
        }
    }

    /// The set with exactly the given bits, named or not.
    pub fn from_bits_retain(bits: u8) -> (f: PacketFlag)
        ensures
            f.bits == bits,
    {
        PacketFlag { bits }
    }

    pub fn bits(&self) -> (b: u8)
        ensures
            b == self.bits,
    {
        self.bits
    }

    pub fn is_empty(&self) -> (e: bool)
        ensures
            e == (self.bits == 0),
    {
        self.bits == 0
    }

    /// Whether every bit of `mask` is in the set.
    pub fn contains(&self, mask: u8) -> (c: bool)
        ensures
            c == (self.bits & mask == mask),
    {
        self.bits & mask == mask
    }

    /// Whether some bit of `mask` is in the set.
    pub fn intersects(&self, mask: u8) -> (c: bool)
        ensures
            c == (self.bits & mask != 0),
    {
        self.bits & mask != 0
    }
}

/// What a packet holds, as plain values.
pub struct PacketView {
    pub flags: Option<u8>,
    pub uid: u16,
    pub ack_id: u16,
    pub id: u16,
    pub payload: Option<Seq<u8>>,
}

/// The first 16 bits of a header: flags above, total size below.
pub open spec fn flags_size(flags: u8, size: u16) -> u16 {
    ((flags as u16) << 11) | size
}

/// The leading 16-bit word of a buffer that starts with a header.
pub open spec fn wire_word(s: Seq<u8>) -> u16 {
    be_u16(s[0], s[1])
}

/// The total size that a header announces, header included.
pub open spec fn wire_size(s: Seq<u8>) -> int {
    (wire_word(s) & 0x07ff) as int
}

/// The flag bits that a header carries.
pub open spec fn wire_flags(s: Seq<u8>) -> u8 {
    (wire_word(s) >> 11) as u8
}

/// Whether `s` starts with a whole packet: a full header whose announced
/// size covers the header and does not run past the end of `s`.
pub open spec fn packet_complete(s: Seq<u8>) -> bool {
    &&& s.len() >= HEADER_SIZE
    &&& HEADER_SIZE <= wire_size(s) <= s.len()
}

impl PacketView {
    /// The flag bits that go on the wire; no flags at all are sent as zero.
    pub open spec fn flag_bits(self) -> u8 {
        match self.flags {
            Some(bits) => bits,
            None => 0,
        }
    }

    /// The payload bytes that go on the wire; no payload is sent as none.
    pub open spec fn body(self) -> Seq<u8> {
        match self.payload {
            Some(bytes) => bytes,
            None => Seq::empty(),
        }
    }

    /// Whether the packet belongs to the opening handshake.
    pub open spec fn is_hello(self) -> bool {
        self.flag_bits() & PacketFlag::HELLO != 0
    }

    /// Whether the sender asks for an acknowledgement.
    pub open spec fn ack_request(self) -> bool {
        self.flag_bits() & PacketFlag::ACK_REQUEST != 0
    }

    /// The acknowledgement of the packet numbered `ack_id`, sent as packet
    /// `id`: the flag `ACK` alone, and no payload.
    pub open spec fn ack(uid: u16, ack_id: u16, id: u16) -> PacketView {
        PacketView { flags: Some(PacketFlag::ACK), uid, ack_id, id, payload: None }
    }

    /// A packet that the wire format can carry: its flags fit the 5-bit
    /// field and its size fits the 11-bit field.
    pub open spec fn well_formed(self) -> bool {
        &&& self.flag_bits() < 32
        &&& self.body().len() <= MAX_PAYLOAD
    }

    /// The form in which a packet comes back from the wire: flags always
    /// present, an empty payload absent.
    pub open spec fn canonical(self) -> PacketView {
        PacketView {
            flags: Some(self.flag_bits()),
            uid: self.uid,
            ack_id: self.ack_id,
            id: self.id,
            payload: if self.body().len() == 0 {
                None
            } else {
                Some(self.body())
            },
        }
    }

    /// The bytes of the packet on the wire.
    pub open spec fn wire(self) -> Seq<u8> {
        u16_be_bytes(flags_size(self.flag_bits(), (HEADER_SIZE + self.body().len()) as u16))
            + u16_be_bytes(self.uid) + u16_be_bytes(self.ack_id) + u32_be_bytes(0) + u16_be_bytes(
            self.id,
        ) + self.body()
    }

    /// The packet at the front of `s`, meaningful where `packet_complete(s)`.
    pub open spec fn from_wire(s: Seq<u8>) -> PacketView {
        PacketView {
            flags: Some(wire_flags(s)),
            uid: be_u16(s[2], s[3]),
            ack_id: be_u16(s[4], s[5]),
            id: be_u16(s[10], s[11]),
            payload: if wire_size(s) == HEADER_SIZE {
                None
            } else {
                Some(s.subrange(HEADER_SIZE as int, wire_size(s)))
            },
        }
    }
}

/// The packets of a datagram, in order. Where the datagram ends inside a
/// packet, that place holds `None` and is the last.
pub open spec fn split_packets(s: Seq<u8>) -> Seq<Option<PacketView>>
    decreases s.len(),
{
    if s.len() == 0 {
        Seq::empty()
    } else if !packet_complete(s) {
        seq![None]
    } else {
        seq![Some(PacketView::from_wire(s))] + split_packets(s.skip(wire_size(s)))
    }
}

/// One packet of the session transport.
#[derive(Debug, PartialEq)]
pub struct Packet {
    flags: Option<PacketFlag>,
    uid: u16,
    ack_id: u16,
    id: u16,
    payload: Option<Bytes>,
}

impl View for Packet {
    type V = PacketView;

    closed spec fn view(&self) -> PacketView {
        PacketView {
            flags: match self.flags {
                Some(f) => Some(f.bits),
                None => None,
            },
            uid: self.uid,
            ack_id: self.ack_id,
            id: self.id,
            payload: match self.payload {
                Some(b) => Some(bytes_seq(b)),
                None => None,
            },
        }
    }
}

impl Packet {
    pub fn new(
        flags: Option<PacketFlag>,
        uid: u16,
        ack_id: u16,
        id: u16,
        payload: Option<Bytes>,
    ) -> (p: Packet)
        ensures
            p@.flags == match flags {
                Some(f) => Some(f.bits),
                None => None,
            },
            p@.uid == uid,
            p@.ack_id == ack_id,
            p@.id == id,
            p@.payload == match payload {
                Some(b) => Some(bytes_seq(b)),
                None => None,
            },
    {
        Packet { flags, uid, ack_id, id, payload }
    }

    /// The acknowledgement of the packet numbered `ack_id`, sent as packet `id`.
    pub fn new_ack(uid: u16, ack_id: u16, id: u16) -> (p: Packet)
        ensures
            p@ == PacketView::ack(uid, ack_id, id),
    {
        Packet::new(Some(PacketFlag::from_bits_retain(PacketFlag::ACK)), uid, ack_id, id, None)
    }

    /// The packet that opens a session.
    pub fn new_hello_packet() -> (p: Packet)
        ensures
            p@ == (PacketView {
                flags: Some(PacketFlag::HELLO),
                uid: 0x1337,
                ack_id: 0,
                id: 0,
                payload: Some(seq![0x01u8, 0, 0, 0, 0, 0, 0, 0]),
            }),
    {
        let data: Vec<u8> = vec![0x01u8, 0x00, 0x00, 0x00, 0x00, 0x00, 0x00, 0x00];
        let hello_data = Bytes::from(data);
        Packet::new(
            Some(PacketFlag::from_bits_retain(PacketFlag::HELLO)),
            0x1337,
            0x0000,
            0x0000,
            Some(hello_data),
        )
    }

    /// The bytes of the packet on the wire.
    pub fn serialize(&self) -> (out: Bytes)
        requires
            self@.body().len() <= MAX_PAYLOAD,
        ensures
            bytes_seq(out) == self@.wire(),
    {
        let mut bytes = BytesMut::new();

        let payload_size: u16 = if let Some(p) = &self.payload {
            p.len() as u16
        } else {
            0
        };
        let size_flags: u16 = if let Some(flags) = self.flags {
            ((flags.bits() as u16) << 11) | (payload_size + HEADER_SIZE)
        } else {
            let size: u16 = payload_size + HEADER_SIZE;
            assert((0u16 << 11) | size == size) by (bit_vector);
            size
        };

        put_u16(&mut bytes, size_flags);
        put_u16(&mut bytes, self.uid);
        put_u16(&mut bytes, self.ack_id);
        put_u32(&mut bytes, 0x00);
        put_u16(&mut bytes, self.id);

        if let Some(payload) = &self.payload {
            bytes.extend_from_slice(payload.deref());
        }
        bytes.freeze()
    }

    /// Whether the buffer starts with a whole packet.
    pub fn is_complete(packet: &Bytes) -> (c: bool)
        ensures
            c == packet_complete(bytes_seq(*packet)),
    {
        let wire: &[u8] = packet.deref();
        if wire.len() < HEADER_SIZE as usize {
            false
        } else {
            let word: u16 = (wire[0] as u16) * 256 + (wire[1] as u16);
            let size: u16 = word & 0x07ff;
            assert(word & 0x07ff < 2048) by (bit_vector);
            size >= HEADER_SIZE && size as usize <= wire.len()
        }
    }

    /// Takes the packet at the front of `packet` off it, if a whole packet
    /// stands there.
    ///
    /// Where the buffer ends inside the packet, or the packet announces a
    /// size smaller than its own header, the result is `TruncatedPacket`
    /// and the buffer is left empty.
    pub fn try_deserialize(packet: &mut Bytes) -> (r: Result<Packet, Error>)
        ensures
            packet_complete(bytes_seq(*old(packet))) ==> {
                &&& r matches Ok(p)
                &&& p@ == PacketView::from_wire(bytes_seq(*old(packet)))
                &&& bytes_seq(*final(packet)) == bytes_seq(*old(packet)).skip(
                    wire_size(bytes_seq(*old(packet))),
                )
            },
            !packet_complete(bytes_seq(*old(packet))) ==> {
                &&& r matches Err(Error::TruncatedPacket)
                &&& bytes_seq(*final(packet)).len() == 0
            },
    {
        if Packet::is_complete(packet) {
            Ok(Packet::deserialize(packet))
        } else {
            drain(packet);
            Err(Error::TruncatedPacket)
        }
    }

    /// Takes the packet at the front of `packet` off it.
    pub fn deserialize(packet: &mut Bytes) -> (p: Packet)
        requires
            packet_complete(bytes_seq(*old(packet))),
        ensures
            p@ == PacketView::from_wire(bytes_seq(*old(packet))),
            bytes_seq(*final(packet)) == bytes_seq(*old(packet)).skip(
                wire_size(bytes_seq(*old(packet))),
            ),
    {
        let ghost wire = bytes_seq(*packet);
        let flag_size = get_u16(packet);
        assert((flag_size & 0xf800) >> 11 == flag_size >> 11) by (bit_vector);
        assert(flag_size >> 11 < 32) by (bit_vector);
        assert(flag_size & 0x07ff < 2048) by (bit_vector);
        let flags = ((flag_size & 0xf800) >> 11) as u8;
        let size = flag_size & 0x07ff;
        let uid = get_u16(packet);
        let ack_id = get_u16(packet);
        let _ = get_u32(packet);
        let id = get_u16(packet);

        let payload_size = size - HEADER_SIZE;
        let payload = if payload_size > 0 {
            let body = packet.split_to(payload_size as usize);
            assert(bytes_seq(body) == wire.subrange(HEADER_SIZE as int, size as int));
            Some(body)
        } else {
            None
        };

        Packet { flags: Some(PacketFlag::from_bits_retain(flags)), uid, ack_id, id, payload }
    }

    pub fn id(&self) -> (id: u16)
        ensures
            id == self@.id,
    {
        self.id
    }

    pub fn uid(&self) -> (uid: u16)
        ensures
            uid == self@.uid,
    {
        self.uid
    }

    pub fn ack_id(&self) -> (ack_id: u16)
        ensures
            ack_id == self@.ack_id,
    {
        self.ack_id
    }

    pub fn flags(&self) -> (flags: Option<PacketFlag>)
        ensures
            self@.flags == match flags {
                Some(f) => Some(f.bits),
                None => None,
            },
    {
        self.flags
    }

    /// Whether the sender asks for an acknowledgement.
    pub fn ack_request(&self) -> (r: bool)
        ensures
            r == self@.ack_request(),
    {
        if let Some(flags) = self.flags {
            flags.intersects(PacketFlag::ACK_REQUEST)
        } else {
            assert(0u8 & 0x01 == 0) by (bit_vector);
            false
        }
    }

    /// Whether the packet belongs to the opening handshake.
    pub fn is_hello(&self) -> (r: bool)
        ensures
            r == self@.is_hello(),
    {
        if let Some(flags) = self.flags {
            flags.intersects(PacketFlag::HELLO)
        } else {
            assert(0u8 & 0x02 == 0) by (bit_vector);
            false
        }
    }

    pub fn payload(&self) -> (payload: Option<Bytes>)
        ensures
            self@.payload == match payload {
                Some(b) => Some(bytes_seq(b)),
                None => None,
            },
    {
        match &self.payload {
            Some(b) => Some(b.clone()),
            None => None,
        }
    }
}

/// A 16-bit integer is read back from its two big-endian bytes.
pub proof fn lemma_be_u16_round_trip(n: u16)
    ensures
        u16_be_bytes(n).len() == 2,
        be_u16(u16_be_bytes(n)[0], u16_be_bytes(n)[1]) == n,
{
}

/// Flags below 32 and a size below 2048 are read back from the word that
/// packs them.
pub proof fn lemma_flags_size_round_trip(flags: u8, size: u16)
    requires
        flags < 32,
        size < 2048,
    ensures
        (flags_size(flags, size) >> 11) as u8 == flags,
        flags_size(flags, size) & 0x07ff == size,
{
    assert(flags < 32 && size < 2048 ==> ((((flags as u16) << 11) | size) >> 11) as u8 == flags
        && (((flags as u16) << 11) | size) & 0x07ff == size) by (bit_vector);
}

/// Deserializing what was serialized gives the packet back, whatever follows
/// it in the buffer, and leaves exactly what followed.
///
/// The packet comes back in canonical form: a packet built without flags
/// returns with an empty set of flags, and one built with an empty payload
/// returns without payload.
pub proof fn lemma_deserialize_serialize(v: PacketView, rest: Seq<u8>)
    requires
        v.well_formed(),
    ensures
        packet_complete(v.wire() + rest),
        wire_size(v.wire() + rest) == v.wire().len() == HEADER_SIZE + v.body().len(),
        PacketView::from_wire(v.wire() + rest) == v.canonical(),
        (v.wire() + rest).skip(wire_size(v.wire() + rest)) == rest,
{
    let size = (HEADER_SIZE + v.body().len()) as u16;
    let word = flags_size(v.flag_bits(), size);
    let s = v.wire() + rest;
    lemma_flags_size_round_trip(v.flag_bits(), size);
    lemma_be_u16_round_trip(word);
    lemma_be_u16_round_trip(v.uid);
    lemma_be_u16_round_trip(v.ack_id);
    lemma_be_u16_round_trip(v.id);
    assert(s.subrange(HEADER_SIZE as int, size as int) == v.body());
}

/// A packet that has flags, and a payload that is not empty or none at all,
/// comes back from the wire exactly as it went.
pub proof fn lemma_round_trip_exact(v: PacketView, rest: Seq<u8>)
    requires
        v.well_formed(),
        v.flags is Some,
        v.payload matches Some(bytes) ==> bytes.len() > 0,
    ensures
        packet_complete(v.wire() + rest),
        PacketView::from_wire(v.wire() + rest) == v,
        (v.wire() + rest).skip(wire_size(v.wire() + rest)) == rest,
{
    lemma_deserialize_serialize(v, rest);
}

/// Packets coalesced into one datagram are taken off it one by one: the
/// first comes back in canonical form, and what follows it is split as if
/// it stood alone.
pub proof fn lemma_split_first_packet(v: PacketView, rest: Seq<u8>)
    requires
        v.well_formed(),
    ensures
        split_packets(v.wire() + rest) == seq![Some(v.canonical())] + split_packets(rest),
{
    lemma_deserialize_serialize(v, rest);
}

/// A datagram without bytes holds no packet.
pub proof fn lemma_empty_datagram()
    ensures
        split_packets(Seq::<u8>::empty()) == Seq::<Option<PacketView>>::empty(),
{
}

} // verus!
