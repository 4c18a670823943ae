//! VAINA messages and their wire encoding.

use crate::addr::{lemma_address_octets, Ipv6Address};
use crate::buf::{bytes_contents, put_slice, put_u8};
use bytes::{Bytes, BytesMut};
use vstd::prelude::*;

verus! {

/// Type byte of an acknowledgment. Reserved: the encoder never emits it.
pub const VAINA_MSG_ACK: u8 = 0;

/// Type byte of a negative acknowledgment. Reserved: the encoder never emits it.
pub const VAINA_MSG_NACK: u8 = 1;

/// Type byte of a request to add an entry to the Router Client Set.
pub const VAINA_MSG_RCS_ADD: u8 = 2;

/// Type byte of a request to remove an entry from the Router Client Set.
pub const VAINA_MSG_RCS_DEL: u8 = 3;

/// Type byte of a request to add an entry to the Network Information Base.
pub const VAINA_MSG_NIB_ADD: u8 = 4;

/// Type byte of a request to remove an entry from the Network Information Base.
pub const VAINA_MSG_NIB_DEL: u8 = 5;

/// Length in bytes of an encoded table message: type, sequence number,
/// prefix length and the sixteen octets of the address.
pub const VAINA_MSG_LEN: usize = 19;

/// VAINA message
#[derive(Clone, Copy, Debug, PartialEq, Eq)]
pub enum Message {
    /// ACK
    Ack {
        /// Sequence number
        seqno: u8,
    },
    /// NACK
    Nack {
        /// Sequence number
        seqno: u8,
    },
    /// Add entry to RCS
    RcsAdd {
        /// Sequence number
        seqno: u8,
        /// IPv6 address prefix
        prefix: u8,
        /// Entry IPv6 address
        ip: Ipv6Address,
    },
    /// Remove entry from RCS
    RcsDel {
        /// Sequence number
        seqno: u8,
        /// IPv6 address prefix
        prefix: u8,
        /// Entry IPv6 address
        ip: Ipv6Address,
    },
    /// Add entry to NIB
    NibAdd {
        /// Sequence number
        seqno: u8,
        /// IPv6 address prefix
        prefix: u8,
        /// Entry IPv6 address
        ip: Ipv6Address,
    },
    /// Delete entry from NIB
    NibDel {
        /// Sequence number
        seqno: u8,
        /// IPv6 address prefix
        prefix: u8,
        /// Entry IPv6 address
        ip: Ipv6Address,
    },
}

/// The encoding of a table message: the type byte, the sequence number, the
/// prefix length, then the octets of the address, most significant first.
pub open spec fn table_frame(kind: u8, seqno: u8, prefix: u8, ip: Ipv6Address) -> Seq<u8> {
    seq![kind, seqno, prefix] + ip@
}

impl Message {
    /// The sequence number that the message carries.
    pub open spec fn spec_seqno(&self) -> u8 {
        match *self {
            Message::Ack { seqno } => seqno,
            Message::Nack { seqno } => seqno,
            Message::RcsAdd { seqno, .. } => seqno,
            Message::RcsDel { seqno, .. } => seqno,
            Message::NibAdd { seqno, .. } => seqno,
            Message::NibDel { seqno, .. } => seqno,
        }
    }

    /// Whether the message is a reply, `Ack` or `Nack`, rather than a request
    /// to change a table.
    pub open spec fn spec_is_ack(&self) -> bool {
        *self is Ack || *self is Nack
    }

    /// The type byte that stands for the message's variant.
    pub open spec fn type_byte(&self) -> u8 {
        match *self {
            Message::Ack { .. } => VAINA_MSG_ACK,
            Message::Nack { .. } => VAINA_MSG_NACK,
            Message::RcsAdd { .. } => VAINA_MSG_RCS_ADD,
            Message::RcsDel { .. } => VAINA_MSG_RCS_DEL,
            Message::NibAdd { .. } => VAINA_MSG_NIB_ADD,
            Message::NibDel { .. } => VAINA_MSG_NIB_DEL,
        }
    }

    /// The table entry that the message names, as prefix length and address.
    /// A reply names none.
    pub open spec fn entry(&self) -> Option<(u8, Ipv6Address)> {
        match *self {
            Message::Ack { .. } | Message::Nack { .. } => None,
            Message::RcsAdd { prefix, ip, .. } => Some((prefix, ip)),
            Message::RcsDel { prefix, ip, .. } => Some((prefix, ip)),
            Message::NibAdd { prefix, ip, .. } => Some((prefix, ip)),
            Message::NibDel { prefix, ip, .. } => Some((prefix, ip)),
        }
    }

    /// The bytes that stand for the message on the wire. A reply has none: it
    /// is sent as an empty datagram, without even its type byte or its
    /// sequence number.
    pub open spec fn wire(&self) -> Seq<u8> {
        match self.entry() {
            None => Seq::empty(),
            Some((prefix, ip)) => table_frame(self.type_byte(), self.spec_seqno(), prefix, ip),
        }
    }

    /// The sequence number of the message, whatever its variant.
    #[verifier::when_used_as_spec(spec_seqno)]
    pub fn seqno(&self) -> (seqno: u8)
        ensures
            seqno == self.spec_seqno(),
    {
        match *self {
            Message::Ack { seqno, .. } => seqno,
            Message::Nack { seqno, .. } => seqno,
            Message::RcsAdd { seqno, .. } => seqno,
            Message::RcsDel { seqno, .. } => seqno,
            Message::NibAdd { seqno, .. } => seqno,
            Message::NibDel { seqno, .. } => seqno,
        }
    }

    /// Whether the message is an `Ack` or a `Nack`. Such a message awaits no
    /// acknowledgment of its own.
    #[verifier::when_used_as_spec(spec_is_ack)]
    pub fn is_ack(&self) -> (ack: bool)
        ensures
            ack == self.spec_is_ack(),
            ack <==> (*self is Ack || *self is Nack),
            !ack <==> (*self is RcsAdd || *self is RcsDel || *self is NibAdd || *self is NibDel),
    {
        match *self {
            Message::Ack { .. } | Message::Nack { .. } => true,
            _ => false,
        }
    }

    /// Encodes the message for the wire.
    pub fn serialize(&self) -> (bytes: Bytes)
        ensures
            bytes_contents(bytes) == self.wire(),
            self.spec_is_ack() ==> bytes_contents(bytes).len() == 0,
            !self.spec_is_ack() ==> bytes_contents(bytes).len() == VAINA_MSG_LEN,
    {
        let mut buf = BytesMut::with_capacity(25);

        match *self {
            Message::Ack { .. } | Message::Nack { .. } => {},
            Message::RcsAdd { seqno, prefix, ref ip } => {
                put_u8(&mut buf, VAINA_MSG_RCS_ADD);
                put_u8(&mut buf, seqno);
                put_u8(&mut buf, prefix);
                put_slice(&mut buf, &ip.octets());
            },
            Message::RcsDel { seqno, prefix, ref ip } => {
                put_u8(&mut buf, VAINA_MSG_RCS_DEL);
                put_u8(&mut buf, seqno);
                put_u8(&mut buf, prefix);
                put_slice(&mut buf, &ip.octets());
            },
            Message::NibAdd { seqno, prefix, ref ip } => {
                put_u8(&mut buf, VAINA_MSG_NIB_ADD);
                put_u8(&mut buf, seqno);
                put_u8(&mut buf, prefix);
                put_slice(&mut buf, &ip.octets());
            },
            Message::NibDel { seqno, prefix, ref ip } => {
                put_u8(&mut buf, VAINA_MSG_NIB_DEL);
                put_u8(&mut buf, seqno);
                put_u8(&mut buf, prefix);
                put_slice(&mut buf, &ip.octets());
            },
        }

        buf.freeze()
    }
}

/// A table message is encoded in exactly nineteen bytes: the type byte of its
/// variant, its sequence number, its prefix length, and the sixteen octets of
/// its address, most significant first. This holds for every sequence
/// number, every prefix length and every address.
pub proof fn lemma_wire_of_table_message(msg: Message)
    requires
        !msg.spec_is_ack(),
    ensures
        msg.entry() is Some,
        msg.wire().len() == VAINA_MSG_LEN,
        msg.wire()[0] == msg.type_byte(),
        msg is RcsAdd ==> msg.wire()[0] == 2,
        msg is RcsDel ==> msg.wire()[0] == 3,
        msg is NibAdd ==> msg.wire()[0] == 4,
        msg is NibDel ==> msg.wire()[0] == 5,
        msg.wire()[1] == msg.spec_seqno(),
        msg.wire()[2] == msg.entry().unwrap().0,
        msg.wire().subrange(3, 19) == msg.entry().unwrap().1@,
        forall|i: int| 0 <= i < 16 ==> msg.wire()[3 + i] == msg.entry().unwrap().1.octets[i],
{
    let (prefix, ip) = msg.entry().unwrap();
    let head = seq![msg.type_byte(), msg.spec_seqno(), prefix];
    assert(msg.wire() == head + ip@);
    assert(ip@.len() == 16);
    assert(msg.wire().subrange(3, 19) =~= ip@);
    assert forall|i: int| 0 <= i < 16 implies msg.wire()[3 + i] == ip.octets[i] by {
        assert(msg.wire()[3 + i] == ip@[i]);
    }
}

/// An `Ack` or a `Nack` is encoded as no bytes at all, whatever its sequence
/// number.
pub proof fn lemma_wire_of_reply(msg: Message)
    requires
        msg.spec_is_ack(),
    ensures
        msg.wire() == Seq::<u8>::empty(),
        msg.wire().len() == 0,
{
}

/// The encoding loses nothing of a table message: two table messages with
/// the same bytes on the wire are the same message.
pub proof fn lemma_wire_determines_table_message(a: Message, b: Message)
    requires
        !a.spec_is_ack(),
        !b.spec_is_ack(),
        a.wire() == b.wire(),
    ensures
        a == b,
{
    lemma_wire_of_table_message(a);
    lemma_wire_of_table_message(b);
    let (prefix_a, ip_a) = a.entry().unwrap();
    let (prefix_b, ip_b) = b.entry().unwrap();
    assert(a.wire()[0] == b.wire()[0]);
    assert(a.wire()[1] == b.wire()[1]);
    assert(a.wire()[2] == b.wire()[2]);
    assert(ip_a@ == ip_b@);
    lemma_address_octets(ip_a, ip_b);
}

} // verus!
