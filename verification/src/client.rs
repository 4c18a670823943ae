//! The client: it numbers the messages and remembers which of them await an
//! acknowledgment.

use crate::addr::Ipv6Address;
use crate::buf::bytes_contents;
use crate::error::Error;
use crate::msg::Message;
use bytes::Bytes;
use vstd::prelude::*;

verus! {

/// UDP port of the VAINA multicast group.
pub const VAINA_PORT: u16 = 1337;

/// The VAINA multicast group, `ff15::42`, as octets in network byte order.
/// Datagrams are sent to it on port [`VAINA_PORT`], and the socket is bound
/// to the same pair.
pub const VAINA_MCAST_ADDR: [u8; 16] = [0xff, 0x15, 0, 0, 0, 0, 0, 0, 0, 0, 0, 0, 0, 0, 0, 0x42];

/// The address of the VAINA multicast group.
pub fn mcast_addr() -> (group: Ipv6Address)
    ensures
        group@ == VAINA_MCAST_ADDR@,
        group@ == seq![0xffu8, 0x15, 0, 0, 0, 0, 0, 0, 0, 0, 0, 0, 0, 0, 0, 0x42],
{
    let group = Ipv6Address::new(VAINA_MCAST_ADDR);
    assert(group@ =~= seq![0xffu8, 0x15, 0, 0, 0, 0, 0, 0, 0, 0, 0, 0, 0, 0, 0, 0x42]);
    group
}

/// What a client knows at one moment.
pub struct ClientState {
    /// The sequence number that the next message will get.
    pub seqno: u8,
    /// The sequence numbers of the messages sent so far that await an
    /// acknowledgment, oldest first.
    pub pending_acks: Seq<u8>,
}

impl ClientState {
    /// The state of a client that has sent nothing yet.
    pub open spec fn initial() -> ClientState {
        ClientState { seqno: 0, pending_acks: Seq::empty() }
    }

    /// The state after one sequence number has been handed out: the counter
    /// has moved on by one, from 255 back to 0.
    pub open spec fn crafted(self) -> ClientState {
        ClientState { seqno: ((self.seqno + 1) % 256) as u8, pending_acks: self.pending_acks }
    }

    /// The state after `n` sequence numbers have been handed out.
    pub open spec fn crafted_times(self, n: nat) -> ClientState
        decreases n,
    {
        if n == 0 {
            self
        } else {
            self.crafted_times((n - 1) as nat).crafted()
        }
    }

    /// The state after `msg` has been handed over for sending: a request is
    /// now pending, a reply leaves no trace.
    pub open spec fn sent(self, msg: Message) -> ClientState {
        if msg.spec_is_ack() {
            self
        } else {
            ClientState { seqno: self.seqno, pending_acks: self.pending_acks.push(msg.spec_seqno()) }
        }
    }
}

/// VAINA client: the sequencing state of one multicast endpoint.
#[derive(Debug)]
pub struct VainaClient {
    seqno: u8,
    pending_acks: Vec<u8>,
}

impl View for VainaClient {
    type V = ClientState;

    closed spec fn view(&self) -> ClientState {
        ClientState { seqno: self.seqno, pending_acks: self.pending_acks@ }
    }
}

impl VainaClient {
    /// New `VainaClient`, for a socket whose set-up ended as `setup` tells.
    ///
    /// There is a client only if the whole set-up succeeded. It starts at
    /// sequence number 0 with nothing pending.
    pub fn new(setup: Result<(), String>) -> (client: Result<VainaClient, Error>)
        ensures
            match setup {
                Ok(_) => client is Ok && client.unwrap()@ == ClientState::initial(),
                Err(source) => client == Err::<VainaClient, Error>(Error::VainaSocket { source }),
            },
    {
        match setup {
            Ok(_) => Ok(VainaClient { seqno: 0u8, pending_acks: Vec::new() }),
            Err(source) => Err(Error::VainaSocket { source }),
        }
    }

    /// Craft a new sequence number: the current one is returned and the
    /// counter moves on, from 255 back to 0.
    pub fn craft_seqno(&mut self) -> (seqno: u8)
        ensures
            seqno == old(self)@.seqno,
            final(self)@ == old(self)@.crafted(),
            final(self)@.seqno == (seqno + 1) % 256,
            final(self)@.pending_acks == old(self)@.pending_acks,
    {
        let seqno = self.seqno;
        self.seqno = seqno.wrapping_add(1);
        seqno
    }

    /// Send a message: the message is recorded and its datagram returned,
    /// to be transmitted to the group as it is, even where it is empty.
    ///
    /// A request is recorded as pending before anything is transmitted, so it
    /// stays pending whether or not the transmission succeeds.
    pub fn send_message(&mut self, msg: &Message) -> (datagram: Bytes)
        ensures
            final(self)@ == old(self)@.sent(*msg),
            !msg.spec_is_ack() ==> final(self)@.pending_acks == old(self)@.pending_acks.push(
                msg.spec_seqno(),
            ),
            msg.spec_is_ack() ==> final(self)@.pending_acks == old(self)@.pending_acks,
            final(self)@.seqno == old(self)@.seqno,
            bytes_contents(datagram) == msg.wire(),
    {
        if !msg.is_ack() {
            self.pending_acks.push(msg.seqno());
        }

        msg.serialize()
    }

    /// What sending a message comes to, once its datagram has been handed to
    /// the socket: `outcome` is the number of bytes transmitted, or the
    /// operating system's description of the failure.
    pub fn send_result(outcome: Result<usize, String>) -> (sent: Result<(), Error>)
        ensures
            match outcome {
                Ok(_) => sent == Ok::<(), Error>(()),
                Err(source) => sent == Err::<(), Error>(Error::FailedSend { source }),
            },
    {
        match outcome {
            Ok(_) => Ok(()),
            Err(source) => Err(Error::FailedSend { source }),
        }
    }

    /// The sequence numbers of the messages sent so far that await an
    /// acknowledgment, oldest first.
    pub fn pending_acks(&self) -> (pending: &Vec<u8>)
        ensures
            pending@ == self@.pending_acks,
    {
        &self.pending_acks
    }
}

/// Sequence numbers count up by one and wrap from 255 to 0: after `n`
/// numbers have been handed out, the next one is the first plus `n`, modulo
/// 256. Handing out numbers leaves the pending messages as they are.
pub proof fn lemma_crafted_times(state: ClientState, n: nat)
    ensures
        state.crafted_times(n).seqno == (state.seqno + n) % 256,
        state.crafted_times(n).pending_acks == state.pending_acks,
    decreases n,
{
    if n > 0 {
        lemma_crafted_times(state, (n - 1) as nat);
    }
}

} // verus!
