//! Router Client Set sub command.

use crate::addr::Ipv6Address;
use crate::buf::bytes_contents;
use crate::client::VainaClient;
use crate::command::{operation, operation_named, Operation};
use crate::error::Error;
use crate::msg::Message;
use bytes::Bytes;
use vstd::prelude::*;

verus! {

/// Router Client Set sub command: tells which operation `subcommand` names.
/// Where it names none, there is nothing to send and the usage is shown.
pub fn handle_matches(subcommand: &str) -> (op: Option<Operation>)
    ensures
        op == operation_named(subcommand@),
{
    operation(subcommand)
}

/// Asks the routers to add an entry to their Router Client Set.
///
/// A fresh client is made for the socket whose set-up ended as `setup`
/// tells. Where the set-up failed, nothing is to be sent. Otherwise the
/// request gets the client's first sequence number, and its datagram is
/// returned for transmission.
pub fn add(setup: Result<(), String>, prefix: u8, ip: Ipv6Address) -> (datagram: Result<Bytes, Error>)
    ensures
        match setup {
            Ok(_) => datagram is Ok && bytes_contents(datagram.unwrap()) == (Message::RcsAdd {
                seqno: 0,
                prefix,
                ip,
            }).wire(),
            Err(source) => datagram == Err::<Bytes, Error>(Error::VainaSocket { source }),
        },
{
    let mut client = match VainaClient::new(setup) {
        Ok(client) => client,
        Err(e) => return Err(e),
    };

    let msg = Message::RcsAdd { seqno: client.craft_seqno(), prefix, ip };
    Ok(client.send_message(&msg))
}

/// Asks the routers to remove an entry from their Router Client Set.
///
/// A fresh client is made for the socket whose set-up ended as `setup`
/// tells. Where the set-up failed, nothing is to be sent. Otherwise the
/// request gets the client's first sequence number, and its datagram is
/// returned for transmission.
pub fn del(setup: Result<(), String>, prefix: u8, ip: Ipv6Address) -> (datagram: Result<Bytes, Error>)
    ensures
        match setup {
            Ok(_) => datagram is Ok && bytes_contents(datagram.unwrap()) == (Message::RcsDel {
                seqno: 0,
                prefix,
                ip,
            }).wire(),
            Err(source) => datagram == Err::<Bytes, Error>(Error::VainaSocket { source }),
        },
{
    let mut client = match VainaClient::new(setup) {
        Ok(client) => client,
        Err(e) => return Err(e),
    };

    let msg = Message::RcsDel { seqno: client.craft_seqno(), prefix, ip };
    Ok(client.send_message(&msg))
}

} // verus!
