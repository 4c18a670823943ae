use vaina::addr::Ipv6Address;
use vaina::command::{operation, Operation};
use vaina::{nib, rcs, Error};

fn entry() -> Ipv6Address {
    Ipv6Address::new([0xfe, 0x80, 0, 0, 0, 0, 0, 0, 0x02, 0x11, 0x22, 0xff, 0xfe, 0x33, 0x44, 0x55])
}

fn frame(kind: u8, prefix: u8, ip: Ipv6Address) -> Vec<u8> {
    let mut bytes = vec![kind, 0, prefix];
    bytes.extend_from_slice(&ip.octets());
    bytes
}

#[test]
fn add_and_del_name_their_operations() {
    assert_eq!(operation("add"), Some(Operation::Add));
    assert_eq!(operation("del"), Some(Operation::Del));
    assert_eq!(rcs::handle_matches("add"), Some(Operation::Add));
    assert_eq!(rcs::handle_matches("del"), Some(Operation::Del));
    assert_eq!(nib::handle_matches("add"), Some(Operation::Add));
    assert_eq!(nib::handle_matches("del"), Some(Operation::Del));
}

#[test]
fn other_names_name_no_operation() {
    for name in ["", "a", "ad", "adD", "ADD", "Add", "add ", " add", "adds", "dal", "delete", "de", "rcs", "añd"] {
        assert_eq!(operation(name), None);
        assert_eq!(rcs::handle_matches(name), None);
        assert_eq!(nib::handle_matches(name), None);
    }
}

#[test]
fn rcs_add_sends_an_rcs_add_with_the_first_seqno() {
    let datagram = rcs::add(Ok(()), 64, entry()).unwrap();
    assert_eq!(&datagram[..], &frame(2, 64, entry())[..]);
}

#[test]
fn rcs_del_sends_an_rcs_del_with_the_first_seqno() {
    let datagram = rcs::del(Ok(()), 128, entry()).unwrap();
    assert_eq!(&datagram[..], &frame(3, 128, entry())[..]);
}

#[test]
fn nib_add_sends_a_nib_add_with_the_first_seqno() {
    let datagram = nib::add(Ok(()), 0, entry()).unwrap();
    assert_eq!(&datagram[..], &frame(4, 0, entry())[..]);
}

#[test]
fn nib_del_sends_a_nib_del_with_the_first_seqno() {
    let datagram = nib::del(Ok(()), 48, entry()).unwrap();
    assert_eq!(&datagram[..], &frame(5, 48, entry())[..]);
}

#[test]
fn every_invocation_starts_a_fresh_client() {
    let first = rcs::add(Ok(()), 64, entry()).unwrap();
    let second = rcs::add(Ok(()), 64, entry()).unwrap();
    assert_eq!(first[1], 0);
    assert_eq!(second[1], 0);
}

#[test]
fn nothing_is_sent_when_the_socket_setup_failed() {
    let why = "ENODEV: No such device";
    let expected = Error::VainaSocket { source: String::from(why) };
    assert_eq!(rcs::add(Err(String::from(why)), 64, entry()), Err(Error::VainaSocket { source: String::from(why) }));
    assert_eq!(rcs::del(Err(String::from(why)), 64, entry()).unwrap_err(), expected);
    assert_eq!(nib::add(Err(String::from(why)), 64, entry()).unwrap_err(), expected);
    assert_eq!(nib::del(Err(String::from(why)), 64, entry()).unwrap_err(), expected);
}
