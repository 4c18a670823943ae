use vaina::addr::Ipv6Address;
use vaina::msg::{
    Message, VAINA_MSG_ACK, VAINA_MSG_LEN, VAINA_MSG_NACK, VAINA_MSG_NIB_ADD, VAINA_MSG_NIB_DEL,
    VAINA_MSG_RCS_ADD, VAINA_MSG_RCS_DEL,
};

/// `2001:db8::1`
fn documentation_address() -> Ipv6Address {
    Ipv6Address::new([0x20, 0x01, 0x0d, 0xb8, 0, 0, 0, 0, 0, 0, 0, 0, 0, 0, 0, 1])
}

/// Sixteen octets that all differ, so that a swapped pair would show.
fn counting_address() -> Ipv6Address {
    Ipv6Address::new([
        0xf0, 0xe1, 0xd2, 0xc3, 0xb4, 0xa5, 0x96, 0x87, 0x78, 0x69, 0x5a, 0x4b, 0x3c, 0x2d, 0x1e,
        0x0f,
    ])
}

fn table_messages(seqno: u8, prefix: u8, ip: Ipv6Address) -> Vec<(u8, Message)> {
    vec![
        (2, Message::RcsAdd { seqno, prefix, ip }),
        (3, Message::RcsDel { seqno, prefix, ip }),
        (4, Message::NibAdd { seqno, prefix, ip }),
        (5, Message::NibDel { seqno, prefix, ip }),
    ]
}

#[test]
fn type_bytes_are_fixed() {
    assert_eq!(VAINA_MSG_ACK, 0);
    assert_eq!(VAINA_MSG_NACK, 1);
    assert_eq!(VAINA_MSG_RCS_ADD, 2);
    assert_eq!(VAINA_MSG_RCS_DEL, 3);
    assert_eq!(VAINA_MSG_NIB_ADD, 4);
    assert_eq!(VAINA_MSG_NIB_DEL, 5);
    assert_eq!(VAINA_MSG_LEN, 19);
}

#[test]
fn address_keeps_its_octets() {
    let octets = [
        0xf0, 0xe1, 0xd2, 0xc3, 0xb4, 0xa5, 0x96, 0x87, 0x78, 0x69, 0x5a, 0x4b, 0x3c, 0x2d, 0x1e,
        0x0f,
    ];
    assert_eq!(Ipv6Address::new(octets).octets(), octets);
    assert_eq!(counting_address().octets, octets);
    assert_ne!(counting_address(), documentation_address());
}

#[test]
fn seqno_is_the_one_given_for_every_variant() {
    let ip = documentation_address();
    for seqno in 0..=255u8 {
        assert_eq!(Message::Ack { seqno }.seqno(), seqno);
        assert_eq!(Message::Nack { seqno }.seqno(), seqno);
        assert_eq!(Message::RcsAdd { seqno, prefix: 64, ip }.seqno(), seqno);
        assert_eq!(Message::RcsDel { seqno, prefix: 64, ip }.seqno(), seqno);
        assert_eq!(Message::NibAdd { seqno, prefix: 64, ip }.seqno(), seqno);
        assert_eq!(Message::NibDel { seqno, prefix: 64, ip }.seqno(), seqno);
    }
}

#[test]
fn seqno_is_not_taken_from_the_prefix() {
    let msg = Message::NibAdd { seqno: 17, prefix: 99, ip: documentation_address() };
    assert_eq!(msg.seqno(), 17);
}

#[test]
fn is_ack_holds_of_ack_and_nack_only() {
    let ip = documentation_address();
    assert!(Message::Ack { seqno: 0 }.is_ack());
    assert!(Message::Nack { seqno: 0 }.is_ack());
    assert!(Message::Ack { seqno: 255 }.is_ack());
    assert!(Message::Nack { seqno: 255 }.is_ack());
    assert!(!Message::RcsAdd { seqno: 0, prefix: 0, ip }.is_ack());
    assert!(!Message::RcsDel { seqno: 0, prefix: 0, ip }.is_ack());
    assert!(!Message::NibAdd { seqno: 0, prefix: 0, ip }.is_ack());
    assert!(!Message::NibDel { seqno: 0, prefix: 0, ip }.is_ack());
}

#[test]
fn rcs_add_serializes_to_the_documented_bytes() {
    let msg = Message::RcsAdd { seqno: 5, prefix: 64, ip: documentation_address() };
    let bytes = msg.serialize();
    let expected: [u8; 19] = [2, 5, 64, 0x20, 0x01, 0x0d, 0xb8, 0, 0, 0, 0, 0, 0, 0, 0, 0, 0, 0, 1];
    assert_eq!(&bytes[..], &expected[..]);
    assert_eq!(bytes.len(), 19);
}

#[test]
fn nib_del_of_the_unspecified_address_is_zero_after_its_type() {
    let msg = Message::NibDel { seqno: 0, prefix: 0, ip: Ipv6Address::new([0; 16]) };
    let bytes = msg.serialize();
    let expected: [u8; 19] = [5, 0, 0, 0, 0, 0, 0, 0, 0, 0, 0, 0, 0, 0, 0, 0, 0, 0, 0];
    assert_eq!(&bytes[..], &expected[..]);
}

#[test]
fn rcs_del_and_nib_add_serialize_with_their_own_type() {
    let ip = counting_address();
    let del = Message::RcsDel { seqno: 200, prefix: 128, ip }.serialize();
    let add = Message::NibAdd { seqno: 201, prefix: 48, ip }.serialize();
    let mut expected = vec![3u8, 200, 128];
    expected.extend_from_slice(&ip.octets());
    assert_eq!(&del[..], &expected[..]);
    let mut expected = vec![4u8, 201, 48];
    expected.extend_from_slice(&ip.octets());
    assert_eq!(&add[..], &expected[..]);
}

#[test]
fn table_messages_serialize_to_nineteen_bytes_in_field_order() {
    let addresses = [documentation_address(), counting_address(), Ipv6Address::new([0xff; 16])];
    for ip in addresses {
        for seqno in 0..=255u8 {
            for prefix in [0u8, 1, 64, 127, 128, 129, 255] {
                for (kind, msg) in table_messages(seqno, prefix, ip) {
                    let bytes = msg.serialize();
                    assert_eq!(bytes.len(), VAINA_MSG_LEN);
                    assert_eq!(bytes[0], kind);
                    assert_eq!(bytes[1], seqno);
                    assert_eq!(bytes[2], prefix);
                    assert_eq!(&bytes[3..], &ip.octets()[..]);
                }
            }
        }
    }
}

#[test]
fn prefix_is_not_validated() {
    let msg = Message::RcsAdd { seqno: 1, prefix: 255, ip: documentation_address() };
    assert_eq!(msg.serialize()[2], 255);
}

#[test]
fn ack_and_nack_serialize_to_nothing() {
    for seqno in 0..=255u8 {
        assert!(Message::Ack { seqno }.serialize().is_empty());
        assert!(Message::Nack { seqno }.serialize().is_empty());
    }
}

#[test]
fn serializing_twice_gives_the_same_bytes() {
    let msg = Message::NibAdd { seqno: 77, prefix: 56, ip: counting_address() };
    assert_eq!(msg.serialize(), msg.serialize());
}

#[test]
fn different_table_messages_differ_on_the_wire() {
    let ip = documentation_address();
    let base = Message::RcsAdd { seqno: 5, prefix: 64, ip }.serialize();
    assert_ne!(base, Message::RcsDel { seqno: 5, prefix: 64, ip }.serialize());
    assert_ne!(base, Message::RcsAdd { seqno: 6, prefix: 64, ip }.serialize());
    assert_ne!(base, Message::RcsAdd { seqno: 5, prefix: 65, ip }.serialize());
    assert_ne!(base, Message::RcsAdd { seqno: 5, prefix: 64, ip: counting_address() }.serialize());
}
