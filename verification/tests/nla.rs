use qdisc_netem::constants::{
    NLA_TYPE_MASK, NLM_F_ACK, NLM_F_REQUEST, TCA_OPTIONS, TC_H_INGRESS, TC_H_MAJ_MASK, TC_H_MIN_MASK,
    TC_H_ROOT, TC_H_UNSPEC,
};
use qdisc_netem::netem::{qopt_attribute, time64_attribute, TcNetemQopt};
use netlink_packet_utils::nla::{Nla, NlaBuffer};
use netlink_packet_utils::traits::Parseable;
use qdisc_netem::nla::{attribute_from_raw, DefaultNla};

fn raw(len_field: u16, kind: u16, total: usize) -> Vec<u8> {
    let mut v = vec![0u8; total.max(4)];
    v[0..2].copy_from_slice(&len_field.to_ne_bytes());
    v[2..4].copy_from_slice(&kind.to_ne_bytes());
    v.truncate(total);
    v
}

#[test]
fn constants_match_the_netlink_crates() {
    assert_eq!(TC_H_ROOT, netlink_packet_route::tc::constants::TC_H_ROOT);
    assert_eq!(TC_H_INGRESS, netlink_packet_route::tc::constants::TC_H_INGRESS);
    assert_eq!(TC_H_UNSPEC, netlink_packet_route::tc::constants::TC_H_UNSPEC);
    assert_eq!(TC_H_MAJ_MASK, netlink_packet_route::tc::constants::TC_H_MAJ_MASK);
    assert_eq!(TC_H_MIN_MASK, netlink_packet_route::tc::constants::TC_H_MIN_MASK);
    assert_eq!(TCA_OPTIONS, netlink_packet_route::TCA_OPTIONS);
    assert_eq!(NLM_F_REQUEST, netlink_packet_core::NLM_F_REQUEST);
    assert_eq!(NLM_F_ACK, netlink_packet_core::NLM_F_ACK);
    assert_eq!(NLA_TYPE_MASK, netlink_packet_utils::nla::NLA_TYPE_MASK);
}

#[test]
fn well_framed_attribute_is_read() {
    let mut r = raw(6, 0, 8);
    r[4] = 0xaa;
    r[5] = 0xbb;
    r[6] = 0xcc;
    let nla = attribute_from_raw(r, 9).unwrap();
    assert_eq!(nla, DefaultNla { kind: 9, value: vec![0xaa, 0xbb] });
}

#[test]
fn kind_flag_bits_are_dropped() {
    let nla = attribute_from_raw(raw(4, 0, 4), 0xC002).unwrap();
    assert_eq!(nla.kind, 2);
    assert!(nla.value.is_empty());
}

#[test]
fn short_buffer_is_refused() {
    assert!(attribute_from_raw(vec![4, 0, 0], 1).is_err());
}

#[test]
fn length_past_buffer_is_refused() {
    assert!(attribute_from_raw(raw(100, 1, 16), 1).is_err());
}

#[test]
fn length_below_header_is_refused() {
    assert!(attribute_from_raw(raw(3, 1, 16), 1).is_err());
}

#[test]
fn qopt_attribute_layout() {
    let nla = qopt_attribute(&TcNetemQopt { limit: 1, loss: 100, gap: 2, duplicate: 0 }).unwrap();
    let mut expected = Vec::new();
    for v in [1u32, 4294967200, 2, 0, 0] {
        expected.extend(v.to_ne_bytes());
    }
    assert_eq!(nla, DefaultNla { kind: 2, value: expected });
}

#[test]
fn time64_attribute_layout() {
    let nla = time64_attribute(10, u64::MAX - 1).unwrap();
    let mut expected = (u64::MAX - 1).to_ne_bytes().to_vec();
    expected.extend([0, 0, 0, 0]);
    assert_eq!(nla, DefaultNla { kind: 10, value: expected });
}

#[test]
fn attribute_agrees_with_netlink_parser() {
    let nla = time64_attribute(11, 42).unwrap();
    let mut wire = vec![0u8; 16];
    wire[0..2].copy_from_slice(&16u16.to_ne_bytes());
    wire[2..4].copy_from_slice(&11u16.to_ne_bytes());
    wire[4..12].copy_from_slice(&42u64.to_ne_bytes());
    let parsed = netlink_packet_utils::nla::DefaultNla::parse(&NlaBuffer::new(&wire[..])).unwrap();
    assert_eq!(parsed.kind(), nla.kind);
    assert_eq!(parsed.value_len(), nla.value.len());
}
