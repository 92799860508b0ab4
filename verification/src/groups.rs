//! Multicast interest groups of the notification socket, and the bitmask
//! that names a set of them.

use vstd::prelude::*;

verus! {

/// Group of IPv4 address changes.
pub const IPV4_ADDRESS_GROUP: u32 = 5;

/// Group of IPv4 route changes.
pub const IPV4_ROUTE_GROUP: u32 = 7;

/// Group of IPv6 address changes.
pub const IPV6_ADDRESS_GROUP: u32 = 9;

/// Group of IPv6 route changes.
pub const IPV6_ROUTE_GROUP: u32 = 11;

/// The constant `RTNLGRP_IPV4_ROUTE` of `netlink_packet_route::constants`.
/// Trusted: the crate defines it as 7.
#[verifier::external_body]
fn rtnlgrp_ipv4_route() -> (group: u32)
    ensures
        group == IPV4_ROUTE_GROUP,
{
    netlink_packet_route::constants::RTNLGRP_IPV4_ROUTE
}

/// The constant `RTNLGRP_IPV6_ROUTE` of `netlink_packet_route::constants`.
/// Trusted: the crate defines it as 11.
#[verifier::external_body]
fn rtnlgrp_ipv6_route() -> (group: u32)
    ensures
        group == IPV6_ROUTE_GROUP,
{
    netlink_packet_route::constants::RTNLGRP_IPV6_ROUTE
}

/// The constant `RTNLGRP_IPV4_IFADDR` of `netlink_packet_route::constants`.
/// Trusted: the crate defines it as 5.
#[verifier::external_body]
fn rtnlgrp_ipv4_ifaddr() -> (group: u32)
    ensures
        group == IPV4_ADDRESS_GROUP,
{
    netlink_packet_route::constants::RTNLGRP_IPV4_IFADDR
}

/// The constant `RTNLGRP_IPV6_IFADDR` of `netlink_packet_route::constants`.
/// Trusted: the crate defines it as 9.
#[verifier::external_body]
fn rtnlgrp_ipv6_ifaddr() -> (group: u32)
    ensures
        group == IPV6_ADDRESS_GROUP,
{
    netlink_packet_route::constants::RTNLGRP_IPV6_IFADDR
}

/// A group number that has a bit in a 32-bit mask.
pub open spec fn valid_group(group: u32) -> bool {
    1 <= group <= 32
}

/// The mask bit of one group: group `g` owns bit `g - 1`.
pub open spec fn group_bit(group: u32) -> u32
    recommends
        valid_group(group),
{
    1u32 << ((group - 1) as u32)
}

/// The mask of a list of groups: the union of their bits.
pub open spec fn mask_of(groups: Seq<u32>) -> u32
    decreases groups.len(),
{
    if groups.len() == 0 {
        0u32
    } else {
        mask_of(groups.drop_last()) | group_bit(groups.last())
    }
}

/// The groups a self-bound socket subscribes to, in subscription order.
pub open spec fn subscribed() -> Seq<u32> {
    seq![IPV4_ROUTE_GROUP, IPV6_ROUTE_GROUP, IPV4_ADDRESS_GROUP, IPV6_ADDRESS_GROUP]
}

/// The mask of the four subscribed groups.
pub const SUBSCRIPTION_MASK: u32 = 0x550;

/// The four interest groups of a self-bound socket: IPv4 routes, IPv6
/// routes, IPv4 addresses, IPv6 addresses.
pub fn subscription_groups() -> (groups: Vec<u32>)
    ensures
        groups@ == subscribed(),
        forall|i: int| 0 <= i < groups@.len() ==> valid_group(#[trigger] groups@[i]),
{
    let mut groups: Vec<u32> = Vec::new();
    groups.push(rtnlgrp_ipv4_route());
    groups.push(rtnlgrp_ipv6_route());
    groups.push(rtnlgrp_ipv4_ifaddr());
    groups.push(rtnlgrp_ipv6_ifaddr());
    assert(groups@ =~= subscribed());
    groups
}

/// The bitmask that names `groups`.
pub fn group_mask(groups: &Vec<u32>) -> (mask: u32)
    requires
        forall|i: int| 0 <= i < groups@.len() ==> valid_group(#[trigger] groups@[i]),
    ensures
        mask == mask_of(groups@),
{
    let mut mask: u32 = 0;
    let mut i: usize = 0;
    while i < groups.len()
        invariant
            i <= groups@.len(),
            forall|k: int| 0 <= k < groups@.len() ==> valid_group(#[trigger] groups@[k]),
            mask == mask_of(groups@.take(i as int)),
        decreases groups@.len() - i,
    {
        let group: u32 = groups[i];
        assert(valid_group(groups@[i as int]));
        let shift: u32 = group - 1;
        assert(groups@.take(i + 1).drop_last() =~= groups@.take(i as int));
        mask = mask | (1u32 << shift);
        i += 1;
    }
    assert(groups@.take(i as int) =~= groups@);
    mask
}

/// The mask of the four subscribed groups is `SUBSCRIPTION_MASK`.
pub proof fn subscription_mask_value()
    ensures
        mask_of(subscribed()) == SUBSCRIPTION_MASK,
{
    let s = subscribed();
    let s3 = s.drop_last();
    let s2 = s3.drop_last();
    let s1 = s2.drop_last();
    let s0 = s1.drop_last();
    assert(s0.len() == 0);
    assert(mask_of(s0) == 0u32);
    assert(s1.last() == 7u32);
    assert(s2.last() == 11u32);
    assert(s3.last() == 5u32);
    assert(s.last() == 9u32);
    assert(mask_of(s1) == mask_of(s0) | group_bit(7u32));
    assert(mask_of(s2) == mask_of(s1) | group_bit(11u32));
    assert(mask_of(s3) == mask_of(s2) | group_bit(5u32));
    assert(mask_of(s) == mask_of(s3) | group_bit(9u32));
    assert((((0u32 | (1u32 << 6u32)) | (1u32 << 10u32)) | (1u32 << 4u32)) | (1u32 << 8u32)
        == 0x550u32) by (bit_vector);
}

/// A mask holds the bit of a group exactly when the group is in the list
/// the mask was made of.
pub proof fn mask_holds_members(groups: Seq<u32>, group: u32)
    requires
        valid_group(group),
        forall|i: int| 0 <= i < groups.len() ==> valid_group(#[trigger] groups[i]),
    ensures
        (mask_of(groups) & group_bit(group) != 0) <==> groups.contains(group),
    decreases groups.len(),
{
    let bit = group_bit(group);
    if groups.len() == 0 {
        assert(0u32 & bit == 0) by (bit_vector);
    } else {
        let front = groups.drop_last();
        let last = groups.last();
        mask_holds_members(front, group);
        let m = mask_of(front);
        let b = group_bit(last);
        assert(((m | b) & bit != 0) <==> ((m & bit != 0) || (b & bit != 0))) by (bit_vector);
        let x: u32 = (last - 1) as u32;
        let y: u32 = (group - 1) as u32;
        assert(((1u32 << x) & (1u32 << y) != 0) <==> x == y) by (bit_vector)
            requires
                x < 32,
                y < 32,
        ;
        if groups.contains(group) {
            let k = choose|k: int| 0 <= k < groups.len() && groups[k] == group;
            if k < groups.len() - 1 {
                assert(front[k] == group);
            }
        }
        if front.contains(group) {
            let k = choose|k: int| 0 <= k < front.len() && front[k] == group;
            assert(groups[k] == group);
        }
    }
}

} // verus!
