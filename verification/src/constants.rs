//! Protocol constants of the netlink traffic-control interface.
use vstd::prelude::*;

verus! {

/// Mask of the major half of a traffic-control handle.
pub const TC_H_MAJ_MASK: u32 = 0xFFFF_0000;

/// Mask of the minor half of a traffic-control handle.
pub const TC_H_MIN_MASK: u32 = 0x0000_FFFF;

/// Unspecified parent handle: the value of a fresh request.
pub const TC_H_UNSPEC: u32 = 0;

/// Parent handle of a root queueing discipline.
pub const TC_H_ROOT: u32 = 0xFFFF_FFFF;

/// Parent handle of the ingress queueing discipline.
pub const TC_H_INGRESS: u32 = 0xFFFF_FFF1;

/// Handle given to the ingress queueing discipline (major `ffff`, minor `0`).
pub const INGRESS_HANDLE: u32 = 0xFFFF_0000;

/// Netlink header flag: the message is a request.
pub const NLM_F_REQUEST: u16 = 1;

/// Netlink header flag: the sender asks for an acknowledgement.
pub const NLM_F_ACK: u16 = 4;

/// Attribute kind: queueing-discipline specific options.
pub const TCA_OPTIONS: u16 = 2;

/// Netem attribute kind: correlations.
pub const TCA_NETEM_CORR: u16 = 1;

/// Netem attribute kind: reordering.
pub const TCA_NETEM_REORDER: u16 = 3;

/// Netem attribute kind: corruption.
pub const TCA_NETEM_CORRUPT: u16 = 4;

/// Netem attribute kind: 64-bit latency.
pub const TCA_NETEM_LATENCY64: u16 = 10;

/// Netem attribute kind: 64-bit jitter.
pub const TCA_NETEM_JITTER64: u16 = 11;

/// Bits of an attribute's type field that hold its kind (the two top bits are flags).
pub const NLA_TYPE_MASK: u16 = 0x3FFF;

/// Size of the attribute header: a 16-bit length and a 16-bit type.
pub const NLA_HEADER_SIZE: usize = 4;

} // verus!
