//! Building traffic-control queueing-discipline requests (`RTM_NEWQDISC`),
//! including the netlink attributes of the `netem` network emulator.

pub mod bytes;
pub mod constants;
pub mod exchange;
pub mod message;
pub mod netem;
pub mod netem_laws;
pub mod nla;
pub mod request;
