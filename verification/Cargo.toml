[package]
name = "qdisc_netem"
version = "0.1.0"
edition = "2021"
publish = false

[dependencies]
byteorder = "1"
futures = "0.3"
netlink-packet-route = "0.13"
netlink-packet-utils = "0.5"
netlink-packet-core = "0.4"
netlink-proto = "0.10"
